//! The requests that clients make, one function each: identifiers arrive as
//! text, the store is read or changed, and every change is announced on the
//! feed.

pub mod projects;
pub mod reply;
pub mod tasks;
