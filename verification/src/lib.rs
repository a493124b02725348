//! Task and project tracking: validated domain operations over an entity
//! store, and the notification feed that announces every mutation.

pub mod api;
pub mod date;
pub mod error;
pub mod event;
pub mod fields;
pub mod gateway;
pub mod ident;
pub mod laws;
pub mod model;
pub mod project;
pub mod seqs;
pub mod status;
pub mod store;
pub mod task;
pub mod text;
