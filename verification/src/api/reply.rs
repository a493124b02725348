//! What a request that changes the store hands back.

use crate::event::UpdateEvent;
use vstd::prelude::*;

verus! {

/// The answer to a request that changed the store, with the events that
/// were published for it, in publishing order.
#[derive(Debug)]
pub struct Handled<T> {
    pub reply: T,
    pub published: Vec<UpdateEvent>,
}

} // verus!
