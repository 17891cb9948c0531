//! The value that a state machine hands out when it applies a call.

use vstd::prelude::*;

verus! {

/// The update that applying a call to a state machine produces. A direct
/// state machine returns it; a verifiable state machine is shown one and
/// checks it. Nothing in this crate looks inside the payload.
#[derive(Clone, Debug, PartialEq, Eq)]
pub struct StateUpdate<V> {
    /// What changed, in the shape that the state machine chose.
    pub payload: V,
}

} // verus!
