//! What a rollup's state machine must offer to consume the blocks of the
//! data-availability layer.
//!
//! There are two roles. A direct state machine applies a call and returns
//! the update. A verifiable state machine is given a call together with a
//! claimed update and accepts or rejects the claim, as the check of a
//! succinct proof would. Both are traits for a rollup to implement; this
//! crate holds no implementation.
//!
//! Each trait names, as a specification function, the predicate that its
//! contract is stated over. A verified implementation defines the predicate
//! and proves the contract; in compiled code the predicate is an ordinary
//! method that an implementation also has to supply.

use vstd::prelude::*;
use crate::errors::Error;
use crate::types::StateUpdate;

verus! {

/// A leaf of a keyed state tree.
pub trait Leaf<K> {
    /// The key under which the leaf is stored.
    spec fn key(&self) -> K;

    /// Returns the key under which the leaf is stored.
    fn get_key(&self) -> (key: K)
        ensures
            key == self.key(),
    ;
}

/// A state machine that applies calls itself.
pub trait StateMachine<V>: Sized {
    /// The parameters of a call.
    type CallParams;

    /// Whether the call is valid against this state.
    spec fn accepts(&self, call: Self::CallParams) -> bool;

    /// An empty state machine, as at genesis.
    fn new() -> Self;

    /// A state machine rebuilt from the state that was persisted. Nothing
    /// relates it to [`StateMachine::new`] but the type.
    fn load() -> Self;

    /// Applies the call and returns the update, or turns the call down
    /// because it is not valid against the current state.
    fn call(&mut self, call: Self::CallParams) -> (result: Result<StateUpdate<V>, Error>)
        ensures
            result is Ok <==> old(self).accepts(call),
    ;
}

/// A state machine that checks a claimed update instead of computing one.
pub trait ZkVMStateMachine<V>: Sized {
    /// The parameters of a call.
    type CallParams;

    /// Whether the update is what applying the call to this state gives.
    spec fn follows(&self, call: Self::CallParams, state_update: StateUpdate<V>) -> bool;

    /// An empty state machine, as at genesis.
    fn new() -> Self;

    /// Accepts the claimed update if it follows from applying the call to
    /// the current state, and rejects it otherwise. No update is returned.
    fn call(&self, call: Self::CallParams, state_update: StateUpdate<V>) -> (result: Result<
        (),
        Error,
    >)
        ensures
            result is Ok <==> self.follows(call, state_update),
    ;
}

} // verus!
