//! What the controller reports to the engine.

use vstd::prelude::*;

verus! {

/// A position in the chain.
pub type BlockNumber = u64;

/// What a finished prune run hands back: the capability, and how the run ended.
pub type PrunerWithResult<P, E> = (P, Result<(), E>);

/// The outcome of one poll of the controller.
#[derive(Debug, PartialEq, Eq)]
pub enum EnginePruneEvent<E> {
    /// No tip is eligible for pruning yet.
    NotReady,
    /// A run was launched against this tip.
    Started(BlockNumber),
    /// The latest run came to an end; the controller is idle again.
    Finished {
        /// How the run ended.
        result: Result<(), E>,
    },
    /// The background task went away without reporting, as after a panic.
    TaskDropped,
}

} // verus!
