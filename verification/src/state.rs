//! The two lifecycle states as the controller holds them.

use crate::completion::{Completion, CompletionHandle};
use crate::event::{EnginePruneEvent, PrunerWithResult};
use crate::lifecycle::{after_report, Lifecycle};
use std::task::Poll;
use vstd::prelude::*;

verus! {

/// The state of the pruner within the controller.
///
/// The two states differ in what they hold: `Idle` owns the capability,
/// `Running` owns only the handle through which it will come back. While a run
/// holds the store's write lock there is thus no capability to reach for.
#[verifier::reject_recursive_types(P)]
#[verifier::reject_recursive_types(E)]
pub enum PrunerState<P, E> {
    /// The pruner is idle.
    Idle(Option<P>),
    /// The pruner is running and the handle waits for its response. The handle
    /// is gone once the channel was found closed with nothing sent.
    Running(Option<CompletionHandle<PrunerWithResult<P, E>>>),
}

impl<P, E> View for PrunerState<P, E> {
    type V = Lifecycle<P>;

    open spec fn view(&self) -> Lifecycle<P> {
        match *self {
            PrunerState::Idle(slot) => Lifecycle::Idle(slot),
            PrunerState::Running(handle) => Lifecycle::Running { closed: handle is None },
        }
    }
}

impl<P, E> PrunerState<P, E> {
    /// Returns `true` if the state is idle.
    pub fn is_idle(&self) -> (idle: bool)
        ensures
            idle == self@.is_idle(),
    {
        matches!(self, PrunerState::Idle(_))
    }

    /// The state that follows a look at a live completion handle, and what the
    /// poll returns for it.
    pub fn resolve(found: Completion<PrunerWithResult<P, E>>) -> (next: (
        Self,
        Poll<EnginePruneEvent<E>>,
    ))
        ensures
            (next.0@, next.1) == after_report::<P, E>(found@),
    {
        match found {
            Completion::Pending(handle) => (PrunerState::Running(Some(handle)), Poll::Pending),
            Completion::Closed => (
                PrunerState::Running(None),
                Poll::Ready(EnginePruneEvent::TaskDropped),
            ),
            Completion::Done((pruner, result)) => (
                PrunerState::Idle(Some(pruner)),
                Poll::Ready(EnginePruneEvent::Finished { result }),
            ),
        }
    }
}

} // verus!
