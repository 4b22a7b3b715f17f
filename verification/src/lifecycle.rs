//! The controller as a transition system over plain values.

use crate::completion::Report;
use crate::event::{BlockNumber, EnginePruneEvent, PrunerWithResult};
use std::task::Poll;
use vstd::prelude::*;

verus! {

/// Where the pruning capability is.
pub enum Lifecycle<P> {
    /// With the controller. The slot is empty only in the middle of a
    /// transition; see [`Lifecycle::settled`].
    Idle(Option<P>),
    /// With a background task. `closed` says that the task's channel was found
    /// closed with nothing sent: the task is lost, and the capability with it.
    Running { closed: bool },
}

impl<P> Lifecycle<P> {
    /// Whether the capability is with the controller; only then may anything
    /// write to the store.
    pub open spec fn is_idle(self) -> bool {
        self is Idle
    }

    /// The capability is in one of its two resting places: the idle slot or a
    /// background task.
    pub open spec fn settled(self) -> bool {
        self != Lifecycle::<P>::Idle(None)
    }
}

/// Starting a run: the state and event that follow from the answer to the tip
/// query, or no event when there is no capability at hand to start with.
pub open spec fn spawn_step<P, E>(pre: Lifecycle<P>, tip: Option<BlockNumber>) -> (
    Lifecycle<P>,
    Option<EnginePruneEvent<E>>,
) {
    match pre {
        Lifecycle::Idle(Some(pruner)) => match tip {
            Some(tip_block_number) => (
                Lifecycle::Running { closed: false },
                Some(EnginePruneEvent::Started(tip_block_number)),
            ),
            None => (pre, Some(EnginePruneEvent::NotReady)),
        },
        _ => (pre, None),
    }
}

/// The state and poll result that follow from what a live completion handle
/// reported.
pub open spec fn after_report<P, E>(report: Report<PrunerWithResult<P, E>>) -> (
    Lifecycle<P>,
    Poll<EnginePruneEvent<E>>,
) {
    match report {
        Report::Pending => (Lifecycle::Running { closed: false }, Poll::Pending),
        Report::Closed => (
            Lifecycle::Running { closed: true },
            Poll::Ready(EnginePruneEvent::TaskDropped),
        ),
        Report::Done((pruner, result)) => (
            Lifecycle::Idle(Some(pruner)),
            Poll::Ready(EnginePruneEvent::Finished { result }),
        ),
    }
}

/// Watching a run: the report while the handle is live, and nothing to see
/// otherwise, be it that the pruner is idle or that the task was lost and its
/// loss has been reported.
pub open spec fn completion_step<P, E>(
    pre: Lifecycle<P>,
    report: Report<PrunerWithResult<P, E>>,
) -> (Lifecycle<P>, Poll<EnginePruneEvent<E>>) {
    match pre {
        Lifecycle::Running { closed: false } => after_report(report),
        _ => (pre, Poll::Pending),
    }
}

/// One poll of the controller: a start attempt and, where none was made, a
/// look at the run in flight. `tip` is the answer to the tip query, read only
/// when idle; `report` is what the completion handle says, read only while a
/// run is in flight and its handle is live.
pub open spec fn tick<P, E>(
    pre: Lifecycle<P>,
    tip: Option<BlockNumber>,
    report: Report<PrunerWithResult<P, E>>,
) -> (Lifecycle<P>, Poll<EnginePruneEvent<E>>) {
    match spawn_step::<P, E>(pre, tip) {
        (post, Some(event)) => (post, Poll::Ready(event)),
        (_, None) => completion_step(pre, report),
    }
}

} // verus!
