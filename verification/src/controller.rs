//! The controller that an engine loop polls once per tick.

use crate::completion::{completion_channel, poll_completion, Report};
use crate::event::{BlockNumber, EnginePruneEvent, PrunerWithResult};
use crate::lifecycle::{completion_step, spawn_step, tick, Lifecycle};
use crate::state::PrunerState;
use std::task::{Context, Poll};
use tokio::sync::oneshot::Sender;
use vstd::prelude::*;

verus! {

/// A prune run that is ready to be handed to a background task.
///
/// Whoever receives it runs the capability to the tip and sends the capability
/// back, with the run's result, over `completion`. Dropping the task without
/// sending is seen by the controller as a lost task.
#[verifier::reject_recursive_types(P)]
#[verifier::reject_recursive_types(E)]
pub struct PruneTask<P, E> {
    /// The capability, on loan until the run is over.
    pub pruner: P,
    /// The tip to prune to.
    pub tip_block_number: BlockNumber,
    /// Where the capability and the result of the run go.
    pub completion: Sender<PrunerWithResult<P, E>>,
}

/// A task is handed out exactly when a run starts, and then it carries the
/// capability that was idle and the tip that was found.
pub open spec fn launches<P, E>(
    pre: Lifecycle<P>,
    tip: Option<BlockNumber>,
    task: Option<PruneTask<P, E>>,
) -> bool {
    match (pre, tip) {
        (Lifecycle::Idle(Some(pruner)), Some(tip_block_number)) => {
            &&& task matches Some(launched)
            &&& launched.pruner == pruner
            &&& launched.tip_block_number == tip_block_number
        },
        _ => task is None,
    }
}

/// The event of a start attempt, if it made one.
pub open spec fn spawned_event<P, E>(
    spawned: Option<(EnginePruneEvent<E>, Option<PruneTask<P, E>>)>,
) -> Option<EnginePruneEvent<E>> {
    match spawned {
        Some((event, _)) => Some(event),
        None => None,
    }
}

/// The task of a start attempt, if it launched one.
pub open spec fn spawned_task<P, E>(
    spawned: Option<(EnginePruneEvent<E>, Option<PruneTask<P, E>>)>,
) -> Option<PruneTask<P, E>> {
    match spawned {
        Some((_, task)) => task,
        None => None,
    }
}

/// Manages pruning under the control of the engine.
#[verifier::reject_recursive_types(P)]
#[verifier::reject_recursive_types(E)]
pub struct EnginePruneController<P, E> {
    /// The current state of the pruner.
    pruner_state: PrunerState<P, E>,
}

impl<P, E> View for EnginePruneController<P, E> {
    type V = Lifecycle<P>;

    closed spec fn view(&self) -> Lifecycle<P> {
        self.pruner_state@
    }
}

impl<P, E> EnginePruneController<P, E> {
    /// Creates a controller that holds the capability, idle.
    pub fn new(pruner: P) -> (controller: Self)
        ensures
            controller@ == Lifecycle::Idle(Some(pruner)),
    {
        Self { pruner_state: PrunerState::Idle(Some(pruner)) }
    }

    /// Returns `true` if the pruner is idle.
    pub fn is_pruner_idle(&self) -> (idle: bool)
        ensures
            idle == self@.is_idle(),
    {
        self.pruner_state.is_idle()
    }

    /// Looks at the run in flight, if there is one, without blocking.
    ///
    /// A live handle is polled once, which registers the waker of `cx` when the
    /// task has not reported yet. The loss of a task is reported by the look
    /// that finds it. While the pruner is idle, and after a loss, there is
    /// nothing to look at and the answer is `Pending`.
    pub fn poll_pruner(&mut self, cx: &mut Context<'_>) -> (polled: Poll<EnginePruneEvent<E>>)
        ensures
            exists|report: Report<PrunerWithResult<P, E>>|
                (final(self)@, polled) == #[trigger] completion_step(old(self)@, report),
    {
        let handle = match &mut self.pruner_state {
            PrunerState::Idle(_) => None,
            PrunerState::Running(slot) => slot.take(),
        };
        match handle {
            None => {
                proof {
                    assert((self@, Poll::<EnginePruneEvent<E>>::Pending) == completion_step::<P, E>(
                        old(self)@,
                        Report::Pending,
                    ));
                }
                Poll::Pending
            },
            Some(handle) => {
                let found = poll_completion(handle, cx);
                let ghost report = found@;
                let (next, polled) = PrunerState::resolve(found);
                self.pruner_state = next;
                proof {
                    assert((self@, polled) == completion_step(old(self)@, report));
                }
                polled
            },
        }
    }

    /// Starts a run if the pruner is idle and `tip` names a block to prune to.
    ///
    /// `tip` is the capability's answer to the tip query of this tick. With a
    /// tip, the capability leaves the controller inside the returned task and
    /// the controller keeps the receiving half of a fresh completion channel.
    /// Without one, the capability stays where it is. Returns `None`, and
    /// changes nothing, if a run is in flight or the slot is empty.
    pub fn try_spawn_pruner(&mut self, tip: Option<BlockNumber>) -> (spawned: Option<
        (EnginePruneEvent<E>, Option<PruneTask<P, E>>),
    >)
        ensures
            (final(self)@, spawned_event(spawned)) == spawn_step::<P, E>(old(self)@, tip),
            launches(old(self)@, tip, spawned_task(spawned)),
    {
        match &mut self.pruner_state {
            PrunerState::Idle(slot) => {
                let pruner = match slot.take() {
                    Some(pruner) => pruner,
                    None => {
                        return None;
                    },
                };
                match tip {
                    Some(tip_block_number) => {
                        let (completion, handle) = completion_channel();
                        self.pruner_state = PrunerState::Running(Some(handle));
                        let task = PruneTask { pruner, tip_block_number, completion };
                        Some((EnginePruneEvent::Started(tip_block_number), Some(task)))
                    },
                    None => {
                        self.pruner_state = PrunerState::Idle(Some(pruner));
                        Some((EnginePruneEvent::NotReady, None))
                    },
                }
            },
            PrunerState::Running(_) => None,
        }
    }

    /// Advances the prune process by one tick, without blocking.
    ///
    /// `tip` is the capability's answer to the tip query of this tick; it is
    /// read only if the pruner is idle. A returned task is to be run in the
    /// background as a critical, blocking unit of work.
    pub fn poll(&mut self, cx: &mut Context<'_>, tip: Option<BlockNumber>) -> (out: (
        Poll<EnginePruneEvent<E>>,
        Option<PruneTask<P, E>>,
    ))
        requires
            old(self)@.settled(),
        ensures
            final(self)@.settled(),
            exists|report: Report<PrunerWithResult<P, E>>|
                (final(self)@, out.0) == #[trigger] tick(old(self)@, tip, report),
            launches(old(self)@, tip, out.1),
    {
        // Try to start a run
        if let Some((event, task)) = self.try_spawn_pruner(tip) {
            proof {
                assert((self@, Poll::Ready(event)) == tick::<P, E>(
                    old(self)@,
                    tip,
                    Report::Pending,
                ));
            }
            return (Poll::Ready(event), task);
        }
        // No attempt was made, so a run is in flight: the first look at it
        // settles this poll, and the loop takes no second turn.
        loop
            invariant
                self@ == old(self)@,
                self@ is Running,
            decreases 0int,
        {
            let polled = self.poll_pruner(cx);
            proof {
                let report = choose|report: Report<PrunerWithResult<P, E>>|
                    (self@, polled) == #[trigger] completion_step(old(self)@, report);
                assert((self@, polled) == tick(old(self)@, tip, report));
            }
            if let Poll::Ready(event) = polled {
                return (Poll::Ready(event), None);
            }
            if !self.pruner_state.is_idle() {
                // Can not make any progress
                return (Poll::Pending, None);
            }
        }
    }

    /// The idle capability, for asking it whether a tip is eligible.
    pub fn idle_pruner_mut(&mut self) -> (pruner: Option<&mut P>)
        ensures
            match pruner {
                Some(idle) => {
                    &&& old(self)@ == Lifecycle::Idle(Some(*idle))
                    &&& final(self)@ == Lifecycle::Idle(Some(*final(idle)))
                },
                None => {
                    &&& !(old(self)@ matches Lifecycle::Idle(Some(_)))
                    &&& final(self)@ == old(self)@
                },
            },
    {
        match &mut self.pruner_state {
            PrunerState::Idle(Some(pruner)) => Some(pruner),
            _ => None,
        }
    }
}

} // verus!
