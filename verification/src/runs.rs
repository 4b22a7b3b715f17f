//! What holds of every sequence of polls.
//!
//! The life of a controller is described by the outside answers that its polls
//! read, one pair per poll. Each poll is one application of [`tick`] to some
//! such pair, so what is proved here of all sequences of answers holds of
//! every sequence of polls.

use crate::completion::Report;
use crate::event::{BlockNumber, EnginePruneEvent, PrunerWithResult};
use crate::lifecycle::{tick, Lifecycle};
use std::task::Poll;
use vstd::prelude::*;

verus! {

/// The outside answers that one poll reads.
pub struct Answers<P, E> {
    /// What the capability says to the tip query.
    pub tip: Option<BlockNumber>,
    /// What the completion handle says.
    pub report: Report<PrunerWithResult<P, E>>,
}

/// The state of a controller created with `pruner`, after one poll for each of
/// the first `polls` answers.
pub open spec fn state_at<P, E>(pruner: P, answers: Seq<Answers<P, E>>, polls: int) -> Lifecycle<P>
    decreases polls,
{
    if polls <= 0 {
        Lifecycle::Idle(Some(pruner))
    } else {
        tick(
            state_at(pruner, answers, polls - 1),
            answers[polls - 1].tip,
            answers[polls - 1].report,
        ).0
    }
}

/// What poll number `i`, counted from zero, returns.
pub open spec fn event_at<P, E>(pruner: P, answers: Seq<Answers<P, E>>, i: int) -> Poll<
    EnginePruneEvent<E>,
> {
    tick(state_at(pruner, answers, i), answers[i].tip, answers[i].report).1
}

/// Whether the controller is idle right after poll number `i`.
pub open spec fn idle_after<P, E>(pruner: P, answers: Seq<Answers<P, E>>, i: int) -> bool {
    state_at(pruner, answers, i + 1).is_idle()
}

/// The poll reported that a run was launched.
pub open spec fn started<E>(polled: Poll<EnginePruneEvent<E>>) -> bool {
    polled matches Poll::Ready(EnginePruneEvent::Started(_))
}

/// The poll reported that a run came to an end.
pub open spec fn finished<E>(polled: Poll<EnginePruneEvent<E>>) -> bool {
    polled matches Poll::Ready(EnginePruneEvent::Finished { .. })
}

/// The poll reported that no tip is eligible.
pub open spec fn not_ready<E>(polled: Poll<EnginePruneEvent<E>>) -> bool {
    polled == Poll::Ready(EnginePruneEvent::<E>::NotReady)
}

/// The poll reported that the background task was lost.
pub open spec fn task_dropped<E>(polled: Poll<EnginePruneEvent<E>>) -> bool {
    polled == Poll::Ready(EnginePruneEvent::<E>::TaskDropped)
}

/// The capability never rests in an empty idle slot between polls.
pub proof fn lemma_always_settled<P, E>(pruner: P, answers: Seq<Answers<P, E>>, polls: int)
    ensures
        state_at(pruner, answers, polls).settled(),
    decreases polls,
{
    if polls > 0 {
        lemma_always_settled(pruner, answers, polls - 1);
    }
}

/// Once a run is in flight the controller stays busy for as long as no poll
/// reports its end or its loss.
proof fn lemma_busy_while_no_end<P, E>(pruner: P, answers: Seq<Answers<P, E>>, i: int, j: int)
    requires
        0 <= i <= j,
        started(event_at(pruner, answers, i)),
        forall|k: int|
            i < k <= j ==> !finished(#[trigger] event_at(pruner, answers, k)) && !task_dropped(
                event_at(pruner, answers, k),
            ),
    ensures
        !idle_after(pruner, answers, j),
    decreases j - i,
{
    if i < j {
        lemma_busy_while_no_end(pruner, answers, i, j - 1);
        assert(!finished(event_at(pruner, answers, j)));
    }
}

/// A lost task is never recovered from.
proof fn lemma_closed_stays_closed<P, E>(pruner: P, answers: Seq<Answers<P, E>>, i: int, j: int)
    requires
        0 <= i <= j,
        state_at(pruner, answers, i) == (Lifecycle::<P>::Running { closed: true }),
    ensures
        state_at(pruner, answers, j) == (Lifecycle::<P>::Running { closed: true }),
    decreases j - i,
{
    if i < j {
        lemma_closed_stays_closed(pruner, answers, i, j - 1);
    }
}

/// The controller is idle when it is created and right after every poll that
/// reports `Finished` or `NotReady`. It is busy right after every poll that
/// reports `Started`, and after each poll that follows, up to the first one
/// that reports `Finished` or `TaskDropped`.
pub proof fn lemma_idle_follows_events<P, E>(pruner: P, answers: Seq<Answers<P, E>>)
    ensures
        state_at(pruner, answers, 0).is_idle(),
        forall|i: int|
            0 <= i < answers.len() && (finished(#[trigger] event_at(pruner, answers, i))
                || not_ready(event_at(pruner, answers, i))) ==> idle_after(pruner, answers, i),
        forall|i: int, j: int|
            #![trigger event_at(pruner, answers, i), idle_after(pruner, answers, j)]
            0 <= i <= j < answers.len() && started(event_at(pruner, answers, i)) && (forall|k: int|
                i < k <= j ==> !finished(#[trigger] event_at(pruner, answers, k)) && !task_dropped(
                    event_at(pruner, answers, k),
                )) ==> !idle_after(pruner, answers, j),
{
    assert forall|i: int|
        0 <= i < answers.len() && (finished(#[trigger] event_at(pruner, answers, i))
            || not_ready(event_at(pruner, answers, i))) implies idle_after(pruner, answers, i) by {
        lemma_always_settled(pruner, answers, i);
    }
    assert forall|i: int, j: int|
        #![trigger event_at(pruner, answers, i), idle_after(pruner, answers, j)]
        0 <= i <= j < answers.len() && started(event_at(pruner, answers, i)) && (forall|k: int|
            i < k <= j ==> !finished(#[trigger] event_at(pruner, answers, k)) && !task_dropped(
                event_at(pruner, answers, k),
            )) implies !idle_after(pruner, answers, j) by {
        lemma_busy_while_no_end(pruner, answers, i, j);
    }
}

/// Looks, from poll `from` on, for the poll that ends the run in flight, given
/// that a later poll `j` starts a run again.
proof fn lemma_finished_between<P, E>(pruner: P, answers: Seq<Answers<P, E>>, from: int, j: int) -> (k:
    int)
    requires
        0 <= from <= j,
        started(event_at(pruner, answers, j)),
        state_at(pruner, answers, from) == (Lifecycle::<P>::Running { closed: false }),
    ensures
        from <= k < j,
        finished(event_at(pruner, answers, k)),
    decreases j - from,
{
    if finished(event_at(pruner, answers, from)) {
        from
    } else {
        // A lost task would keep the controller busy up to poll `j`, which
        // found it idle.
        assert(!task_dropped(event_at(pruner, answers, from))) by {
            if task_dropped(event_at(pruner, answers, from)) {
                lemma_closed_stays_closed(pruner, answers, from + 1, j);
            }
        }
        lemma_finished_between(pruner, answers, from + 1, j)
    }
}

/// Between two polls that each report `Started` lies a poll that reports
/// `Finished`: runs do not overlap, and a lost task allows no further start.
pub proof fn lemma_starts_alternate<P, E>(pruner: P, answers: Seq<Answers<P, E>>, i: int, j: int)
    requires
        0 <= i < j < answers.len(),
        started(event_at(pruner, answers, i)),
        started(event_at(pruner, answers, j)),
    ensures
        exists|k: int|
            i < k < j && (finished(#[trigger] event_at(pruner, answers, k)) || task_dropped(
                event_at(pruner, answers, k),
            )),
        exists|k: int| i < k < j && finished(#[trigger] event_at(pruner, answers, k)),
{
    let k = lemma_finished_between(pruner, answers, i + 1, j);
    assert(i < k < j && finished(event_at(pruner, answers, k)));
}

/// As long as the capability names no tip, every poll reports `NotReady`,
/// none reports `Started`, and the controller stays idle with the capability
/// it was created with.
pub proof fn lemma_no_tip_stays_idle<P, E>(pruner: P, answers: Seq<Answers<P, E>>, polls: int)
    requires
        0 <= polls <= answers.len(),
        forall|i: int| 0 <= i < polls ==> (#[trigger] answers[i]).tip is None,
    ensures
        state_at(pruner, answers, polls) == Lifecycle::Idle(Some(pruner)),
        forall|i: int|
            0 <= i < polls ==> not_ready(#[trigger] event_at(pruner, answers, i)) && !started(
                event_at(pruner, answers, i),
            ) && idle_after(pruner, answers, i),
    decreases polls,
{
    if polls > 0 {
        lemma_no_tip_stays_idle(pruner, answers, polls - 1);
        assert(answers[polls - 1].tip is None);
        assert(not_ready(event_at(pruner, answers, polls - 1)));
    }
}

/// After a poll that reports `TaskDropped` the controller is never idle again.
/// The loss is reported once: every later poll is `Pending`.
pub proof fn lemma_dropped_is_final<P, E>(pruner: P, answers: Seq<Answers<P, E>>, i: int, j: int)
    requires
        0 <= i <= j < answers.len(),
        task_dropped(event_at(pruner, answers, i)),
    ensures
        !idle_after(pruner, answers, j),
        i < j ==> event_at(pruner, answers, j) is Pending,
{
    lemma_always_settled(pruner, answers, i);
    lemma_closed_stays_closed(pruner, answers, i + 1, j + 1);
    if i < j {
        lemma_closed_stays_closed(pruner, answers, i + 1, j);
    }
}

} // verus!
