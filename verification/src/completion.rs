//! The one-shot channel over which a background task returns the capability.
//!
//! What touches the channel here is taken on trust and not proved: the channel
//! types are opaque, and the two functions that reach into tokio and futures
//! promise nothing about what comes back.

use futures::FutureExt;
use std::task::{Context, Poll};
use tokio::sync::oneshot::error::RecvError;
use tokio::sync::oneshot::{Receiver, Sender};
use vstd::prelude::*;

verus! {

/// `tokio::sync::oneshot::Receiver`, carried as an opaque value.
#[verifier::external_type_specification]
#[verifier::external_body]
#[verifier::reject_recursive_types(T)]
pub struct ExReceiver<T>(Receiver<T>);

/// `tokio::sync::oneshot::Sender`, carried as an opaque value.
#[verifier::external_type_specification]
#[verifier::external_body]
#[verifier::reject_recursive_types(T)]
pub struct ExSender<T>(Sender<T>);

/// `tokio::sync::oneshot::error::RecvError`, which the receiver's `Future` impl
/// yields when the sender is gone. Opaque; named here because the impl is.
#[verifier::external_type_specification]
#[verifier::external_body]
pub struct ExRecvError(RecvError);

/// `std::task::Context`, carried as an opaque value.
#[verifier::external_type_specification]
#[verifier::external_body]
pub struct ExContext<'a>(Context<'a>);

/// `std::task::Poll`, with its two variants `Ready` and `Pending` as std
/// declares them.
#[verifier::external_type_specification]
#[verifier::reject_recursive_types(T)]
pub struct ExPoll<T>(Poll<T>);

/// The receiving half of a completion channel that has not yielded yet.
///
/// The field is private, and a handle is built in two places only: in
/// [`completion_channel`], around a fresh receiver, and in [`poll_completion`],
/// around a receiver that has just said that it is still waiting. A receiver
/// that has yielded is dropped there, so no handle ever wraps one.
#[verifier::reject_recursive_types(T)]
pub struct CompletionHandle<T> {
    receiver: Receiver<T>,
}

/// What one look at a completion handle found.
#[verifier::reject_recursive_types(T)]
pub enum Completion<T> {
    /// Nothing has arrived yet; the handle is given back for the next look.
    Pending(CompletionHandle<T>),
    /// The sending half is gone and nothing was sent.
    Closed,
    /// The value that was sent.
    Done(T),
}

/// A completion, without the handle.
pub enum Report<T> {
    /// Nothing has arrived yet.
    Pending,
    /// The sending half is gone and nothing was sent.
    Closed,
    /// The value that was sent.
    Done(T),
}

impl<T> View for Completion<T> {
    type V = Report<T>;

    open spec fn view(&self) -> Report<T> {
        match *self {
            Completion::Pending(_) => Report::Pending,
            Completion::Closed => Report::Closed,
            Completion::Done(value) => Report::Done(value),
        }
    }
}

/// Calls `tokio::sync::oneshot::channel` and wraps the receiving half, which is
/// fresh, in a handle. Nothing is claimed of the two halves.
#[verifier::external_body]
pub(crate) fn completion_channel<T>() -> (halves: (Sender<T>, CompletionHandle<T>)) {
    let (sender, receiver) = tokio::sync::oneshot::channel();
    (sender, CompletionHandle { receiver })
}

/// Calls `futures::FutureExt::poll_unpin` on the receiver, which is one call of
/// its `Future::poll`; tokio registers the waker of `cx` there when nothing has
/// arrived. Which of the three outcomes comes back depends on the sending
/// side, so nothing is claimed of it.
///
/// tokio panics if a receiver is polled again after it has yielded. That
/// cannot happen here: a handle wraps a receiver that has not yielded, and the
/// receiver is handed back only when it is still waiting.
#[verifier::external_body]
pub(crate) fn poll_completion<T>(handle: CompletionHandle<T>, cx: &mut Context<'_>) -> (found:
    Completion<T>) {
    let mut receiver = handle.receiver;
    match receiver.poll_unpin(cx) {
        Poll::Pending => Completion::Pending(CompletionHandle { receiver }),
        Poll::Ready(Ok(value)) => Completion::Done(value),
        Poll::Ready(Err(_)) => Completion::Closed,
    }
}

} // verus!
