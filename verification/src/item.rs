//! A pending request and the two ends of its outcome slot.

use crate::error::ProxyError;
use vstd::prelude::*;

verus! {

/// The writing end of an outcome slot: it takes one value, once.
#[verifier::external_type_specification]
#[verifier::external_body]
#[verifier::reject_recursive_types(T)]
pub struct ExSlotSender<T>(tokio::sync::oneshot::Sender<T>);

/// The reading end of an outcome slot.
#[verifier::external_type_specification]
#[verifier::external_body]
#[verifier::reject_recursive_types(T)]
pub struct ExSlotReceiver<T>(tokio::sync::oneshot::Receiver<T>);

/// The sending end of the submission queue.
#[verifier::external_type_specification]
#[verifier::external_body]
#[verifier::reject_recursive_types(T)]
pub struct ExQueueSender<T>(tokio::sync::mpsc::Sender<T>);

/// One caller's pending unit of work: the input and the slot into which its
/// outcome is written.
#[verifier::reject_recursive_types(T)]
pub struct BatchItem<T> {
    pub input: String,
    pub resp: tokio::sync::oneshot::Sender<Result<T, ProxyError>>,
}

/// Calls `oneshot::channel`, which makes a fresh slot and returns its two
/// ends. Nothing is claimed of them.
#[verifier::external_body]
fn open_slot<T>() -> (ends: (
    tokio::sync::oneshot::Sender<Result<T, ProxyError>>,
    tokio::sync::oneshot::Receiver<Result<T, ProxyError>>,
)) {
    tokio::sync::oneshot::channel()
}

impl<T> BatchItem<T> {
    /// A request for `input` with a fresh outcome slot, and the end of that
    /// slot on which the caller waits.
    pub fn new(input: String) -> (made: (
        BatchItem<T>,
        tokio::sync::oneshot::Receiver<Result<T, ProxyError>>,
    ))
        ensures
            made.0.input == input,
    {
        let (resp, waiter) = open_slot();
        (BatchItem { input, resp }, waiter)
    }
}

/// The caller's handle on the submission queue.
#[verifier::reject_recursive_types(T)]
pub struct BatchSender<T> {
    tx: tokio::sync::mpsc::Sender<BatchItem<T>>,
}

impl<T> BatchSender<T> {
    /// A handle that submits through `tx`.
    pub fn new(tx: tokio::sync::mpsc::Sender<BatchItem<T>>) -> (sender: Self)
        ensures
            sender.queue() == tx,
    {
        BatchSender { tx }
    }

    /// The queue end that this handle submits through.
    pub closed spec fn queue(self) -> tokio::sync::mpsc::Sender<BatchItem<T>> {
        self.tx
    }

    /// The queue end on which the caller enqueues the item.
    pub fn sender(&self) -> (tx: &tokio::sync::mpsc::Sender<BatchItem<T>>)
        ensures
            *tx == self.queue(),
    {
        &self.tx
    }

    /// Whether a request goes on after the attempt to enqueue it: a queue
    /// that did not take the item is closed, and the request fails with
    /// `BatcherUnavailable`.
    pub fn admitted(enqueued: bool) -> (go_on: Result<(), ProxyError>)
        ensures
            go_on == (if enqueued {
                Ok::<(), ProxyError>(())
            } else {
                Err::<(), ProxyError>(ProxyError::BatcherUnavailable)
            }),
    {
        if enqueued {
            Ok(())
        } else {
            Err(ProxyError::BatcherUnavailable)
        }
    }

    /// What the caller gets once its outcome slot has resolved: the outcome
    /// that was written to it, or `Receiver` where the slot was dropped
    /// unwritten.
    pub fn resolve(
        waited: Result<Result<T, ProxyError>, tokio::sync::oneshot::error::RecvError>,
    ) -> (answer: Result<T, ProxyError>)
        ensures
            answer == (match waited {
                Ok(written) => written,
                Err(_) => Err(ProxyError::Receiver),
            }),
    {
        match waited {
            Ok(written) => written,
            Err(dropped) => Err(ProxyError::from(dropped)),
        }
    }
}

} // verus!
