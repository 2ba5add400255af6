//! The dispatcher's decisions: what is sent downstream for a batch, and
//! which outcome each waiter of the batch receives for the answer.

use crate::error::{client_error_text, client_text, ProxyError};
use crate::item::BatchItem;
use vstd::prelude::*;

verus! {

/// What came of the attempt to send a batch downstream.
pub enum Reply<T> {
    /// No permit could be had: the admission pool is closed. No call was
    /// made.
    NoPermit,
    /// The call failed before a status arrived or while the body was read;
    /// the text is the client's.
    Failed(String),
    /// The service answered with a status outside 200..=299 and this body.
    Status { code: u16, body: String },
    /// The service answered with a success status and a body that is not a
    /// list of results.
    Malformed,
    /// The service answered with a success status and these results.
    Results(Vec<T>),
}

/// The response that is fanned out to a batch of `expected` items for
/// `reply`.
///
/// A closed admission pool is `ServiceShutdown`, a failed call `Request`
/// with the client's text, a status outside success `Upstream` with the
/// status and the body. A body of the wrong shape breaks the protocol as a
/// wrong number of results does: it is `CountMismatch` with no result got.
/// Results are handed on as they are; whether they are as many as the items
/// is for [`outcome_at`].
pub open spec fn response_spec<T>(reply: Reply<T>, expected: usize) -> Result<Vec<T>, ProxyError> {
    match reply {
        Reply::NoPermit => Err(ProxyError::ServiceShutdown),
        Reply::Failed(text) => Err(ProxyError::Request(text)),
        Reply::Status { code, body } => Err(ProxyError::Upstream { code, body }),
        Reply::Malformed => Err(ProxyError::CountMismatch { expected, got: 0 }),
        Reply::Results(results) => Ok(results),
    }
}

/// The reply that stands before any call is made: without a permit the
/// batch is answered at once, and with one nothing is decided yet.
pub fn early_reply<T>(permit_acquired: bool) -> (early: Option<Reply<T>>)
    ensures
        early == (if permit_acquired {
            None::<Reply<T>>
        } else {
            Some(Reply::<T>::NoPermit)
        }),
{
    if permit_acquired {
        None
    } else {
        Some(Reply::NoPermit)
    }
}

impl<T> Reply<T> {
    /// The reply for a call that the HTTP client failed: `Failed`, with the
    /// client's text for the failure.
    pub fn failed(e: reqwest::Error) -> (reply: Reply<T>)
        ensures
            reply matches Reply::Failed(text) && text@ == client_text(e),
    {
        Reply::Failed(client_error_text(&e))
    }
}

/// The response that is fanned out to a batch of `expected` items for
/// `reply`.
pub fn response_of<T>(reply: Reply<T>, expected: usize) -> (response: Result<Vec<T>, ProxyError>)
    ensures
        response == response_spec(reply, expected),
{
    match reply {
        Reply::NoPermit => Err(ProxyError::ServiceShutdown),
        Reply::Failed(text) => Err(ProxyError::Request(text)),
        Reply::Status { code, body } => Err(ProxyError::Upstream { code, body }),
        Reply::Malformed => Err(ProxyError::CountMismatch { expected, got: 0 }),
        Reply::Results(results) => Ok(results),
    }
}

/// One outcome on its way to the waiter it belongs to.
#[verifier::reject_recursive_types(T)]
pub struct Delivery<T> {
    /// The request that the outcome answers.
    pub item: BatchItem<T>,
    /// What is written to the request's outcome slot.
    pub outcome: Result<T, ProxyError>,
}

/// The outcome for the item at position `i` of a batch of `expected` items,
/// given the downstream `response`.
///
/// A response with one result per item gives each item the result at its own
/// position. A response of any other length gives every item the same
/// `CountMismatch`, and a failure gives every item that failure.
pub open spec fn outcome_at<T>(
    expected: usize,
    response: Result<Vec<T>, ProxyError>,
    i: int,
) -> Result<T, ProxyError> {
    match response {
        Ok(results) => if results.len() == expected {
            Ok(results@[i])
        } else {
            Err(ProxyError::CountMismatch { expected, got: results.len() })
        },
        Err(failure) => Err(failure),
    }
}

/// True when `deliveries` answers `batch`, position by position, with the
/// outcomes that `response` gives.
pub open spec fn answers<T>(
    deliveries: Seq<Delivery<T>>,
    batch: Seq<BatchItem<T>>,
    response: Result<Vec<T>, ProxyError>,
) -> bool {
    &&& deliveries.len() == batch.len()
    &&& forall|i: int|
        0 <= i < batch.len() ==> {
            &&& (#[trigger] deliveries[i]).item == batch[i]
            &&& deliveries[i].outcome == outcome_at(batch.len() as usize, response, i)
        }
}

/// True when the downstream service answered with a success status.
pub fn is_success(code: u16) -> (yes: bool)
    ensures
        yes == crate::error::is_success_code(code),
{
    200 <= code && code < 300
}

/// The items of `v` in the opposite order.
fn reversed<T>(v: Vec<T>) -> (out: Vec<T>)
    ensures
        out@ == v@.reverse(),
{
    let mut v = v;
    let ghost whole = v@;
    let mut out: Vec<T> = Vec::new();
    while v.len() > 0
        invariant
            v@.len() + out@.len() == whole.len(),
            v@ == whole.take(v@.len() as int),
            forall|j: int| 0 <= j < out@.len() ==> out@[j] == whole[whole.len() - 1 - j],
        decreases v@.len(),
    {
        let last = v.pop().unwrap();
        out.push(last);
    }
    assert(out@ =~= whole.reverse());
    out
}

/// Pairs every item of `batch` with its outcome for `response`, in the
/// order of the batch.
pub fn plan<T>(batch: Vec<BatchItem<T>>, response: Result<Vec<T>, ProxyError>) -> (deliveries: Vec<
    Delivery<T>,
>)
    ensures
        answers(deliveries@, batch@, response),
{
    let expected = batch.len();
    let mut deliveries: Vec<Delivery<T>> = Vec::new();
    match response {
        Ok(results) => {
            if results.len() == expected {
                let mut rest = reversed(results);
                for item in items: batch.into_iter()
                    invariant
                        items.seq() == batch@,
                        deliveries@.len() == items.index(),
                        batch@.len() == expected,
                        results@.len() == expected,
                        rest@.len() + items.index() == expected,
                        rest@ == results@.reverse().take(rest@.len() as int),
                        forall|j: int|
                            0 <= j < deliveries@.len() ==> {
                                &&& (#[trigger] deliveries@[j]).item == batch@[j]
                                &&& deliveries@[j].outcome == Ok::<T, ProxyError>(results@[j])
                            },
                {
                    let result = rest.pop().unwrap();
                    deliveries.push(Delivery { item, outcome: Ok(result) });
                }
            } else {
                let got = results.len();
                for item in items: batch.into_iter()
                    invariant
                        items.seq() == batch@,
                        deliveries@.len() == items.index(),
                        forall|j: int|
                            0 <= j < deliveries@.len() ==> {
                                &&& (#[trigger] deliveries@[j]).item == batch@[j]
                                &&& deliveries@[j].outcome == Err::<T, ProxyError>(
                                    ProxyError::CountMismatch { expected, got },
                                )
                            },
                {
                    let mismatch = ProxyError::CountMismatch { expected, got };
                    deliveries.push(Delivery { item, outcome: Err(mismatch) });
                }
            }
        },
        Err(failure) => {
            for item in items: batch.into_iter()
                invariant
                    items.seq() == batch@,
                    deliveries@.len() == items.index(),
                    forall|j: int|
                        0 <= j < deliveries@.len() ==> {
                            &&& (#[trigger] deliveries@[j]).item == batch@[j]
                            &&& deliveries@[j].outcome == Err::<T, ProxyError>(failure)
                        },
            {
                deliveries.push(Delivery { item, outcome: Err(failure.clone()) });
            }
        },
    }
    deliveries
}

/// Calls `oneshot::Sender::send`, which writes `outcome` to the slot and
/// fails when the reading end is gone. The contract claims what that
/// function's source shows: on failure it hands back the value it was given.
#[verifier::external_body]
fn write_slot<T>(
    slot: tokio::sync::oneshot::Sender<Result<T, ProxyError>>,
    outcome: Result<T, ProxyError>,
) -> (refused: Option<Result<T, ProxyError>>)
    ensures
        refused matches Some(back) ==> back == outcome,
{
    match slot.send(outcome) {
        Ok(()) => None,
        Err(back) => Some(back),
    }
}

impl<T> Delivery<T> {
    /// Writes the outcome to the slot of its request. A waiter that is gone
    /// cannot take it: the outcome then comes back.
    pub fn complete(self) -> (refused: Option<Result<T, ProxyError>>)
        ensures
            refused matches Some(back) ==> back == self.outcome,
    {
        write_slot(self.item.resp, self.outcome)
    }
}

/// Writes every outcome of `deliveries` to its slot, in order. The result
/// holds, at each position, the outcome that came back because its waiter
/// was gone.
pub fn complete_all<T>(deliveries: Vec<Delivery<T>>) -> (refused: Vec<Option<Result<T, ProxyError>>>)
    ensures
        refused@.len() == deliveries@.len(),
        forall|i: int|
            0 <= i < refused@.len() ==> (#[trigger] refused@[i] matches Some(back)
                ==> back == deliveries@[i].outcome),
{
    let mut refused: Vec<Option<Result<T, ProxyError>>> = Vec::new();
    for delivery in all: deliveries.into_iter()
        invariant
            all.seq() == deliveries@,
            refused@.len() == all.index(),
            forall|i: int|
                0 <= i < refused@.len() ==> (#[trigger] refused@[i] matches Some(back)
                    ==> back == deliveries@[i].outcome),
    {
        let back = delivery.complete();
        refused.push(back);
    }
    refused
}

/// Delivers the downstream `response` to the waiters of `batch`: every item
/// gets the outcome that [`outcome_at`] gives for its position, written to
/// its own slot, in the order of the batch.
///
/// The result holds, at each position, the outcome that came back because
/// the waiter was gone; such an outcome is the one that was meant for that
/// position.
pub fn deliver<T>(batch: Vec<BatchItem<T>>, response: Result<Vec<T>, ProxyError>) -> (refused: Vec<
    Option<Result<T, ProxyError>>,
>)
    ensures
        refused@.len() == batch@.len(),
        forall|i: int|
            0 <= i < refused@.len() ==> (#[trigger] refused@[i] matches Some(back) ==> back
                == outcome_at(batch@.len() as usize, response, i)),
{
    let deliveries = plan(batch, response);
    complete_all(deliveries)
}

/// Answers the waiters of `batch` for what came of sending it: every item
/// gets the outcome that [`outcome_at`] gives its position for the response
/// that `reply` stands for.
///
/// The result holds, at each position, the outcome that came back because
/// the waiter was gone; such an outcome is the one that was meant for that
/// position.
pub fn settle<T>(batch: Vec<BatchItem<T>>, reply: Reply<T>) -> (refused: Vec<
    Option<Result<T, ProxyError>>,
>)
    ensures
        refused@.len() == batch@.len(),
        forall|i: int|
            0 <= i < refused@.len() ==> (#[trigger] refused@[i] matches Some(back) ==> back
                == outcome_at(
                batch@.len() as usize,
                response_spec(reply, batch@.len() as usize),
                i,
            )),
{
    let expected = batch.len();
    let response = response_of(reply, expected);
    deliver(batch, response)
}

/// The inputs of `batch`, in its order: what the downstream call carries.
pub fn inputs<'a, T>(batch: &'a Vec<BatchItem<T>>) -> (texts: Vec<&'a str>)
    ensures
        texts@.len() == batch@.len(),
        forall|i: int| 0 <= i < texts@.len() ==> (#[trigger] texts@[i])@ == batch@[i].input@,
{
    let mut texts: Vec<&'a str> = Vec::new();
    let mut i: usize = 0;
    while i < batch.len()
        invariant
            i <= batch@.len(),
            texts@.len() == i,
            forall|j: int| 0 <= j < texts@.len() ==> (#[trigger] texts@[j])@ == batch@[j].input@,
        decreases batch@.len() - i,
    {
        texts.push(batch[i].input.as_str());
        i = i + 1;
    }
    texts
}

/// Results keep their position: for a response with one result per item,
/// the result at position `i` goes to the item at position `i`, for every
/// `i`, and so to the caller whose input stands at that position.
pub proof fn results_keep_their_position<T>(
    deliveries: Seq<Delivery<T>>,
    batch: Seq<BatchItem<T>>,
    results: Vec<T>,
)
    requires
        answers(deliveries, batch, Ok(results)),
        batch.len() <= usize::MAX,
        results@.len() == batch.len(),
    ensures
        deliveries.len() == batch.len(),
        forall|i: int|
            0 <= i < batch.len() ==> {
                &&& (#[trigger] deliveries[i]).item == batch[i]
                &&& deliveries[i].item.input == batch[i].input
                &&& deliveries[i].outcome == Ok::<T, ProxyError>(results@[i])
            },
{
}

/// A response of the wrong length reaches everyone as such: every item of
/// the batch gets `CountMismatch` with the batch's size and the response's,
/// and none gets a result.
pub proof fn mismatch_reaches_everyone<T>(
    deliveries: Seq<Delivery<T>>,
    batch: Seq<BatchItem<T>>,
    results: Vec<T>,
)
    requires
        answers(deliveries, batch, Ok(results)),
        batch.len() <= usize::MAX,
        results@.len() != batch.len(),
    ensures
        deliveries.len() == batch.len(),
        forall|i: int|
            0 <= i < batch.len() ==> {
                &&& (#[trigger] deliveries[i]).item == batch[i]
                &&& deliveries[i].outcome == Err::<T, ProxyError>(
                    ProxyError::CountMismatch {
                        expected: batch.len() as usize,
                        got: results@.len() as usize,
                    },
                )
            },
{
}

/// A failure reaches everyone: for a downstream call that failed, there is
/// exactly one delivery for each item of the batch, and each carries that
/// failure.
pub proof fn failure_reaches_everyone<T>(
    deliveries: Seq<Delivery<T>>,
    batch: Seq<BatchItem<T>>,
    failure: ProxyError,
)
    requires
        answers(deliveries, batch, Err(failure)),
    ensures
        deliveries.len() == batch.len(),
        forall|i: int|
            0 <= i < batch.len() ==> {
                &&& (#[trigger] deliveries[i]).item == batch[i]
                &&& deliveries[i].outcome == Err::<T, ProxyError>(failure)
            },
{
}

/// A closed admission pool fails everyone: every item of the batch gets
/// `ServiceShutdown`, and the reply stands without a call.
pub proof fn closed_pool_fails_everyone<T>(deliveries: Seq<Delivery<T>>, batch: Seq<BatchItem<T>>)
    requires
        batch.len() <= usize::MAX,
        answers(deliveries, batch, response_spec(Reply::NoPermit, batch.len() as usize)),
    ensures
        deliveries.len() == batch.len(),
        forall|i: int|
            0 <= i < batch.len() ==> {
                &&& (#[trigger] deliveries[i]).item == batch[i]
                &&& deliveries[i].outcome == Err::<T, ProxyError>(ProxyError::ServiceShutdown)
            },
{
}

/// A body of the wrong shape is a mismatch for everyone: every item of the
/// batch gets `CountMismatch` with the batch's size, and none gets a result.
pub proof fn malformed_body_fails_everyone<T>(
    deliveries: Seq<Delivery<T>>,
    batch: Seq<BatchItem<T>>,
)
    requires
        batch.len() <= usize::MAX,
        answers(deliveries, batch, response_spec(Reply::Malformed, batch.len() as usize)),
    ensures
        deliveries.len() == batch.len(),
        forall|i: int|
            0 <= i < batch.len() ==> {
                &&& (#[trigger] deliveries[i]).item == batch[i]
                &&& deliveries[i].outcome == Err::<T, ProxyError>(
                    ProxyError::CountMismatch { expected: batch.len() as usize, got: 0 },
                )
            },
{
}

} // verus!
