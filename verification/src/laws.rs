//! What holds of the accumulator over one step and over whole runs: the
//! bound on the size of a batch, the deadline of a batch, and what happens
//! once the submission queue is closed.
//!
//! A run is a sequence of events, each with the time at which the machine
//! takes it. The laws are stated on the machine's model, on which
//! [`Batcher::step`](crate::batcher::Batcher::step) is defined.

use crate::batcher::{step_spec, Event, Limits, Machine, Next, Phase, StepView};
use vstd::prelude::*;

verus! {

/// The machine after the events of `trace`, taken in order.
pub open spec fn run<T>(limits: Limits, m: Machine<T>, trace: Seq<(Event<T>, u64)>) -> Machine<T>
    decreases trace.len(),
{
    if trace.len() == 0 {
        m
    } else {
        step_spec(limits, run(limits, m, trace.drop_last()), trace.last().0, trace.last().1).0
    }
}

/// The answer of the machine to the last event of `trace`.
pub open spec fn last_answer<T>(limits: Limits, m: Machine<T>, trace: Seq<(Event<T>, u64)>) -> StepView<
    T,
> {
    step_spec(limits, run(limits, m, trace.drop_last()), trace.last().0, trace.last().1).1
}

/// The batches handed off during the run over `trace`, in order.
pub open spec fn handed_off<T>(limits: Limits, m: Machine<T>, trace: Seq<(Event<T>, u64)>) -> Seq<
    Seq<T>,
>
    decreases trace.len(),
{
    if trace.len() == 0 {
        Seq::empty()
    } else {
        let before = handed_off(limits, m, trace.drop_last());
        match last_answer(limits, m, trace).dispatch {
            Some(batch) => before.push(batch),
            None => before,
        }
    }
}

/// The items that the events of `trace` brought, in order.
pub open spec fn received<T>(trace: Seq<(Event<T>, u64)>) -> Seq<T>
    decreases trace.len(),
{
    if trace.len() == 0 {
        Seq::empty()
    } else {
        match trace.last().0 {
            Event::Received(item) => received(trace.drop_last()).push(item),
            _ => received(trace.drop_last()),
        }
    }
}

/// The items of `batches`, one batch after the other.
pub open spec fn concat<T>(batches: Seq<Seq<T>>) -> Seq<T>
    decreases batches.len(),
{
    if batches.len() == 0 {
        Seq::empty()
    } else {
        concat(batches.drop_last()) + batches.last()
    }
}

/// How many events at or after the deadline it takes at most until the
/// batch under construction is handed off.
pub open spec fn events_until_due<T>(limits: Limits, m: Machine<T>) -> int {
    if m.batch.len() < limits.max_batch_size {
        limits.max_batch_size - m.batch.len()
    } else {
        1
    }
}

/// A step keeps the machine's invariant.
pub proof fn step_keeps_invariant<T>(limits: Limits, m: Machine<T>, event: Event<T>, now: u64)
    requires
        m.wf(limits),
    ensures
        step_spec(limits, m, event, now).0.wf(limits),
{
}

/// A run keeps the machine's invariant.
pub proof fn run_keeps_invariant<T>(limits: Limits, m: Machine<T>, trace: Seq<(Event<T>, u64)>)
    requires
        m.wf(limits),
    ensures
        run(limits, m, trace).wf(limits),
    decreases trace.len(),
{
    if trace.len() > 0 {
        run_keeps_invariant(limits, m, trace.drop_last());
    }
}

/// A batch that is handed off is never empty, whatever the bounds.
pub proof fn handed_off_batch_is_not_empty<T>(
    limits: Limits,
    m: Machine<T>,
    event: Event<T>,
    now: u64,
)
    requires
        m.wf(limits),
    ensures
        step_spec(limits, m, event, now).1.dispatch matches Some(batch) ==> batch.len() > 0,
{
}

/// The size bound, for one step. With a size bound of at least one, a batch
/// that is handed off is not empty and holds no more than `max_batch_size`
/// items; an arriving item has its batch handed off exactly when it is the
/// one that fills it, and the batch then holds exactly `max_batch_size`
/// items; and a batch left under construction is below the bound.
pub proof fn batch_size_is_bounded<T>(limits: Limits, m: Machine<T>, event: Event<T>, now: u64)
    requires
        m.wf(limits),
        limits.max_batch_size > 0,
    ensures
        ({
            let (end, answer) = step_spec(limits, m, event, now);
            &&& answer.dispatch matches Some(batch) ==> 0 < batch.len() <= limits.max_batch_size
            &&& event is Received && !(m.phase is Stopped) ==> (answer.dispatch is Some
                <==> m.batch.len() + 1 == limits.max_batch_size)
            &&& event is Received ==> (answer.dispatch matches Some(batch) ==> batch.len()
                == limits.max_batch_size)
            &&& end.batch.len() < limits.max_batch_size
        }),
{
}

/// The size bound, for a run. With a size bound of at least one, every
/// batch handed off during a run is not empty and holds no more than
/// `max_batch_size` items.
pub proof fn every_batch_is_bounded<T>(limits: Limits, m: Machine<T>, trace: Seq<(Event<T>, u64)>)
    requires
        m.wf(limits),
        limits.max_batch_size > 0,
    ensures
        forall|i: int|
            0 <= i < handed_off(limits, m, trace).len() ==> 0 < (#[trigger] handed_off(
                limits,
                m,
                trace,
            )[i]).len() <= limits.max_batch_size,
    decreases trace.len(),
{
    if trace.len() > 0 {
        let before = trace.drop_last();
        every_batch_is_bounded(limits, m, before);
        run_keeps_invariant(limits, m, before);
        batch_size_is_bounded(limits, run(limits, m, before), trace.last().0, trace.last().1);
        let prior = handed_off(limits, m, before);
        let all = handed_off(limits, m, trace);
        assert forall|i: int| 0 <= i < all.len() implies 0 < (#[trigger] all[i]).len()
            <= limits.max_batch_size by {
            if i < prior.len() {
                assert(all[i] == prior[i]);
            }
        }
    }
}

/// The size bound under load. Where items keep arriving, so that every
/// event of a run brings one, every batch handed off holds exactly
/// `max_batch_size` items, whatever the times.
pub proof fn batches_fill_under_load<T>(limits: Limits, m: Machine<T>, trace: Seq<(Event<T>, u64)>)
    requires
        m.wf(limits),
        limits.max_batch_size > 0,
        !(m.phase is Stopped),
        forall|i: int| 0 <= i < trace.len() ==> (#[trigger] trace[i]).0 is Received,
    ensures
        !(run(limits, m, trace).phase is Stopped),
        forall|i: int|
            0 <= i < handed_off(limits, m, trace).len() ==> (#[trigger] handed_off(
                limits,
                m,
                trace,
            )[i]).len() == limits.max_batch_size,
    decreases trace.len(),
{
    if trace.len() > 0 {
        let before = trace.drop_last();
        assert(forall|i: int| 0 <= i < before.len() ==> before[i] == trace[i]);
        batches_fill_under_load(limits, m, before);
        run_keeps_invariant(limits, m, before);
        assert(trace.last() == trace[trace.len() - 1]);
        batch_size_is_bounded(limits, run(limits, m, before), trace.last().0, trace.last().1);
        let prior = handed_off(limits, m, before);
        let all = handed_off(limits, m, trace);
        assert forall|i: int| 0 <= i < all.len() implies (#[trigger] all[i]).len()
            == limits.max_batch_size by {
            if i < prior.len() {
                assert(all[i] == prior[i]);
            }
        }
    }
}

/// The deadline of a batch is set by its first item and by nothing else:
/// while the machine goes on filling, the time from which the deadline
/// counts stays what it was.
pub proof fn deadline_is_anchored<T>(limits: Limits, m: Machine<T>, event: Event<T>, now: u64)
    requires
        m.wf(limits),
        m.phase is Filling,
    ensures
        ({
            let end = step_spec(limits, m, event, now).0;
            end.phase is Filling ==> end.deadline(limits) == m.deadline(limits)
        }),
{
}

/// A bounded wait ends at the deadline: the machine asks for one only
/// before the deadline of the batch under construction, and the wait is
/// then what is left until that deadline, no longer than `max_wait_time`
/// after the batch's first item.
pub proof fn wait_ends_at_deadline<T>(limits: Limits, m: Machine<T>, event: Event<T>, now: u64)
    requires
        m.wf(limits),
        !(m.phase is Stopped),
    ensures
        ({
            let (end, answer) = step_spec(limits, m, event, now);
            answer.next matches Next::AwaitItemFor(wait) ==> {
                &&& end.phase is Filling
                &&& answer.dispatch is None
                &&& now < end.deadline(limits)
                &&& wait > 0
                &&& now + wait == end.deadline(limits) || (wait == u64::MAX && now + wait
                    < end.deadline(limits))
                &&& now >= end.started ==> wait <= limits.max_wait_time
            }
        }),
{
}

/// A batch that is due is handed off. While filling, a wait that ran out
/// hands the batch off, and so does an empty or closed queue seen at or
/// after the deadline; the batch is handed off whole.
pub proof fn due_batch_is_handed_off<T>(limits: Limits, m: Machine<T>, event: Event<T>, now: u64)
    requires
        m.wf(limits),
        m.phase is Filling,
        !(event is Received),
        event is TimedOut || event is QueueClosed || now >= m.deadline(limits),
    ensures
        step_spec(limits, m, event, now).1.dispatch == Some(m.batch),
        step_spec(limits, m, event, now).0.batch.len() == 0,
{
}

/// A batch below the size bound is handed off only when it is due: by a
/// wait that ran out, by a closed queue, or at or after its deadline.
pub proof fn partial_batch_only_when_due<T>(limits: Limits, m: Machine<T>, event: Event<T>, now: u64)
    requires
        m.wf(limits),
    ensures
        ({
            let (end, answer) = step_spec(limits, m, event, now);
            answer.dispatch matches Some(batch) ==> {
                ||| batch.len() == limits.max_batch_size
                ||| event is TimedOut
                ||| event is QueueClosed
                ||| now >= end.deadline(limits)
            }
        }),
{
}

/// While nothing is handed off at or after the deadline, every event
/// brought an item and the batch under construction grew by it.
proof fn nothing_due_means_growing<T>(limits: Limits, m: Machine<T>, trace: Seq<(Event<T>, u64)>)
    requires
        m.wf(limits),
        m.phase is Filling,
        forall|i: int| 0 <= i < trace.len() ==> (#[trigger] trace[i]).1 >= m.deadline(limits),
        handed_off(limits, m, trace).len() == 0,
    ensures
        run(limits, m, trace).phase is Filling,
        run(limits, m, trace).started == m.started,
        run(limits, m, trace).batch.len() == m.batch.len() + trace.len(),
    decreases trace.len(),
{
    if trace.len() > 0 {
        let before = trace.drop_last();
        assert(forall|i: int| 0 <= i < before.len() ==> before[i] == trace[i]);
        assert(trace.last() == trace[trace.len() - 1]);
        nothing_due_means_growing(limits, m, before);
        run_keeps_invariant(limits, m, before);
    }
}

/// The deadline bound, for a run. Once the deadline of the batch under
/// construction has come, the batch is handed off after at most as many
/// further events as it has room for items, and after one where it has no
/// room; it is handed off with the items that it held, in front.
pub proof fn due_batch_leaves_in_time<T>(limits: Limits, m: Machine<T>, trace: Seq<(Event<T>, u64)>)
    requires
        m.wf(limits),
        m.phase is Filling,
        forall|i: int| 0 <= i < trace.len() ==> (#[trigger] trace[i]).1 >= m.deadline(limits),
        trace.len() >= events_until_due(limits, m),
    ensures
        handed_off(limits, m, trace).len() > 0,
        m.batch.is_prefix_of(handed_off(limits, m, trace)[0]),
    decreases trace.len(),
{
    let before = trace.drop_last();
    assert(forall|i: int| 0 <= i < before.len() ==> before[i] == trace[i]);
    assert(trace.last() == trace[trace.len() - 1]);
    run_keeps_invariant(limits, m, before);
    if handed_off(limits, m, before).len() == 0 {
        nothing_due_means_growing(limits, m, before);
        let at = run(limits, m, before);
        assert(m.batch.is_prefix_of(at.batch)) by {
            grows_from(limits, m, before);
        }
    } else {
        first_batch_starts_with_pending(limits, m, before);
    }
}

/// While nothing is handed off, the batch under construction keeps what it
/// held, in front.
proof fn grows_from<T>(limits: Limits, m: Machine<T>, trace: Seq<(Event<T>, u64)>)
    requires
        m.wf(limits),
        m.phase is Filling,
        handed_off(limits, m, trace).len() == 0,
    ensures
        run(limits, m, trace).phase is Filling,
        m.batch.is_prefix_of(run(limits, m, trace).batch),
    decreases trace.len(),
{
    if trace.len() > 0 {
        let before = trace.drop_last();
        grows_from(limits, m, before);
        run_keeps_invariant(limits, m, before);
    }
}

/// The first batch handed off during a run starts with what the batch under
/// construction held at the start.
proof fn first_batch_starts_with_pending<T>(
    limits: Limits,
    m: Machine<T>,
    trace: Seq<(Event<T>, u64)>,
)
    requires
        m.wf(limits),
        m.phase is Filling,
        handed_off(limits, m, trace).len() > 0,
    ensures
        m.batch.is_prefix_of(handed_off(limits, m, trace)[0]),
    decreases trace.len(),
{
    let before = trace.drop_last();
    run_keeps_invariant(limits, m, before);
    if handed_off(limits, m, before).len() == 0 {
        grows_from(limits, m, before);
    } else {
        first_batch_starts_with_pending(limits, m, before);
    }
}

/// Closing the queue stops the machine in one step, with at most one last
/// batch: the batch under construction, whole, if there is one.
pub proof fn closing_stops<T>(limits: Limits, m: Machine<T>, now: u64)
    requires
        m.wf(limits),
    ensures
        ({
            let (end, answer) = step_spec(limits, m, Event::QueueClosed, now);
            &&& end.phase is Stopped
            &&& end.batch.len() == 0
            &&& answer.next is Stop
            &&& answer.dispatch == (if m.phase is Filling {
                Some(m.batch)
            } else {
                None
            })
        }),
{
}

/// A stopped machine stays stopped and hands nothing off.
pub proof fn stopped_is_final<T>(limits: Limits, m: Machine<T>, trace: Seq<(Event<T>, u64)>)
    requires
        m.phase is Stopped,
    ensures
        run(limits, m, trace) == m,
        handed_off(limits, m, trace).len() == 0,
    decreases trace.len(),
{
    if trace.len() > 0 {
        stopped_is_final(limits, m, trace.drop_last());
    }
}

/// The batches handed off up to a point of a run are handed off by the
/// whole run too, and the rest of the run starts where that part ended.
pub proof fn run_splits<T>(
    limits: Limits,
    m: Machine<T>,
    first: Seq<(Event<T>, u64)>,
    rest: Seq<(Event<T>, u64)>,
)
    ensures
        run(limits, m, first + rest) == run(limits, run(limits, m, first), rest),
        handed_off(limits, m, first + rest) == handed_off(limits, m, first) + handed_off(
            limits,
            run(limits, m, first),
            rest,
        ),
    decreases rest.len(),
{
    if rest.len() == 0 {
        assert(first + rest =~= first);
        assert(handed_off(limits, m, first) + Seq::<Seq<T>>::empty() =~= handed_off(
            limits,
            m,
            first,
        ));
    } else {
        run_splits(limits, m, first, rest.drop_last());
        assert((first + rest).drop_last() =~= first + rest.drop_last());
        assert((first + rest).last() == rest.last());
        let mid = run(limits, m, first);
        let prior = handed_off(limits, mid, rest.drop_last());
        match last_answer(limits, mid, rest).dispatch {
            Some(batch) => {
                assert((handed_off(limits, m, first) + prior).push(batch) =~= handed_off(
                    limits,
                    m,
                    first,
                ) + prior.push(batch));
            },
            None => {},
        }
    }
}

/// The shutdown bound. From the event that reports the queue closed, the
/// machine is stopped and hands off at most one batch, whatever follows.
pub proof fn one_last_batch_after_close<T>(
    limits: Limits,
    m: Machine<T>,
    trace: Seq<(Event<T>, u64)>,
    k: int,
)
    requires
        m.wf(limits),
        0 <= k < trace.len(),
        trace[k].0 is QueueClosed,
    ensures
        run(limits, m, trace).phase is Stopped,
        handed_off(limits, m, trace).len() <= handed_off(limits, m, trace.take(k)).len() + 1,
{
    let head = trace.take(k + 1);
    let tail = trace.skip(k + 1);
    assert(head + tail =~= trace);
    assert(head.drop_last() =~= trace.take(k));
    assert(head.last() == trace[k]);
    run_keeps_invariant(limits, m, trace.take(k));
    closing_stops(limits, run(limits, m, trace.take(k)), trace[k].1);
    run_splits(limits, m, head, tail);
    stopped_is_final(limits, run(limits, m, head), tail);
}

/// No item is lost. Over a run that brings no item to a stopped machine,
/// the batches handed off and the batch still under construction hold, in
/// order, what the batch held at the start and then every item received.
pub proof fn no_item_is_lost<T>(limits: Limits, m: Machine<T>, trace: Seq<(Event<T>, u64)>)
    requires
        m.wf(limits),
        forall|i: int|
            0 <= i < trace.len() && (#[trigger] trace[i]).0 is Received ==> !(run(
                limits,
                m,
                trace.take(i),
            ).phase is Stopped),
    ensures
        concat(handed_off(limits, m, trace)) + run(limits, m, trace).batch == m.batch + received(
            trace,
        ),
    decreases trace.len(),
{
    if trace.len() == 0 {
        assert(concat(handed_off(limits, m, trace)) + m.batch =~= m.batch + received(trace));
    } else {
        let before = trace.drop_last();
        let at = run(limits, m, before);
        let prior = handed_off(limits, m, before);
        assert forall|i: int| 0 <= i < before.len() && (#[trigger] before[i]).0 is Received implies !(
        run(limits, m, before.take(i)).phase is Stopped) by {
            assert(before[i] == trace[i]);
            assert(before.take(i) =~= trace.take(i));
        }
        no_item_is_lost(limits, m, before);
        run_keeps_invariant(limits, m, before);
        assert(trace.take(trace.len() - 1) =~= before);
        assert(trace.last() == trace[trace.len() - 1]);
        let (end, answer) = step_spec(limits, at, trace.last().0, trace.last().1);
        match answer.dispatch {
            Some(batch) => {
                assert(prior.push(batch).drop_last() =~= prior);
                assert(concat(prior.push(batch)) == concat(prior) + batch);
                assert(end.batch =~= Seq::<T>::empty());
                match trace.last().0 {
                    Event::Received(item) => {
                        assert(batch == at.batch.push(item));
                        assert(concat(prior) + batch + end.batch =~= (concat(prior)
                            + at.batch).push(item));
                        assert(m.batch + received(trace) =~= (m.batch + received(before)).push(
                            item,
                        ));
                    },
                    _ => {
                        assert(batch == at.batch);
                        assert(concat(prior) + batch + end.batch =~= concat(prior) + at.batch);
                    },
                }
            },
            None => {
                match trace.last().0 {
                    Event::Received(item) => {
                        assert(end.batch == at.batch.push(item));
                        assert(concat(prior) + end.batch =~= (concat(prior) + at.batch).push(
                            item,
                        ));
                        assert(m.batch + received(trace) =~= (m.batch + received(before)).push(
                            item,
                        ));
                    },
                    _ => {
                        assert(end.batch == at.batch);
                    },
                }
            },
        }
    }
}

} // verus!
