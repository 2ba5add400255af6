//! The batch accumulator: a state machine that turns single submissions into
//! batches bounded in size and in the time their first item has waited.
//!
//! The machine never waits itself. Each [`Batcher::step`] takes what the last
//! operation on the submission queue gave ([`Event`]) and the time, and
//! answers with the batch to hand off, if one is complete, and the operation
//! to perform next ([`Next`]). What a step does is [`step_spec`], a function
//! on the machine's model ([`Machine`]).
//!
//! A queue found closed while a batch is filling drains that batch: the same
//! step hands it off and stops the machine.
//!
//! Time is a count of nanoseconds on a clock that does not run backwards;
//! where it starts is the caller's choice.

use crate::config::AppConfig;
use vstd::prelude::*;
use vstd::string::StringExecFns;

verus! {

/// Where the accumulator stands between two steps.
#[derive(Clone, Copy, Debug, PartialEq, Eq, Structural)]
pub enum Phase {
    /// No batch is under construction.
    Idle,
    /// A batch holds at least one item and its deadline is set.
    Filling,
    /// The submission queue was seen closed: nothing more will be done.
    Stopped,
}

/// What the last operation on the submission queue gave.
pub enum Event<T> {
    /// An item was taken from the queue.
    Received(T),
    /// A poll found the queue empty, with senders still alive.
    QueueEmpty,
    /// The queue is empty and every sender is gone.
    QueueClosed,
    /// A bounded wait for an item ran out.
    TimedOut,
}

/// The operation on the submission queue to perform next.
#[derive(Clone, Copy, Debug, PartialEq, Eq, Structural)]
pub enum Next {
    /// Wait for an item, without bound.
    AwaitItem,
    /// Take an item if one is there, without waiting.
    Poll,
    /// Wait for an item for at most this many nanoseconds.
    AwaitItemFor(u64),
    /// Nothing: the accumulator has stopped.
    Stop,
}

/// The answer of one step.
pub struct Step<T> {
    /// The batch to hand to the dispatcher, if the step completed one.
    pub dispatch: Option<Vec<T>>,
    /// The operation whose result the next step takes.
    pub next: Next,
}

/// A [`Step`] with the batch as a sequence.
pub struct StepView<T> {
    pub dispatch: Option<Seq<T>>,
    pub next: Next,
}

impl<T> View for Step<T> {
    type V = StepView<T>;

    open spec fn view(&self) -> StepView<T> {
        StepView {
            dispatch: match self.dispatch {
                Some(batch) => Some(batch@),
                None => None,
            },
            next: self.next,
        }
    }
}

/// The two bounds on a batch.
pub struct Limits {
    /// A batch is handed off when it holds this many items.
    pub max_batch_size: usize,
    /// A batch is handed off when its first item has waited this long, in
    /// nanoseconds.
    pub max_wait_time: u64,
}

/// The nanoseconds in a millisecond.
pub const NANOS_PER_MILLI: u64 = 1_000_000;

/// The accumulator as a mathematical value.
pub struct Machine<T> {
    pub phase: Phase,
    /// The items of the batch under construction, oldest first.
    pub batch: Seq<T>,
    /// When the first item of that batch arrived.
    pub started: u64,
}

impl<T> Machine<T> {
    /// A batch is under construction exactly while filling; it is then not
    /// empty and, where the size bound is not zero, below it.
    pub open spec fn wf(self, limits: Limits) -> bool {
        if self.phase is Filling {
            &&& self.batch.len() > 0
            &&& limits.max_batch_size > 0 ==> self.batch.len() < limits.max_batch_size
        } else {
            self.batch.len() == 0
        }
    }

    /// The time at which the batch under construction is due, whatever its
    /// size: `max_wait_time` after its first item.
    pub open spec fn deadline(self, limits: Limits) -> int {
        self.started + limits.max_wait_time
    }

    /// The machine with no batch under construction.
    pub open spec fn emptied(self, phase: Phase) -> Machine<T> {
        Machine { phase, batch: Seq::empty(), started: self.started }
    }

    /// The machine stopped, with no other change.
    pub open spec fn halted(self) -> Machine<T> {
        Machine { phase: Phase::Stopped, batch: self.batch, started: self.started }
    }

    /// Hands the batch under construction off and goes to `phase`, asking
    /// for `next`.
    pub open spec fn flush(self, phase: Phase, next: Next) -> (Machine<T>, StepView<T>) {
        (self.emptied(phase), StepView { dispatch: Some(self.batch), next })
    }

    /// Keeps the batch under construction and asks for `next`.
    pub open spec fn keep(self, next: Next) -> (Machine<T>, StepView<T>) {
        (self, StepView { dispatch: None, next })
    }

    /// The deadline check: hands the batch off if it is due at `now`, and
    /// otherwise asks for a wait that ends when it is due.
    pub open spec fn check_deadline(self, limits: Limits, now: u64) -> (Machine<T>, StepView<T>) {
        if now >= self.deadline(limits) {
            self.flush(Phase::Idle, Next::AwaitItem)
        } else {
            self.keep(Next::AwaitItemFor(clip(self.deadline(limits) - now)))
        }
    }

    /// Adds `item` to the batch under construction, starting one at `now`
    /// if there is none. A batch that has reached the size bound is handed
    /// off; one below it asks for a poll; one above it (the bound is zero)
    /// is left to its deadline.
    pub open spec fn take_item(self, limits: Limits, item: T, now: u64) -> (
        Machine<T>,
        StepView<T>,
    ) {
        let grown = Machine {
            phase: Phase::Filling,
            batch: self.batch.push(item),
            started: if self.phase is Filling {
                self.started
            } else {
                now
            },
        };
        if grown.batch.len() == limits.max_batch_size {
            grown.flush(Phase::Idle, Next::AwaitItem)
        } else if grown.batch.len() < limits.max_batch_size {
            grown.keep(Next::Poll)
        } else {
            grown.check_deadline(limits, now)
        }
    }

    /// The machine after `taken` has joined the batch under construction, one
    /// item at a time at time `now`, with nothing handed off on the way.
    pub open spec fn joined(self, taken: Seq<T>, now: u64) -> Machine<T> {
        if taken.len() == 0 {
            self
        } else {
            Machine {
                phase: Phase::Filling,
                batch: self.batch + taken,
                started: if self.phase is Filling {
                    self.started
                } else {
                    now
                },
            }
        }
    }
}

/// What a run of polls at time `now` comes to: the items `taken` join the
/// batch under construction, each leaving it below the size bound, and then
/// `last`, which no poll can report as a wait that ran out, decides the step.
pub open spec fn pumped<T>(
    limits: Limits,
    m: Machine<T>,
    taken: Seq<T>,
    last: Event<T>,
    now: u64,
    end: Machine<T>,
    answer: StepView<T>,
) -> bool {
    &&& !(last is TimedOut)
    &&& taken.len() > 0 ==> m.batch.len() + taken.len() < limits.max_batch_size
    &&& (end, answer) == step_spec(limits, m.joined(taken, now), last, now)
}

/// A length of time as a `u64`, held at the type's largest value.
pub open spec fn clip(ticks: int) -> u64 {
    if ticks > u64::MAX {
        u64::MAX
    } else if ticks < 0 {
        0
    } else {
        ticks as u64
    }
}

/// One step of the accumulator: the machine after `event` at time `now`, the
/// batch handed off and the operation asked for.
///
/// A stopped machine stays as it is. While idle, an item starts a batch and
/// a closed queue stops the machine. While filling, an item joins the batch,
/// an empty queue leads to the deadline check, and a wait that ran out or a
/// closed queue hands the batch off as it is; the closed queue also stops
/// the machine.
pub open spec fn step_spec<T>(limits: Limits, m: Machine<T>, event: Event<T>, now: u64) -> (
    Machine<T>,
    StepView<T>,
) {
    match m.phase {
        Phase::Stopped => m.keep(Next::Stop),
        Phase::Idle => match event {
            Event::Received(item) => m.take_item(limits, item, now),
            Event::QueueClosed => m.halted().keep(Next::Stop),
            Event::QueueEmpty => m.keep(Next::AwaitItem),
            Event::TimedOut => m.keep(Next::AwaitItem),
        },
        Phase::Filling => match event {
            Event::Received(item) => m.take_item(limits, item, now),
            Event::QueueEmpty => m.check_deadline(limits, now),
            Event::TimedOut => m.flush(Phase::Idle, Next::AwaitItem),
            Event::QueueClosed => m.flush(Phase::Stopped, Next::Stop),
        },
    }
}

/// The receiving end of the submission queue.
#[verifier::external_type_specification]
#[verifier::external_body]
#[verifier::reject_recursive_types(T)]
pub struct ExQueueReceiver<T>(tokio::sync::mpsc::Receiver<T>);

/// Calls `mpsc::Receiver::try_recv`, which takes the next item off the queue
/// without waiting. The contract claims only that the call never reports a
/// wait that ran out: what it finds depends on the senders.
#[verifier::external_body]
fn poll_queue<T>(rx: &mut tokio::sync::mpsc::Receiver<T>) -> (event: Event<T>)
    ensures
        !(event is TimedOut),
{
    match rx.try_recv() {
        Ok(item) => Event::Received(item),
        Err(tokio::sync::mpsc::error::TryRecvError::Empty) => Event::QueueEmpty,
        Err(tokio::sync::mpsc::error::TryRecvError::Disconnected) => Event::QueueClosed,
    }
}

/// The accumulator, with the settings of the dispatcher that it feeds.
pub struct Batcher<T> {
    tei_url: String,
    max_wait_time: u64,
    max_batch_size: usize,
    batch_concurrency: usize,
    phase: Phase,
    batch: Vec<T>,
    started: u64,
}

impl<T> View for Batcher<T> {
    type V = Machine<T>;

    closed spec fn view(&self) -> Machine<T> {
        Machine { phase: self.phase, batch: self.batch@, started: self.started }
    }
}

impl<T> Batcher<T> {
    /// The bounds that this accumulator holds its batches to.
    pub closed spec fn limits(&self) -> Limits {
        Limits { max_batch_size: self.max_batch_size, max_wait_time: self.max_wait_time }
    }

    /// The base URL of the downstream service.
    pub closed spec fn base_url(&self) -> Seq<char> {
        self.tei_url@
    }

    /// How many downstream calls may be in flight at once.
    pub closed spec fn concurrency(&self) -> usize {
        self.batch_concurrency
    }

    /// The accumulator's invariant: that of its model.
    pub open spec fn wf(&self) -> bool {
        self@.wf(self.limits())
    }

    /// True when the settings of `self` are those of `other`.
    pub open spec fn same_settings(&self, other: &Self) -> bool {
        &&& self.limits() == other.limits()
        &&& self.base_url() == other.base_url()
        &&& self.concurrency() == other.concurrency()
    }

    /// An idle accumulator with the settings of `cfg`. The longest wait,
    /// set in milliseconds, is held in nanoseconds, and at the largest
    /// `u64` where it is more than that.
    pub fn new(cfg: &AppConfig) -> (batcher: Self)
        ensures
            batcher.wf(),
            batcher@.phase is Idle,
            batcher.limits() == (Limits {
                max_batch_size: cfg.max_batch_size,
                max_wait_time: clip(cfg.max_wait_time * NANOS_PER_MILLI),
            }),
            batcher.base_url() == cfg.tei_url@,
            batcher.concurrency() == cfg.batch_concurrency,
    {
        let max_wait_time: u64 = if cfg.max_wait_time > u64::MAX / NANOS_PER_MILLI {
            u64::MAX
        } else {
            cfg.max_wait_time * NANOS_PER_MILLI
        };
        Batcher {
            tei_url: cfg.tei_url.clone(),
            max_wait_time,
            max_batch_size: cfg.max_batch_size,
            batch_concurrency: cfg.batch_concurrency,
            phase: Phase::Idle,
            batch: Vec::new(),
            started: 0,
        }
    }

    /// The URL that a batch is posted to: the base URL and the path `/embed`.
    pub fn embed_url(&self) -> (url: String)
        ensures
            url@ == self.base_url() + "/embed"@,
    {
        let mut url = self.tei_url.clone();
        url.append("/embed");
        url
    }

    /// Where the accumulator stands.
    pub fn phase(&self) -> (phase: Phase)
        ensures
            phase == self@.phase,
    {
        self.phase
    }

    /// How many items the batch under construction holds.
    pub fn pending(&self) -> (count: usize)
        ensures
            count == self@.batch.len(),
    {
        self.batch.len()
    }

    /// How many downstream calls may be in flight at once.
    pub fn batch_concurrency(&self) -> (permits: usize)
        ensures
            permits == self.concurrency(),
    {
        self.batch_concurrency
    }

    /// Takes the batch under construction out and leaves the machine in
    /// `phase`.
    fn flush(&mut self, phase: Phase, next: Next) -> (step: Step<T>)
        requires
            !(phase is Filling),
        ensures
            (final(self)@, step@) == old(self)@.flush(phase, next),
            final(self).same_settings(old(self)),
            final(self).wf(),
    {
        let mut batch: Vec<T> = Vec::new();
        core::mem::swap(&mut self.batch, &mut batch);
        self.phase = phase;
        Step { dispatch: Some(batch), next }
    }

    /// The deadline check on the batch under construction.
    fn check_deadline(&mut self, now: u64) -> (step: Step<T>)
        requires
            old(self)@.phase is Filling,
            old(self).wf(),
        ensures
            (final(self)@, step@) == old(self)@.check_deadline(old(self).limits(), now),
            final(self).same_settings(old(self)),
            final(self).wf(),
    {
        if now >= self.started {
            let waited: u64 = now - self.started;
            if waited >= self.max_wait_time {
                self.flush(Phase::Idle, Next::AwaitItem)
            } else {
                Step { dispatch: None, next: Next::AwaitItemFor(self.max_wait_time - waited) }
            }
        } else {
            let ahead: u64 = self.started - now;
            let left: u64 = if ahead > u64::MAX - self.max_wait_time {
                u64::MAX
            } else {
                ahead + self.max_wait_time
            };
            Step { dispatch: None, next: Next::AwaitItemFor(left) }
        }
    }

    /// One step of the accumulator: takes what the last operation on the
    /// submission queue gave, at time `now`, and answers with the batch to
    /// hand off, if one is complete, and the operation to perform next.
    ///
    /// The step is [`step_spec`] on the accumulator's model. A stopped
    /// accumulator takes no further step.
    pub fn step(&mut self, event: Event<T>, now: u64) -> (step: Step<T>)
        requires
            old(self).wf(),
            !(old(self)@.phase is Stopped),
        ensures
            (final(self)@, step@) == step_spec(old(self).limits(), old(self)@, event, now),
            final(self).same_settings(old(self)),
            final(self).wf(),
    {
        match event {
            Event::Received(item) => {
                if self.phase == Phase::Idle {
                    self.started = now;
                    self.phase = Phase::Filling;
                }
                self.batch.push(item);
                if self.batch.len() == self.max_batch_size {
                    self.flush(Phase::Idle, Next::AwaitItem)
                } else if self.batch.len() < self.max_batch_size {
                    Step { dispatch: None, next: Next::Poll }
                } else {
                    self.check_deadline(now)
                }
            },
            Event::QueueEmpty => {
                if self.phase == Phase::Filling {
                    self.check_deadline(now)
                } else {
                    Step { dispatch: None, next: Next::AwaitItem }
                }
            },
            Event::TimedOut => {
                if self.phase == Phase::Filling {
                    self.flush(Phase::Idle, Next::AwaitItem)
                } else {
                    Step { dispatch: None, next: Next::AwaitItem }
                }
            },
            Event::QueueClosed => {
                if self.phase == Phase::Filling {
                    self.flush(Phase::Stopped, Next::Stop)
                } else {
                    self.phase = Phase::Stopped;
                    Step { dispatch: None, next: Next::Stop }
                }
            },
        }
    }
    /// Drains what the submission queue holds right now: polls `rx` and
    /// steps on what each poll gives, until a step asks for something other
    /// than a poll. The answer is that last step's.
    ///
    /// Whatever the queue held, the outcome is [`pumped`] for some items
    /// taken and some last event: at most one batch is handed off, and no
    /// item taken from the queue is left out of the machine.
    pub fn pump(&mut self, rx: &mut tokio::sync::mpsc::Receiver<T>, now: u64) -> (step: Step<T>)
        requires
            old(self).wf(),
            !(old(self)@.phase is Stopped),
        ensures
            !(step@.next is Poll),
            exists|taken: Seq<T>, last: Event<T>|
                pumped(old(self).limits(), old(self)@, taken, last, now, final(self)@, step@),
            final(self).same_settings(old(self)),
            final(self).wf(),
    {
        let ghost start = self@;
        let ghost limits = self.limits();
        let ghost mut taken: Seq<T> = Seq::empty();
        loop
            invariant
                self.wf(),
                !(self@.phase is Stopped),
                self.same_settings(old(self)),
                self.limits() == limits,
                start == old(self)@,
                self@ == start.joined(taken, now),
                taken.len() > 0 ==> start.batch.len() + taken.len() < limits.max_batch_size,
            decreases
                (if self@.batch.len() < limits.max_batch_size {
                    limits.max_batch_size - self@.batch.len()
                } else {
                    0
                }),
        {
            let event = poll_queue(rx);
            let ghost before = self@;
            let step = self.step(event, now);
            match step.next {
                Next::Poll => {
                    proof {
                        let item = event->Received_0;
                        assert(start.batch + taken.push(item) =~= (start.batch + taken).push(item));
                        taken = taken.push(item);
                    }
                },
                _ => {
                    proof {
                        assert(pumped(limits, start, taken, event, now, self@, step@));
                    }
                    return step;
                },
            }
        }
    }
}

} // verus!
