use batch_proxy::{AppConfig, BatchItem, Batcher, Event, Next, Phase};
use std::time::{Duration, Instant};
use tokio::sync::{mpsc, oneshot};

const MS: u64 = 1_000_000;

fn config(max_batch: usize, max_wait_ms: u64) -> AppConfig {
    let mut cfg = AppConfig::default();
    cfg.max_batch_size = max_batch;
    cfg.max_wait_time = max_wait_ms;
    cfg
}

fn mk_batcher<T>(max_batch: usize, max_wait_ms: u64) -> Batcher<T> {
    Batcher::new(&config(max_batch, max_wait_ms))
}

fn nanos_since(clock: Instant) -> u64 {
    u64::try_from(clock.elapsed().as_nanos()).unwrap_or(u64::MAX)
}

fn runtime() -> tokio::runtime::Runtime {
    tokio::runtime::Builder::new_current_thread().enable_all().build().unwrap()
}

fn item(input: &str) -> BatchItem<Vec<f32>> {
    let (txr, _rxr) = oneshot::channel();
    BatchItem { input: input.to_string(), resp: txr }
}

/// Drives the accumulator on a real queue until it hands a batch off: waits
/// as each step asks, and feeds back what the wait gave.
async fn receive_batch<T>(
    batcher: &mut Batcher<T>,
    rx: &mut mpsc::Receiver<T>,
    clock: Instant,
) -> Option<Vec<T>> {
    if batcher.phase() == Phase::Stopped {
        return None;
    }
    let mut next = Next::AwaitItem;
    loop {
        let event = match next {
            Next::AwaitItemFor(nanos) => {
                match tokio::time::timeout(Duration::from_nanos(nanos), rx.recv()).await {
                    Ok(Some(item)) => Event::Received(item),
                    Ok(None) => Event::QueueClosed,
                    Err(_) => Event::TimedOut,
                }
            }
            _ => match rx.recv().await {
                Some(item) => Event::Received(item),
                None => Event::QueueClosed,
            },
        };
        let mut step = batcher.step(event, nanos_since(clock));
        if step.next == Next::Poll {
            step = batcher.pump(rx, nanos_since(clock));
        }
        if let Some(batch) = step.dispatch {
            return Some(batch);
        }
        if step.next == Next::Stop {
            return None;
        }
        next = step.next;
    }
}

#[test]
fn receive_batch_respects_size_cap() {
    runtime().block_on(async {
        let (tx, mut rx) = mpsc::channel::<BatchItem<Vec<f32>>>(64);
        for i in 0..10 {
            let (txr, _rxr) = oneshot::channel();
            tx.send(BatchItem { input: format!("i-{i}"), resp: txr }).await.unwrap();
        }

        let mut b = mk_batcher(4, 500);
        let batch = receive_batch(&mut b, &mut rx, Instant::now()).await.expect("some batch");
        assert_eq!(batch.len(), 4, "should flush exactly at max_batch_size");
    });
}

#[test]
fn receive_batch_respects_timeout() {
    runtime().block_on(async {
        let (tx, mut rx) = mpsc::channel::<BatchItem<Vec<f32>>>(64);

        let (txr, _rxr) = oneshot::channel();
        tx.send(BatchItem { input: "first".into(), resp: txr }).await.unwrap();

        let mut b = mk_batcher(8, 30);
        let t0 = Instant::now();
        let batch = receive_batch(&mut b, &mut rx, t0).await.expect("some batch");
        let waited = t0.elapsed();

        assert_eq!(batch.len(), 1, "should flush partial when deadline hits");
        assert!(waited >= Duration::from_millis(30), "should wait ~max_wait before flushing");
    });
}

#[test]
fn receive_batch_then_channel_close_returns_none_next_time() {
    runtime().block_on(async {
        let (tx, mut rx) = mpsc::channel::<BatchItem<Vec<f32>>>(4);
        let (txr, _rxr) = oneshot::channel();
        tx.send(BatchItem { input: "one".into(), resp: txr }).await.unwrap();
        drop(tx);

        let mut b = mk_batcher(4, 50);
        let clock = Instant::now();
        let _ = receive_batch(&mut b, &mut rx, clock).await.expect("first batch");
        assert!(receive_batch(&mut b, &mut rx, clock).await.is_none());
    });
}

#[test]
fn ten_items_at_once_leave_in_batches_of_four() {
    let (tx, mut rx) = mpsc::channel::<BatchItem<Vec<f32>>>(64);
    for i in 0..10 {
        tx.try_send(item(&format!("i-{i}"))).unwrap();
    }
    let mut b = mk_batcher(4, 500);

    let first = rx.try_recv().unwrap();
    let step = b.step(Event::Received(first), 0);
    assert!(step.dispatch.is_none());
    assert_eq!(step.next, Next::Poll);

    let step = b.pump(&mut rx, 0);
    let batch = step.dispatch.expect("a full batch");
    let texts: Vec<&str> = batch.iter().map(|it| it.input.as_str()).collect();
    assert_eq!(texts, vec!["i-0", "i-1", "i-2", "i-3"]);
    assert_eq!(step.next, Next::AwaitItem);
    assert_eq!(b.phase(), Phase::Idle);
    assert_eq!(b.pending(), 0);

    let step = b.pump(&mut rx, 0);
    let batch = step.dispatch.expect("a second full batch");
    let texts: Vec<&str> = batch.iter().map(|it| it.input.as_str()).collect();
    assert_eq!(texts, vec!["i-4", "i-5", "i-6", "i-7"]);

    let step = b.pump(&mut rx, 0);
    assert!(step.dispatch.is_none());
    assert_eq!(step.next, Next::AwaitItemFor(500 * MS));
    assert_eq!(b.phase(), Phase::Filling);
    assert_eq!(b.pending(), 2);
    drop(tx);
}

#[test]
fn single_item_waits_for_its_deadline() {
    let mut b: Batcher<u32> = mk_batcher(8, 30);
    let step = b.step(Event::Received(7), 1_000);
    assert!(step.dispatch.is_none());
    assert_eq!(step.next, Next::Poll);

    let step = b.step(Event::QueueEmpty, 1_000);
    assert!(step.dispatch.is_none());
    assert_eq!(step.next, Next::AwaitItemFor(30 * MS));

    let step = b.step(Event::TimedOut, 1_000 + 30 * MS);
    assert_eq!(step.dispatch, Some(vec![7]));
    assert_eq!(step.next, Next::AwaitItem);
    assert_eq!(b.phase(), Phase::Idle);
}

#[test]
fn deadline_counts_from_the_first_item() {
    let mut b: Batcher<u32> = mk_batcher(8, 30);
    b.step(Event::Received(1), 5 * MS);
    let step = b.step(Event::QueueEmpty, 5 * MS);
    assert_eq!(step.next, Next::AwaitItemFor(30 * MS));

    let step = b.step(Event::Received(2), 25 * MS);
    assert_eq!(step.next, Next::Poll);
    let step = b.step(Event::QueueEmpty, 25 * MS);
    assert!(step.dispatch.is_none());
    assert_eq!(step.next, Next::AwaitItemFor(10 * MS));

    let step = b.step(Event::Received(3), 34 * MS);
    assert_eq!(step.next, Next::Poll);
    let step = b.step(Event::QueueEmpty, 34 * MS + 999_999);
    assert_eq!(step.next, Next::AwaitItemFor(1));

    let step = b.step(Event::Received(4), 35 * MS);
    assert_eq!(step.next, Next::Poll);
    let step = b.step(Event::QueueEmpty, 35 * MS);
    assert_eq!(step.dispatch, Some(vec![1, 2, 3, 4]));
    assert_eq!(step.next, Next::AwaitItem);
}

#[test]
fn due_batch_leaves_on_empty_poll_without_waiting() {
    let mut b: Batcher<u32> = mk_batcher(8, 30);
    b.step(Event::Received(1), 0);
    let step = b.step(Event::QueueEmpty, 31 * MS);
    assert_eq!(step.dispatch, Some(vec![1]));
    assert_eq!(step.next, Next::AwaitItem);
}

#[test]
fn batch_of_one_leaves_at_once() {
    let mut b: Batcher<u32> = mk_batcher(1, 500);
    let step = b.step(Event::Received(9), 0);
    assert_eq!(step.dispatch, Some(vec![9]));
    assert_eq!(step.next, Next::AwaitItem);
    assert_eq!(b.phase(), Phase::Idle);
}

#[test]
fn size_bound_of_zero_leaves_batches_to_the_deadline() {
    let mut b: Batcher<u32> = mk_batcher(0, 10);
    let step = b.step(Event::Received(1), 0);
    assert!(step.dispatch.is_none());
    assert_eq!(step.next, Next::AwaitItemFor(10 * MS));
    let step = b.step(Event::Received(2), 4 * MS);
    assert!(step.dispatch.is_none());
    assert_eq!(step.next, Next::AwaitItemFor(6 * MS));
    let step = b.step(Event::Received(3), 10 * MS);
    assert_eq!(step.dispatch, Some(vec![1, 2, 3]));
}

#[test]
fn zero_wait_flushes_after_the_drain() {
    let mut b: Batcher<u32> = mk_batcher(4, 0);
    let step = b.step(Event::Received(1), 77);
    assert_eq!(step.next, Next::Poll);
    let step = b.step(Event::QueueEmpty, 77);
    assert_eq!(step.dispatch, Some(vec![1]));
}

#[test]
fn idle_machine_ignores_empty_polls_and_timeouts() {
    let mut b: Batcher<u32> = mk_batcher(4, 10);
    let step = b.step(Event::QueueEmpty, 0);
    assert!(step.dispatch.is_none());
    assert_eq!(step.next, Next::AwaitItem);
    let step = b.step(Event::TimedOut, 5);
    assert!(step.dispatch.is_none());
    assert_eq!(step.next, Next::AwaitItem);
    assert_eq!(b.phase(), Phase::Idle);
}

#[test]
fn closed_queue_stops_an_idle_machine() {
    let mut b: Batcher<u32> = mk_batcher(4, 10);
    let step = b.step(Event::QueueClosed, 0);
    assert!(step.dispatch.is_none());
    assert_eq!(step.next, Next::Stop);
    assert_eq!(b.phase(), Phase::Stopped);
}

#[test]
fn closed_queue_flushes_the_partial_batch_and_stops() {
    let mut b: Batcher<u32> = mk_batcher(4, 10);
    b.step(Event::Received(1), 0);
    b.step(Event::Received(2), 0);
    let step = b.step(Event::QueueClosed, 1);
    assert_eq!(step.dispatch, Some(vec![1, 2]));
    assert_eq!(step.next, Next::Stop);
    assert_eq!(b.phase(), Phase::Stopped);
    assert_eq!(b.pending(), 0);
}

#[test]
fn clock_behind_the_first_item_waits_until_the_deadline() {
    let mut b: Batcher<u32> = mk_batcher(4, 10);
    b.step(Event::Received(1), 50 * MS);
    let step = b.step(Event::QueueEmpty, 45 * MS);
    assert_eq!(step.next, Next::AwaitItemFor(15 * MS));
}

#[test]
fn longest_wait_is_held_at_the_largest_value() {
    let mut b: Batcher<u32> = mk_batcher(4, u64::MAX);
    b.step(Event::Received(1), 10);
    let step = b.step(Event::QueueEmpty, 10);
    assert_eq!(step.next, Next::AwaitItemFor(u64::MAX));
    let step = b.step(Event::QueueEmpty, 3);
    assert_eq!(step.next, Next::AwaitItemFor(u64::MAX));
    let step = b.step(Event::QueueEmpty, 20);
    assert_eq!(step.next, Next::AwaitItemFor(u64::MAX - 10));
}

#[test]
fn pump_on_a_closed_queue_flushes_what_it_took() {
    let (tx, mut rx) = mpsc::channel::<u32>(8);
    tx.try_send(1).unwrap();
    tx.try_send(2).unwrap();
    drop(tx);
    let mut b: Batcher<u32> = mk_batcher(4, 10);
    let step = b.pump(&mut rx, 0);
    assert_eq!(step.dispatch, Some(vec![1, 2]));
    assert_eq!(step.next, Next::Stop);
    assert_eq!(b.phase(), Phase::Stopped);
}

#[test]
fn pump_on_an_empty_queue_asks_for_an_item() {
    let (tx, mut rx) = mpsc::channel::<u32>(8);
    let mut b: Batcher<u32> = mk_batcher(4, 10);
    let step = b.pump(&mut rx, 0);
    assert!(step.dispatch.is_none());
    assert_eq!(step.next, Next::AwaitItem);
    assert_eq!(b.phase(), Phase::Idle);
    drop(tx);
}

#[test]
fn no_item_is_lost_over_a_run() {
    let (tx, mut rx) = mpsc::channel::<u32>(64);
    for i in 0..11 {
        tx.try_send(i).unwrap();
    }
    drop(tx);
    let mut b: Batcher<u32> = mk_batcher(3, 10);
    let mut seen: Vec<u32> = Vec::new();
    let mut sizes: Vec<usize> = Vec::new();
    while b.phase() != Phase::Stopped {
        let step = b.pump(&mut rx, 0);
        if let Some(batch) = step.dispatch {
            sizes.push(batch.len());
            seen.extend(batch);
        }
    }
    assert_eq!(seen, (0..11).collect::<Vec<u32>>());
    assert_eq!(sizes, vec![3, 3, 3, 2]);
}

#[test]
fn settings_come_from_the_configuration() {
    let mut cfg = config(16, 8);
    cfg.tei_url = "http://tei:80".to_string();
    cfg.batch_concurrency = 6;
    let b: Batcher<u32> = Batcher::new(&cfg);
    assert_eq!(b.embed_url(), "http://tei:80/embed");
    assert_eq!(b.batch_concurrency(), 6);
    assert_eq!(b.phase(), Phase::Idle);
    assert_eq!(b.pending(), 0);
}
