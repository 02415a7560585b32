use std::time::Instant;

use msgqueue::errors::QueueError;
use msgqueue::message::Message;
use msgqueue::queue::effective_timeout;
use msgqueue::queue::remaining_wait;
use msgqueue::queue::LockableMessageQueue;
use msgqueue::queue::MessageQueue;
use msgqueue::registry::QueueManager;

fn msg(id: &str, body: &str) -> Message {
    Message::new(id.to_owned(), body.to_owned())
}

#[test]
fn fifo_order() {
    let mut q = MessageQueue::new();
    for i in 0..5 {
        let r = q.post(msg(&format!("m{}", i), "body"));
        assert_eq!(r, Ok(()));
    }
    for i in 0..5 {
        let got = q.get(Some(5000)).unwrap().expect("a message should be pending");
        assert_eq!(got.id, format!("m{}", i));
    }
}

#[test]
fn fifo_order_through_registry() {
    let mut mgr = QueueManager::new();
    mgr.create_queue("jobs").unwrap();
    for i in 0..4 {
        mgr.post_message("jobs", msg(&format!("job{}", i), "payload")).unwrap();
    }
    for i in 0..4 {
        let got = mgr.get_message("jobs", Some(5000)).unwrap().expect("a message should be pending");
        assert_eq!(got.id, format!("job{}", i));
    }
}

#[test]
fn lockable_queue_post_then_get() {
    let mut q = LockableMessageQueue::new();
    q.post(msg("only", "one")).unwrap();
    let got = q.get(Some(0)).unwrap().expect("the posted message should come back");
    assert_eq!(got.id, "only");
    assert_eq!(got.body, "one");
}

#[test]
fn get_on_empty_never_spins_out_the_budget() {
    // One retrieval attempt reports at once; waiting between attempts is the
    // embedding's park on the queue's condition, never a spin in the core.
    let mut q = MessageQueue::new();
    let start = Instant::now();
    let r = q.get(Some(5000)).unwrap();
    let elapsed = start.elapsed().as_millis();
    assert!(r.is_none());
    assert!(elapsed < 1000, "an attempt must not consume the budget, took {}ms", elapsed);
}

#[test]
fn get_with_timeout_zero_returns_none_immediately() {
    // A budget of zero on an empty queue leaves nothing to wait: the first
    // attempt decides, the documented behavior.
    let mut q = MessageQueue::new();
    let start = Instant::now();
    let r = q.get(Some(0)).unwrap();
    let elapsed = start.elapsed().as_millis();
    assert!(r.is_none());
    assert!(elapsed < 500, "a zero timeout should not wait, took {}ms", elapsed);
    assert_eq!(remaining_wait(0, 0), 0);
}

#[test]
fn effective_timeout_applies_the_default() {
    assert_eq!(effective_timeout(None), 1000);
    assert_eq!(effective_timeout(Some(250)), 250);
    assert_eq!(effective_timeout(Some(0)), 0);
}

#[test]
fn remaining_wait_counts_down_to_the_deadline_and_stops() {
    assert_eq!(remaining_wait(0, 100), 100);
    assert_eq!(remaining_wait(40, 100), 60);
    assert_eq!(remaining_wait(99, 100), 1);
    assert_eq!(remaining_wait(100, 100), 0);
    assert_eq!(remaining_wait(150, 100), 0);
    assert_eq!(remaining_wait(0, -5), 0);
    assert_eq!(remaining_wait(u64::MAX, i64::MAX), 0);
    assert_eq!(remaining_wait(0, i64::MAX), i64::MAX);
}

#[test]
fn create_twice_leaves_one_queue_and_loses_nothing() {
    let mut mgr = QueueManager::new();
    mgr.create_queue("dup").unwrap();
    mgr.create_queue("dup").unwrap();
    mgr.post_message("dup", msg("kept", "still here")).unwrap();
    // A later creation of the same name must not shadow the queue that
    // already holds a message.
    mgr.create_queue("dup").unwrap();
    let got = mgr.get_message("dup", Some(5000)).unwrap().expect("the message should survive");
    assert_eq!(got.id, "kept");
    assert_eq!(got.body, "still here");
    let empty = mgr.get_message("dup", Some(0)).unwrap();
    assert!(empty.is_none());
}

#[test]
fn queue_exists_lifecycle() {
    let mut mgr = QueueManager::new();
    assert_eq!(mgr.queue_exists("inbox"), Ok(false));
    mgr.create_queue("inbox").unwrap();
    assert_eq!(mgr.queue_exists("inbox"), Ok(true));
    assert_eq!(mgr.queue_exists("outbox"), Ok(false));
}

#[test]
fn round_trip_id_and_body() {
    let mut mgr = QueueManager::new();
    mgr.create_queue("rt").unwrap();
    mgr.post_message("rt", msg("a", "{\"x\":1}")).unwrap();
    let got = mgr.get_message("rt", Some(5000)).unwrap().expect("the message should come back");
    assert_eq!(got.id, "a");
    assert_eq!(got.body, "{\"x\":1}");
}

#[test]
fn batch_of_thousand_messages_none_lost_none_duplicated() {
    let mut mgr = QueueManager::new();
    mgr.create_queue("bulk").unwrap();
    for producer in 0..10 {
        for n in 0..100 {
            mgr.post_message("bulk", msg(&format!("p{}-{}", producer, n), "x")).unwrap();
        }
    }
    let mut seen: Vec<String> = Vec::new();
    for _ in 0..1000 {
        let got = mgr.get_message("bulk", Some(0)).unwrap().expect("every posted message should come out");
        seen.push(got.id);
    }
    assert_eq!(seen.len(), 1000);
    let mut sorted = seen.clone();
    sorted.sort();
    sorted.dedup();
    assert_eq!(sorted.len(), 1000, "a message was delivered twice");
    let drained = mgr.get_message("bulk", Some(0)).unwrap();
    assert!(drained.is_none(), "a message was delivered that was never posted");
}

#[test]
fn get_on_unknown_queue_fails_fast() {
    let mut mgr = QueueManager::new();
    let start = Instant::now();
    let r = mgr.get_message("never-created", Some(5000));
    let elapsed = start.elapsed().as_millis();
    assert!(matches!(r, Err(QueueError::QueueNotFound)));
    assert!(elapsed < 1000, "a missing queue must not make the caller wait, took {}ms", elapsed);
}

#[test]
fn post_to_unknown_queue_fails() {
    let mut mgr = QueueManager::new();
    let r = mgr.post_message("nowhere", msg("m", "b"));
    assert_eq!(r, Err(QueueError::QueueNotFound));
}

#[test]
fn queues_are_independent() {
    let mut mgr = QueueManager::new();
    mgr.create_queue("a").unwrap();
    mgr.create_queue("b").unwrap();
    mgr.post_message("a", msg("for-a", "1")).unwrap();
    mgr.post_message("b", msg("for-b", "2")).unwrap();
    let from_b = mgr.get_message("b", Some(5000)).unwrap().expect("b should hold its message");
    assert_eq!(from_b.id, "for-b");
    let from_a = mgr.get_message("a", Some(5000)).unwrap().expect("a should hold its message");
    assert_eq!(from_a.id, "for-a");
}
