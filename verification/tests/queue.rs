use crm::content::ContentSet;
use crm::message::{compose, OutboundMessage, RecipientRecord};
use crm::queue::{Dequeued, DispatchQueue, Enqueued, DEFAULT_CAPACITY, MAX_CAPACITY};

fn msg(email: &str) -> OutboundMessage {
    compose(
        RecipientRecord { email: email.to_string(), name: String::new() },
        &ContentSet::empty(),
        "Recall",
        "noreply@crm",
    )
}

#[test]
fn default_capacity_is_1024() {
    assert_eq!(DEFAULT_CAPACITY, 1024);
    assert_eq!(MAX_CAPACITY, usize::MAX >> 3);
}

#[test]
fn no_queue_of_capacity_zero() {
    assert!(DispatchQueue::bounded(0).is_none());
}

#[test]
fn no_queue_above_the_largest_capacity() {
    assert!(DispatchQueue::bounded(MAX_CAPACITY + 1).is_none());
    assert!(DispatchQueue::bounded(usize::MAX).is_none());
}

#[test]
fn queue_of_the_largest_capacity_exists() {
    let queue = DispatchQueue::bounded(MAX_CAPACITY).unwrap();
    assert_eq!(queue.capacity(), MAX_CAPACITY);
}

#[test]
fn new_queue_is_empty_and_pending() {
    let mut queue = DispatchQueue::bounded(4).unwrap();
    assert_eq!(queue.capacity(), 4);
    assert_eq!(queue.dequeue(), Dequeued::Pending);
}

#[test]
fn queue_is_first_in_first_out() {
    let mut queue = DispatchQueue::bounded(3).unwrap();
    assert_eq!(queue.enqueue(msg("a")), Enqueued::Accepted);
    assert_eq!(queue.enqueue(msg("b")), Enqueued::Accepted);
    assert_eq!(queue.enqueue(msg("c")), Enqueued::Accepted);
    assert_eq!(queue.dequeue(), Dequeued::Item(msg("a")));
    assert_eq!(queue.dequeue(), Dequeued::Item(msg("b")));
    assert_eq!(queue.dequeue(), Dequeued::Item(msg("c")));
    assert_eq!(queue.dequeue(), Dequeued::Pending);
}

#[test]
fn full_queue_hands_the_message_back() {
    let mut queue = DispatchQueue::bounded(2).unwrap();
    assert_eq!(queue.enqueue(msg("a")), Enqueued::Accepted);
    assert_eq!(queue.enqueue(msg("b")), Enqueued::Accepted);
    assert_eq!(queue.enqueue(msg("c")), Enqueued::Full(msg("c")));
    assert_eq!(queue.enqueue(msg("c")), Enqueued::Full(msg("c")));
    assert_eq!(queue.dequeue(), Dequeued::Item(msg("a")));
    assert_eq!(queue.dequeue(), Dequeued::Item(msg("b")));
    assert_eq!(queue.dequeue(), Dequeued::Pending);
}

#[test]
fn second_message_waits_until_first_is_taken() {
    let mut queue = DispatchQueue::bounded(1).unwrap();
    assert_eq!(queue.enqueue(msg("first")), Enqueued::Accepted);
    let held = match queue.enqueue(msg("second")) {
        Enqueued::Full(back) => back,
        other => panic!("the second message was not held back: {:?}", other),
    };
    assert_eq!(held, msg("second"));
    assert_eq!(queue.dequeue(), Dequeued::Item(msg("first")));
    assert_eq!(queue.enqueue(held), Enqueued::Accepted);
    assert_eq!(queue.dequeue(), Dequeued::Item(msg("second")));
}

#[test]
fn room_comes_back_one_message_at_a_time() {
    let mut queue = DispatchQueue::bounded(2).unwrap();
    assert_eq!(queue.enqueue(msg("a")), Enqueued::Accepted);
    assert_eq!(queue.enqueue(msg("b")), Enqueued::Accepted);
    assert_eq!(queue.dequeue(), Dequeued::Item(msg("a")));
    assert_eq!(queue.enqueue(msg("c")), Enqueued::Accepted);
    assert_eq!(queue.enqueue(msg("d")), Enqueued::Full(msg("d")));
    assert_eq!(queue.dequeue(), Dequeued::Item(msg("b")));
    assert_eq!(queue.dequeue(), Dequeued::Item(msg("c")));
}

#[test]
fn closed_receiver_refuses_every_offer() {
    let mut queue = DispatchQueue::bounded(2).unwrap();
    queue.close_receiver();
    assert_eq!(queue.enqueue(msg("a")), Enqueued::Closed(msg("a")));
    assert_eq!(queue.enqueue(msg("b")), Enqueued::Closed(msg("b")));
    assert_eq!(queue.dequeue(), Dequeued::Finished);
}

#[test]
fn closed_receiver_wins_over_full() {
    let mut queue = DispatchQueue::bounded(1).unwrap();
    assert_eq!(queue.enqueue(msg("a")), Enqueued::Accepted);
    queue.close_receiver();
    assert_eq!(queue.enqueue(msg("b")), Enqueued::Closed(msg("b")));
}

#[test]
fn closed_receiver_still_drains_what_waits() {
    let mut queue = DispatchQueue::bounded(2).unwrap();
    assert_eq!(queue.enqueue(msg("a")), Enqueued::Accepted);
    assert_eq!(queue.enqueue(msg("b")), Enqueued::Accepted);
    queue.close_receiver();
    assert_eq!(queue.dequeue(), Dequeued::Item(msg("a")));
    assert_eq!(queue.dequeue(), Dequeued::Item(msg("b")));
    assert_eq!(queue.dequeue(), Dequeued::Finished);
    assert_eq!(queue.enqueue(msg("c")), Enqueued::Closed(msg("c")));
}

#[test]
fn closed_sender_ends_the_stream_after_the_last_message() {
    let mut queue = DispatchQueue::bounded(2).unwrap();
    assert_eq!(queue.enqueue(msg("a")), Enqueued::Accepted);
    queue.close_sender();
    assert_eq!(queue.dequeue(), Dequeued::Item(msg("a")));
    assert_eq!(queue.dequeue(), Dequeued::Finished);
    assert_eq!(queue.dequeue(), Dequeued::Finished);
}

#[test]
fn closed_sender_refuses_every_offer() {
    let mut queue = DispatchQueue::bounded(2).unwrap();
    queue.close_sender();
    assert_eq!(queue.enqueue(msg("a")), Enqueued::Closed(msg("a")));
    assert_eq!(queue.dequeue(), Dequeued::Finished);
}

#[test]
fn closing_the_sender_twice_changes_nothing() {
    let mut queue = DispatchQueue::bounded(2).unwrap();
    assert_eq!(queue.enqueue(msg("a")), Enqueued::Accepted);
    queue.close_sender();
    queue.close_sender();
    assert_eq!(queue.capacity(), 2);
    assert_eq!(queue.dequeue(), Dequeued::Item(msg("a")));
    assert_eq!(queue.dequeue(), Dequeued::Finished);
}

#[test]
fn parts_of_an_open_queue_are_one_channel() {
    let mut queue = DispatchQueue::bounded(2).unwrap();
    assert_eq!(queue.enqueue(msg("a")), Enqueued::Accepted);
    let (tx, mut rx) = queue.into_parts();
    let tx = tx.unwrap();
    assert_eq!(tx.max_capacity(), 2);
    assert!(tx.try_send(msg("b")).is_ok());
    assert!(tx.try_send(msg("c")).is_err());
    assert_eq!(rx.try_recv().ok(), Some(msg("a")));
    assert_eq!(rx.try_recv().ok(), Some(msg("b")));
    assert!(rx.try_recv().is_err());
}

#[test]
fn parts_of_a_closed_queue_have_no_sender() {
    let mut queue = DispatchQueue::bounded(2).unwrap();
    assert_eq!(queue.enqueue(msg("a")), Enqueued::Accepted);
    queue.close_sender();
    let (tx, mut rx) = queue.into_parts();
    assert!(tx.is_none());
    assert_eq!(rx.try_recv().ok(), Some(msg("a")));
    assert!(rx.is_closed() || rx.try_recv().is_err());
}
