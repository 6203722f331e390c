use mpsc_channel::channel;
use std::collections::VecDeque;

#[test]
fn serve_batch_keeps_order() {
    // A freshly taken backlog is served front-first and the remainder stays
    // buffered in order.
    let (_tx, mut rx) = channel::<i32>();
    let mut batch = VecDeque::new();
    batch.push_back(1);
    batch.push_back(2);
    batch.push_back(3);
    assert_eq!(rx.serve_batch(batch), Some(1));
    assert_eq!(rx.recv(), Some(2));
    assert_eq!(rx.recv(), Some(3));
}

#[test]
fn it_ping_pong() {
    let (mut tx, mut rx) = channel();
    tx.send(42);
    assert_eq!(rx.recv(), Some(42));
}

#[test]
fn closed_sender() {
    let (tx, mut rx) = channel::<()>();
    // Drop the sender to close the receiver
    drop(tx);
    assert_eq!(rx.recv(), None);
}

#[test]
fn closed_receiver() {
    let (mut tx, mut rx) = channel();

    drop(rx);
    tx.send(42);
}

#[test]
fn fifo_single_sender() {
    let (mut tx, mut rx) = channel();
    tx.send(1);
    tx.send(2);
    assert_eq!(rx.recv(), Some(1));
    assert_eq!(rx.recv(), Some(2));
}

#[test]
fn batch_drain_in_order() {
    // All values are queued before the first receive, so the first call
    // takes the whole backlog in one step and the rest come from the
    // receiver's private buffer; the order must match the enqueue order.
    let (mut tx, mut rx) = channel();
    for i in 0..5 {
        tx.send(i);
    }
    for i in 0..5 {
        assert_eq!(rx.recv(), Some(i));
    }
    drop(tx);
    assert_eq!(rx.recv(), None);
}

#[test]
fn clones_interleaved() {
    let (tx, mut rx) = channel();
    let mut a = tx.clone();
    let mut b = tx.clone();
    drop(tx);
    a.send(1);
    b.send(2);
    assert_eq!(rx.recv(), Some(1));
    assert_eq!(rx.recv(), Some(2));
}

#[test]
fn drop_order_one_way() {
    let (tx, mut rx) = channel::<u8>();
    let a = tx.clone();
    let b = tx.clone();
    drop(tx);
    drop(a);
    drop(b);
    assert_eq!(rx.recv(), None);
}

#[test]
fn drop_order_other_way() {
    let (tx, mut rx) = channel::<u8>();
    let a = tx.clone();
    let b = tx.clone();
    drop(b);
    drop(a);
    drop(tx);
    assert_eq!(rx.recv(), None);
}

#[test]
fn open_while_any_sender_lives() {
    // Dropping all handles but one must not close the channel: a value sent
    // on the survivor still arrives.
    let (tx, mut rx) = channel();
    let mut survivor = tx.clone();
    drop(tx);
    survivor.send(9);
    assert_eq!(rx.recv(), Some(9));
}

#[test]
fn closed_stays_closed() {
    let (tx, mut rx) = channel::<i32>();
    drop(tx);
    assert_eq!(rx.recv(), None);
    assert_eq!(rx.recv(), None);
}

#[test]
fn pending_values_outlive_senders() {
    // Values queued before the last sender drops are still delivered, and
    // only then does the receiver observe closure.
    let (mut tx, mut rx) = channel();
    tx.send(7);
    tx.send(8);
    drop(tx);
    assert_eq!(rx.recv(), Some(7));
    assert_eq!(rx.recv(), Some(8));
    assert_eq!(rx.recv(), None);
}

#[test]
fn iteration_form_until_closure() {
    let (mut tx, mut rx) = channel();
    tx.send(10);
    tx.send(20);
    drop(tx);
    let mut seen = Vec::new();
    while let Some(v) = rx.next() {
        seen.push(v);
    }
    assert_eq!(seen, vec![10, 20]);
    assert_eq!(rx.next(), None);
}
