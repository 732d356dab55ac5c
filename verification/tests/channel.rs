use mpsc_channel::channel;

#[test]
pub fn ping_pong() {
    let (mut tx, mut rx) = channel();
    tx.send(25);
    assert_eq!(Some(25), rx.recv())
}

#[test]
pub fn send_drop() {
    let (tx, mut rx) = channel::<()>();
    drop(tx);

    assert_eq!(rx.recv(), None)
}

#[test]
fn batch_drain_in_order() {
    let (mut tx, mut rx) = channel();
    tx.send(1);
    tx.send(2);
    tx.send(3);
    assert_eq!(rx.recv(), Some(1));
    assert_eq!(rx.recv(), Some(2));
    assert_eq!(rx.recv(), Some(3));
    drop(tx);
    assert_eq!(rx.recv(), None);
}

#[test]
fn fifo_across_many_values() {
    let (mut tx, mut rx) = channel();
    for i in 0..100 {
        tx.send(i);
    }
    for i in 0..100 {
        assert_eq!(rx.recv(), Some(i));
    }
    drop(tx);
    assert_eq!(rx.recv(), None);
}

#[test]
fn exhausted_stays_exhausted() {
    let (tx, mut rx) = channel::<u32>();
    drop(tx);
    assert_eq!(rx.recv(), None);
    assert_eq!(rx.recv(), None);
    assert_eq!(rx.recv(), None);
}

#[test]
fn clone_keeps_channel_open() {
    let (tx, mut rx) = channel();
    let mut second = tx.clone();
    drop(tx);
    second.send(7);
    assert_eq!(rx.recv(), Some(7));
    drop(second);
    assert_eq!(rx.recv(), None);
}

#[test]
fn all_clones_must_go_before_exhaustion() {
    let (tx, mut rx) = channel::<&str>();
    let a = tx.clone();
    let b = tx.clone();
    drop(tx);
    drop(a);
    let mut b = b;
    b.send("late");
    drop(b);
    assert_eq!(rx.recv(), Some("late"));
    assert_eq!(rx.recv(), None);
}

#[test]
fn buffered_batch_survives_close() {
    let (mut tx, mut rx) = channel();
    tx.send(10);
    tx.send(20);
    tx.send(30);
    // The first receive moves the backlog into the private buffer.
    assert_eq!(rx.recv(), Some(10));
    drop(tx);
    assert_eq!(rx.recv(), Some(20));
    assert_eq!(rx.recv(), Some(30));
    assert_eq!(rx.recv(), None);
}

#[test]
fn two_senders_interleaved_all_delivered() {
    let (mut tx, mut rx) = channel();
    let mut other = tx.clone();
    tx.send(1);
    other.send(2);
    tx.send(3);
    other.send(4);
    drop(tx);
    drop(other);
    let mut seen = Vec::new();
    while let Some(v) = rx.recv() {
        seen.push(v);
    }
    assert_eq!(seen, vec![1, 2, 3, 4]);
    assert_eq!(rx.recv(), None);
}

#[test]
fn next_pulls_the_lazy_sequence() {
    let (mut tx, mut rx) = channel();
    tx.send(5);
    tx.send(6);
    drop(tx);
    let mut seen = Vec::new();
    while let Some(v) = rx.next() {
        seen.push(v);
    }
    assert_eq!(seen, vec![5, 6]);
    // Not restartable: once ended, it stays ended.
    assert_eq!(rx.next(), None);
}

#[test]
fn send_without_receiver_is_accepted() {
    let (mut tx, rx) = channel();
    drop(rx);
    tx.send(5);
}
