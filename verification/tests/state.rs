use mpsc_channel::state::must_block;
use mpsc_channel::state::take_next;
use mpsc_channel::state::Inner;
use mpsc_channel::state::Received;

#[test]
fn fresh_state_blocks_the_consumer() {
    let st = Inner::<u32>::new();
    assert!(must_block(&st));
}

#[test]
fn enqueue_unblocks_and_take_delivers_head_and_batch() {
    let mut st = Inner::new();
    st.enqueue(1);
    st.enqueue(2);
    st.enqueue(3);
    assert!(!must_block(&st));
    let (st, got) = take_next(st);
    match got {
        Received::Item(head, batch) => {
            assert_eq!(head, 1);
            let rest: Vec<u32> = batch.into_iter().collect();
            assert_eq!(rest, vec![2, 3]);
        }
        Received::Exhausted => panic!("a queued value must be delivered"),
    }
    // The whole remainder moved out as the batch.
    assert!(must_block(&st));
}

#[test]
fn take_on_a_closed_empty_state_is_exhausted() {
    let mut st = Inner::<u8>::new();
    let last = st.note_drop();
    assert!(last);
    assert!(!must_block(&st));
    let (_, got) = take_next(st);
    assert!(matches!(got, Received::Exhausted));
}

#[test]
fn producer_count_rises_and_falls() {
    let mut st = Inner::<u8>::new();
    st.note_clone();
    assert!(!st.note_drop());
    assert!(st.note_drop());
}
