use cross_core::queue::MessageQueue;

#[test]
fn test_queue1() {
    let mut q = MessageQueue::<u32, 3>::new();
    assert!(q.push(1).is_ok());
    assert!(q.push(2).is_ok());
    assert!(q.push(3).is_err()); // In a ring buffer implementation with a read/write index, one element is always unused
    assert_eq!(q.pop(), Some(1));
    assert_eq!(q.pop(), Some(2));
    assert_eq!(q.pop(), None);
    assert!(q.push(4).is_ok());
    assert!(q.push(5).is_ok());
    assert!(q.push(6).is_err());
    assert_eq!(q.pop(), Some(4));
    assert_eq!(q.pop(), Some(5));
    assert!(q.push(7).is_ok());
    assert_eq!(q.pop(), Some(7));
    assert_eq!(q.pop(), None);
    assert!(q.push(8).is_ok());
    assert!(q.push(9).is_ok());
    assert_eq!(q.pop(), Some(8));
    assert_eq!(q.pop(), Some(9));
    assert_eq!(q.pop(), None);
}

#[test]
fn pop_on_empty_is_idempotent() {
    let mut q = MessageQueue::<u64, 4>::new();
    assert_eq!(q.pop(), None);
    assert_eq!(q.pop(), None);
    assert_eq!(q.pop(), None);
    assert!(q.push(11).is_ok());
    assert_eq!(q.pop(), Some(11));
    assert_eq!(q.pop(), None);
    assert_eq!(q.pop(), None);
}

#[test]
fn full_queue_recovers_after_one_pop() {
    let mut q = MessageQueue::<u8, 4>::new();
    assert!(q.push(1).is_ok());
    assert!(q.push(2).is_ok());
    assert!(q.push(3).is_ok());
    // N - 1 elements held: the same push fails twice in a row, changing nothing.
    assert!(q.push(4).is_err());
    assert!(q.push(4).is_err());
    assert_eq!(q.len(), 3);
    assert_eq!(q.pop(), Some(1));
    assert!(q.push(4).is_ok());
    assert_eq!(q.pop(), Some(2));
    assert_eq!(q.pop(), Some(3));
    assert_eq!(q.pop(), Some(4));
    assert_eq!(q.pop(), None);
}

#[test]
fn fifo_order_survives_wraparound() {
    let mut q = MessageQueue::<u32, 3>::new();
    for round in 0..10u32 {
        assert!(q.push(2 * round).is_ok());
        assert!(q.push(2 * round + 1).is_ok());
        assert_eq!(q.pop(), Some(2 * round));
        assert_eq!(q.pop(), Some(2 * round + 1));
        assert_eq!(q.pop(), None);
    }
}

#[test]
fn single_slot_queue_holds_nothing() {
    // DEPTH counts the permanently unused slot, so one slot means no room.
    let mut q = MessageQueue::<u32, 1>::new();
    assert!(q.push(1).is_err());
    assert_eq!(q.pop(), None);
}

#[test]
fn two_slot_queue_holds_one() {
    let mut q = MessageQueue::<u32, 2>::new();
    assert!(q.push(1).is_ok());
    assert!(q.push(2).is_err());
    assert_eq!(q.pop(), Some(1));
    assert_eq!(q.pop(), None);
    assert!(q.push(3).is_ok());
    assert_eq!(q.pop(), Some(3));
}

#[test]
fn default_is_an_empty_queue() {
    let mut q: MessageQueue<u32, 5> = Default::default();
    assert_eq!(q.len(), 0);
    assert_eq!(q.pop(), None);
    assert!(q.push(1).is_ok());
    assert_eq!(q.len(), 1);
}
