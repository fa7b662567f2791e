use opbridge::delivery::{Poll, PollQueue, ResultSlot, SlotDefect};

#[test]
fn poll_queue_is_first_in_first_out() {
    let mut q: PollQueue<&'static str> = PollQueue::new();
    q.push(1, "one");
    q.push(2, "two");
    assert_eq!(q.try_receive(), Poll::Ready(1, "one"));
    assert_eq!(q.try_receive(), Poll::Ready(2, "two"));
}

#[test]
fn empty_queue_says_try_again() {
    let mut q: PollQueue<u32> = PollQueue::new();
    assert_eq!(q.try_receive(), Poll::Empty);
    q.push(1, 10);
    assert_eq!(q.try_receive(), Poll::Ready(1, 10));
    assert_eq!(q.try_receive(), Poll::Empty);
}

#[test]
fn closed_queue_drains_backlog_then_reports_closed() {
    let mut q: PollQueue<u32> = PollQueue::new();
    q.push(1, 10);
    q.close();
    assert_eq!(q.try_receive(), Poll::Ready(1, 10));
    assert_eq!(q.try_receive(), Poll::Closed);
    assert_eq!(q.try_receive(), Poll::Closed);
}

#[test]
fn each_pushed_outcome_is_received_once() {
    let mut q: PollQueue<u32> = PollQueue::new();
    for s in 1..=50i64 {
        q.push(s, s as u32);
    }
    let mut seen = Vec::new();
    loop {
        match q.try_receive() {
            Poll::Ready(session, payload) => {
                assert!(!seen.contains(&session));
                assert_eq!(payload, session as u32);
                seen.push(session);
            }
            Poll::Empty => break,
            Poll::Closed => panic!("queue is not closed"),
        }
    }
    assert_eq!(seen.len(), 50);
}

#[test]
fn result_slot_yields_its_payload_exactly_once() {
    let mut slot = ResultSlot::give("the outcome".to_string());
    assert_eq!(slot.take(), Ok("the outcome".to_string()));
    assert_eq!(slot.take(), Err(SlotDefect::AlreadyTaken));
    assert_eq!(slot.take(), Err(SlotDefect::AlreadyTaken));
}
