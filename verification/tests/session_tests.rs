use opbridge::session::SessionAllocator;

#[test]
fn first_sessions_count_up_from_one() {
    let mut a = SessionAllocator::new();
    assert_eq!(a.next_session(), 1);
    assert_eq!(a.next_session(), 2);
    assert_eq!(a.next_session(), 3);
}

#[test]
fn allocator_never_returns_zero() {
    let mut a = SessionAllocator::new();
    for _ in 0..1000 {
        assert_ne!(a.next_session(), 0);
    }
}

#[test]
fn many_sessions_are_pairwise_distinct() {
    let mut a = SessionAllocator::new();
    let mut seen = Vec::new();
    for _ in 0..256 {
        seen.push(a.next_session());
    }
    for i in 0..seen.len() {
        for j in 0..i {
            assert_ne!(seen[i], seen[j]);
        }
    }
}
