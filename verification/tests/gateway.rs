use dap_aggregator::gateway::RequestQueue;

#[test]
fn at_most_the_limit_is_under_way() {
    let mut queue = RequestQueue::new(2);
    assert_eq!(queue.submit(1), vec![1]);
    assert_eq!(queue.submit(2), vec![2]);
    assert_eq!(queue.submit(3), Vec::<u64>::new());
    assert_eq!(queue.submit(4), Vec::<u64>::new());
    assert_eq!(queue.in_flight(), 2);
    assert_eq!(queue.waiting(), 2);
    assert_eq!(queue.complete(1), (true, vec![3]));
    assert_eq!(queue.in_flight(), 2);
    assert_eq!(queue.complete(2), (true, vec![4]));
    assert_eq!(queue.complete(3), (true, vec![]));
    assert_eq!(queue.complete(4), (true, vec![]));
    assert_eq!(queue.in_flight(), 0);
    assert_eq!(queue.waiting(), 0);
}

#[test]
fn a_place_is_given_up_in_order() {
    let mut queue = RequestQueue::new(2);
    queue.submit(1);
    queue.submit(2);
    queue.submit(3);
    // The younger request is done first: its place is held until the older is done.
    assert_eq!(queue.complete(2), (true, vec![]));
    assert_eq!(queue.in_flight(), 2);
    assert_eq!(queue.complete(1), (true, vec![3]));
    assert_eq!(queue.in_flight(), 1);
}

#[test]
fn unknown_responses_change_nothing() {
    let mut queue = RequestQueue::new(1);
    queue.submit(1);
    queue.submit(2);
    assert_eq!(queue.complete(2), (false, vec![]));
    assert_eq!(queue.complete(9), (false, vec![]));
    assert_eq!(queue.complete(1), (true, vec![2]));
    assert_eq!(queue.complete(1), (false, vec![]));
    assert_eq!(queue.in_flight(), 1);
}

#[test]
fn cancelled_requests_are_never_sent() {
    let mut queue = RequestQueue::new(1);
    queue.submit(1);
    queue.submit(2);
    queue.submit(3);
    assert!(queue.cancel(2));
    assert!(!queue.cancel(2));
    // A request under way goes on.
    assert!(!queue.cancel(1));
    assert_eq!(queue.in_flight(), 1);
    assert_eq!(queue.complete(1), (true, vec![3]));
    assert_eq!(queue.waiting(), 0);
}

#[test]
fn a_limit_of_zero_sends_nothing() {
    let mut queue = RequestQueue::new(0);
    assert_eq!(queue.submit(1), Vec::<u64>::new());
    assert_eq!(queue.waiting(), 1);
    assert_eq!(queue.in_flight(), 0);
    assert!(queue.cancel(1));
    assert_eq!(queue.waiting(), 0);
}

#[test]
fn many_requests_stay_within_the_limit() {
    let mut queue = RequestQueue::new(3);
    let mut sent: Vec<u64> = Vec::new();
    for id in 0..20u64 {
        sent.extend(queue.submit(id));
        assert!(queue.in_flight() <= 3);
    }
    let mut next = 0usize;
    while next < sent.len() {
        let id = sent[next];
        let (known, more) = queue.complete(id);
        assert!(known);
        sent.extend(more);
        assert!(queue.in_flight() <= 3);
        next += 1;
    }
    assert_eq!(sent, (0..20u64).collect::<Vec<u64>>());
    assert_eq!(queue.in_flight(), 0);
}
