use casper_node::round_robin::WeightedRoundRobin;

#[derive(Copy, Clone, Eq, PartialEq, Hash, Debug)]
enum QueueKind {
    One,
    Two,
}

#[derive(Copy, Clone, Eq, PartialEq, Hash, Debug)]
enum Kind {
    A,
    B,
}

fn weights() -> Vec<(QueueKind, usize)> {
    vec![(QueueKind::One, 1), (QueueKind::Two, 2)]
}

#[test]
fn should_respect_weighting() {
    let mut scheduler = WeightedRoundRobin::<char, QueueKind>::new(weights());
    // Push three items on to each queue
    scheduler.push('a', QueueKind::One);
    scheduler.push('b', QueueKind::One);
    scheduler.push('c', QueueKind::One);
    scheduler.push('d', QueueKind::Two);
    scheduler.push('e', QueueKind::Two);
    scheduler.push('f', QueueKind::Two);

    // We should receive the popped values in the order a, d, e, b, f, c
    assert_eq!(Some(('a', QueueKind::One)), scheduler.pop());
    assert_eq!(Some(('d', QueueKind::Two)), scheduler.pop());
    assert_eq!(Some(('e', QueueKind::Two)), scheduler.pop());
    assert_eq!(Some(('b', QueueKind::One)), scheduler.pop());
    assert_eq!(Some(('f', QueueKind::Two)), scheduler.pop());
    assert_eq!(Some(('c', QueueKind::One)), scheduler.pop());
}

#[test]
fn pop_on_empty_scheduler_gives_none() {
    let mut scheduler = WeightedRoundRobin::<u32, QueueKind>::new(weights());
    assert_eq!(scheduler.pop(), None);
    assert_eq!(scheduler.item_count(), 0);
}

#[test]
fn starvation_free_heavy_queue_served_within_sum_of_weights() {
    let mut scheduler = WeightedRoundRobin::<u32, Kind>::new(vec![(Kind::A, 1), (Kind::B, 100)]);
    for i in 0..1000 {
        scheduler.push(i, Kind::A);
    }
    scheduler.push(5000, Kind::B);
    let mut found = None;
    for n in 0..101 {
        let (item, kind) = scheduler.pop().unwrap();
        if kind == Kind::B {
            assert_eq!(item, 5000);
            found = Some(n);
            break;
        }
    }
    assert!(found.is_some());
}

#[test]
fn starvation_free_light_queue_waits_at_most_other_weights() {
    let mut scheduler = WeightedRoundRobin::<u32, Kind>::new(vec![(Kind::A, 1), (Kind::B, 100)]);
    for i in 0..500 {
        scheduler.push(i, Kind::B);
    }
    for i in 0..10 {
        scheduler.push(1000 + i, Kind::A);
    }
    // Between two pops from A, at most 100 pops from B.
    let mut since_a = 0;
    let mut seen_a = 0;
    while seen_a < 4 {
        let (_, kind) = scheduler.pop().unwrap();
        if kind == Kind::A {
            assert!(since_a <= 100);
            since_a = 0;
            seen_a += 1;
        } else {
            since_a += 1;
        }
    }
}

#[test]
fn queues_are_fifo() {
    let mut scheduler = WeightedRoundRobin::<u32, QueueKind>::new(weights());
    for i in 0..10 {
        scheduler.push(i, QueueKind::Two);
    }
    let mut out = Vec::new();
    while let Some((item, kind)) = scheduler.pop() {
        assert_eq!(kind, QueueKind::Two);
        out.push(item);
    }
    assert_eq!(out, (0..10).collect::<Vec<_>>());
}

#[test]
fn balanced_pushes_and_pops_leave_count_zero() {
    let mut scheduler = WeightedRoundRobin::<u32, QueueKind>::new(weights());
    scheduler.push(1, QueueKind::One);
    scheduler.push(2, QueueKind::Two);
    assert_eq!(scheduler.item_count(), 2);
    scheduler.pop().unwrap();
    scheduler.push(3, QueueKind::One);
    scheduler.pop().unwrap();
    scheduler.pop().unwrap();
    assert_eq!(scheduler.item_count(), 0);
    assert_eq!(scheduler.pop(), None);
}

#[test]
fn empty_queue_is_skipped() {
    let mut scheduler = WeightedRoundRobin::<u32, QueueKind>::new(weights());
    scheduler.push(7, QueueKind::Two);
    scheduler.push(8, QueueKind::Two);
    scheduler.push(9, QueueKind::Two);
    assert_eq!(scheduler.pop(), Some((7, QueueKind::Two)));
    assert_eq!(scheduler.pop(), Some((8, QueueKind::Two)));
    // Tickets of Two are used up and One is empty: Two is serviced again.
    assert_eq!(scheduler.pop(), Some((9, QueueKind::Two)));
}

#[test]
fn drain_queue_takes_all_items_of_one_kind() {
    let mut scheduler = WeightedRoundRobin::<u32, QueueKind>::new(weights());
    scheduler.push(1, QueueKind::One);
    scheduler.push(2, QueueKind::Two);
    scheduler.push(3, QueueKind::One);
    assert_eq!(scheduler.drain_queue(QueueKind::One), vec![1, 3]);
    assert_eq!(scheduler.item_count(), 1);
    assert_eq!(scheduler.drain_queue(QueueKind::One), Vec::<u32>::new());
    assert_eq!(scheduler.pop(), Some((2, QueueKind::Two)));
}

#[test]
fn event_queues_counts_per_kind() {
    let mut scheduler = WeightedRoundRobin::<u32, QueueKind>::new(weights());
    scheduler.push(1, QueueKind::Two);
    scheduler.push(2, QueueKind::Two);
    scheduler.push(3, QueueKind::One);
    assert_eq!(
        scheduler.event_queues_counts(),
        vec![(QueueKind::One, 1), (QueueKind::Two, 2)]
    );
    assert_eq!(scheduler.slot_count(), 2);
    let (kind, queue) = scheduler.slot_queue(1);
    assert_eq!(kind, QueueKind::Two);
    assert_eq!(queue.iter().copied().collect::<Vec<_>>(), vec![1, 2]);
}
