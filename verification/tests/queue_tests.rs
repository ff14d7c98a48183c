use chat_worker::jobs::{GetChannels, Job};
use chat_worker::queue::Queue;

#[test]
fn fifo_order() {
    // Jobs pushed J1..JN come back in exactly that order.
    let mut q: Queue<Job> = Queue::new();
    for id in 1..=5u64 {
        q.push(Job::GetChannels(GetChannels::new(id)));
    }
    for expected in 1..=5u64 {
        assert!(!q.is_empty());
        match q.take() {
            Job::GetChannels(fetch) => assert_eq!(fetch.server_id, expected),
            _ => panic!("unexpected job variant"),
        }
    }
    assert!(q.is_empty());
}

#[test]
fn queue_worker_integration() {
    let mut q: Queue<Job> = Queue::new();
    q.push(Job::GetServers);
    q.push(Job::GetChannels(GetChannels::new(7)));
    assert_eq!(q.size(), 2);
    assert!(matches!(q.take(), Job::GetServers));
    match q.take() {
        Job::GetChannels(fetch) => assert_eq!(fetch.server_id, 7),
        _ => panic!("unexpected job variant"),
    }
    // No further take is valid without another push.
    assert!(q.is_empty());
    assert_eq!(q.size(), 0);
}

#[test]
fn pop_front_reports_empty_and_pops_in_order() {
    let mut q: Queue<u64> = Queue::new();
    assert_eq!(q.pop_front(), None);
    q.push(4);
    q.push(5);
    assert_eq!(q.pop_front(), Some(4));
    assert_eq!(q.pop_front(), Some(5));
    assert_eq!(q.pop_front(), None);
}

#[test]
fn clear_empties_the_queue() {
    let mut q: Queue<u64> = Queue::new();
    q.push(1);
    q.push(2);
    q.push(3);
    assert_eq!(q.size(), 3);
    q.clear();
    assert!(q.is_empty());
    q.push(9);
    assert_eq!(q.size(), 1);
    assert_eq!(q.take(), 9);
}
