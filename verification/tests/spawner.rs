use linkerd_app::topology::{shared, zeroed, RouterSpawner};
use std::cell::RefCell;
use std::collections::VecDeque;

fn spawner(servers: &[u32]) -> RouterSpawner<u32, &'static str> {
    let queue: VecDeque<u32> = servers.iter().cloned().collect();
    RouterSpawner::new(queue, "executor")
}

#[test]
fn new_spawner_holds_its_servers_and_executor() {
    let s = spawner(&[1, 2, 3]);
    assert_eq!(s.pending(), 3);
    assert!(s.has_executor());
}

#[test]
fn executor_is_handed_over_once() {
    let mut s = spawner(&[1, 2]);
    assert_eq!(s.take_executor(), Some("executor"));
    assert!(!s.has_executor());
    assert_eq!(s.take_executor(), None);
    assert_eq!(s.pending(), 2);
}

#[test]
fn spawn_launches_every_server_in_order() {
    let mut s = spawner(&[10, 20, 30]);
    s.take_executor();
    let order: RefCell<Vec<u32>> = RefCell::new(Vec::new());
    let launch = |server: u32| {
        order.borrow_mut().push(server);
        server + 1
    };
    match s.spawn(&launch) {
        Ok(tasks) => assert_eq!(tasks, vec![11, 21, 31]),
        Err(e) => panic!("spawn failed: {:?}", e),
    }
    assert_eq!(*order.borrow(), vec![10, 20, 30]);
}

#[test]
fn spawn_of_no_servers_launches_nothing() {
    let mut s = spawner(&[]);
    s.take_executor();
    let launch = |server: u32| server;
    match s.spawn(&launch) {
        Ok(tasks) => assert!(tasks.is_empty()),
        Err(e) => panic!("spawn failed: {:?}", e),
    }
}

#[test]
fn transfer_buffer_is_zero_filled_and_sized() {
    assert_eq!(zeroed(0), Vec::<u8>::new());
    assert_eq!(zeroed(5), vec![0u8; 5]);
    assert_eq!(zeroed(16384).len(), 16384);
    let buffer = shared(zeroed(8));
    assert_eq!(*buffer.borrow(), vec![0u8; 8]);
}
