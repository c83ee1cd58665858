use apod::registry::{Registry, Role, Session};

#[test]
fn register_assigns_slots_in_order() {
    let mut reg = Registry::new(String::from("/tmp/pods"));
    assert_eq!(reg.register(10, Role::Leader), 0);
    assert_eq!(reg.register(11, Role::Follower), 1);
    assert_eq!(reg.register(12, Role::Follower), 2);
    assert_eq!(reg.sessions.len(), 3);
    assert_eq!(reg.sessions[0], Session { handle: 10, role: Role::Leader });
    assert_eq!(reg.sessions[2], Session { handle: 12, role: Role::Follower });
    assert_eq!(reg.get_save_dir(), String::from("/tmp/pods"));
}

#[test]
fn unregister_removes_and_is_idempotent() {
    let mut reg = Registry::new(String::new());
    reg.register(1, Role::Leader);
    reg.register(2, Role::Follower);
    reg.register(3, Role::Follower);
    reg.unregister(1);
    assert_eq!(reg.sessions.len(), 2);
    assert_eq!(reg.sessions[0].handle, 1);
    assert_eq!(reg.sessions[1].handle, 3);
    // Removing an absent slot is a no-op.
    reg.unregister(7);
    assert_eq!(reg.sessions.len(), 2);
}

#[test]
fn broadcast_targets_lists_all_handles_in_order() {
    let mut reg = Registry::new(String::new());
    reg.register(5, Role::Leader);
    reg.register(6, Role::Follower);
    reg.register(7, Role::Follower);
    assert_eq!(reg.broadcast_targets(), vec![5, 6, 7]);
}

#[test]
fn broadcast_all_ok_keeps_every_session() {
    let mut reg = Registry::new(String::new());
    reg.register(5, Role::Leader);
    reg.register(6, Role::Follower);
    reg.register(7, Role::Follower);
    let evicted = reg.apply_broadcast(&vec![true, true, true]);
    assert_eq!(evicted, None);
    assert_eq!(reg.broadcast_targets(), vec![5, 6, 7]);
}

#[test]
fn broadcast_single_failure_evicts_exactly_that_session() {
    let mut reg = Registry::new(String::new());
    reg.register(5, Role::Leader);
    reg.register(6, Role::Follower);
    reg.register(7, Role::Follower);
    let evicted = reg.apply_broadcast(&vec![true, false, true]);
    assert_eq!(evicted, Some(1));
    assert_eq!(reg.broadcast_targets(), vec![5, 7]);
}

#[test]
fn broadcast_two_failures_evicts_only_the_last() {
    // The known limitation, kept by design: one eviction per broadcast pass.
    let mut reg = Registry::new(String::new());
    reg.register(5, Role::Leader);
    reg.register(6, Role::Follower);
    reg.register(7, Role::Follower);
    let evicted = reg.apply_broadcast(&vec![false, true, false]);
    assert_eq!(evicted, Some(2));
    assert_eq!(reg.broadcast_targets(), vec![5, 6]);
}

#[test]
fn save_dir_can_be_replaced() {
    let mut reg = Registry::new(String::from("/a"));
    reg.register(1, Role::Leader);
    reg.set_save_dir(String::from("/b"));
    assert_eq!(reg.get_save_dir(), String::from("/b"));
    assert_eq!(reg.sessions.len(), 1);
}
