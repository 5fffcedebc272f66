use character::registry::{contains_id, dead_peers, Registry};

#[test]
fn register_and_snapshot_keep_order() {
    let mut reg: Registry<String> = Registry::new();
    reg.register(1, "a".to_string());
    reg.register(2, "b".to_string());
    reg.register(3, "c".to_string());
    assert_eq!(
        reg.snapshot(),
        vec![(1, "a".to_string()), (2, "b".to_string()), (3, "c".to_string())]
    );
}

#[test]
fn register_again_replaces_the_sender() {
    let mut reg: Registry<u8> = Registry::new();
    reg.register(1, 10);
    reg.register(2, 20);
    reg.register(1, 11);
    assert_eq!(reg.len(), 2);
    assert_eq!(reg.snapshot(), vec![(2, 20), (1, 11)]);
}

#[test]
fn unregister_removes_only_that_peer() {
    let mut reg: Registry<u8> = Registry::new();
    reg.register(1, 10);
    reg.register(2, 20);
    reg.unregister(1);
    reg.unregister(7);
    assert_eq!(reg.snapshot(), vec![(2, 20)]);
}

#[test]
fn failed_sends_are_pruned() {
    let mut reg: Registry<u8> = Registry::new();
    for id in 1..=4u64 {
        reg.register(id, id as u8);
    }
    let snap = reg.snapshot();
    let ids: Vec<u64> = snap.iter().map(|e| e.0).collect();
    let delivered = [true, false, true, false];
    let dead = dead_peers(&ids, &delivered);
    assert_eq!(dead, vec![2, 4]);
    reg.prune(&dead);
    assert_eq!(reg.snapshot(), vec![(1, 1), (3, 3)]);
    reg.prune(&[]);
    assert_eq!(reg.len(), 2);
}

#[test]
fn membership_of_ids() {
    assert!(contains_id(&[4, 5, 6], 5));
    assert!(!contains_id(&[4, 5, 6], 7));
    assert!(!contains_id(&[], 1));
}
