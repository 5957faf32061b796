use flockmind::state_machine::HiveState;
use flockmind::storage::{
    apply_entries, apply_entries_at, key_index, log_key, range_limits, replay_at, snapshot_id,
    EntryPayload, HiveNode, LogBound, LogEntry, LogId,
};
use flockmind::types::{ClusterCommand, Goal};

fn put_goal(id: &str) -> ClusterCommand {
    ClusterCommand::PutGoal(Goal {
        id: id.to_string(),
        description: String::new(),
        constraints: vec![],
        priority: 0,
        active: true,
        created_at: 0,
    })
}

fn entry(index: u64, payload: EntryPayload) -> LogEntry {
    LogEntry { log_id: LogId { term: 1, node_id: 7, index }, payload }
}

fn log() -> Vec<LogEntry> {
    vec![
        entry(1, EntryPayload::Blank),
        entry(2, EntryPayload::Membership("{\"a\":1}".to_string())),
        entry(3, EntryPayload::Normal(put_goal("g1"))),
        entry(4, EntryPayload::Normal(put_goal("g2"))),
        entry(5, EntryPayload::Membership("{\"b\":2}".to_string())),
        entry(6, EntryPayload::Normal(ClusterCommand::RemoveGoal { goal_id: "g1".to_string() })),
    ]
}

#[test]
fn log_keys_are_big_endian() {
    assert_eq!(log_key(0), [0u8; 8]);
    assert_eq!(log_key(1), [0, 0, 0, 0, 0, 0, 0, 1]);
    assert_eq!(log_key(0x0102_0304_0506_0708), [1, 2, 3, 4, 5, 6, 7, 8]);
    assert_eq!(log_key(u64::MAX), [255u8; 8]);
    assert!(log_key(255) < log_key(256));
    let indexes = [0u64, 1, 255, 256, 65_535, 65_536, 1 << 32, (1 << 56) - 1, 1 << 56, u64::MAX];
    for a in indexes {
        for b in indexes {
            assert_eq!(log_key(a) < log_key(b), a < b);
        }
    }
    for index in [0u64, 1, 255, 256, 1 << 40, u64::MAX] {
        assert_eq!(key_index(&log_key(index)), index);
        assert_eq!(log_key(index), index.to_be_bytes());
    }
}

#[test]
fn ranges_of_indexes() {
    assert_eq!(range_limits(LogBound::Unbounded, LogBound::Unbounded), Some((0, None)));
    assert_eq!(range_limits(LogBound::Included(3), LogBound::Excluded(9)), Some((3, Some(9))));
    assert_eq!(range_limits(LogBound::Excluded(3), LogBound::Included(9)), Some((4, Some(10))));
    assert_eq!(range_limits(LogBound::Included(3), LogBound::Included(u64::MAX)), Some((3, None)));
    assert_eq!(range_limits(LogBound::Excluded(u64::MAX), LogBound::Unbounded), None);
    assert_eq!(range_limits(LogBound::Included(5), LogBound::Excluded(5)), Some((5, Some(5))));
}

#[test]
fn snapshot_names() {
    assert_eq!(snapshot_id("1-7", 42, 3), "1-7-42-3");
    assert_eq!(snapshot_id("", 0, 1), "-0-1");
    assert_eq!(snapshot_id("x", u64::MAX, 10), "x-18446744073709551615-10");
}

#[test]
fn nodes_in_words() {
    let n = HiveNode { addr: "10.0.0.1:9000".to_string(), hostname: "alpha".to_string() };
    assert_eq!(n.label(), "alpha@10.0.0.1:9000");
    assert_eq!(n.clone(), n);
    assert_eq!(HiveNode::default().label(), "@");
}

#[test]
fn applying_entries() {
    let mut state = HiveState::new();
    let applied = apply_entries_at(&mut state, &log(), 9);
    assert_eq!(applied.count, 6);
    assert_eq!(applied.last_applied, Some(LogId { term: 1, node_id: 7, index: 6 }));
    assert_eq!(
        applied.membership,
        Some((LogId { term: 1, node_id: 7, index: 5 }, "{\"b\":2}".to_string()))
    );
    assert_eq!(state.last_applied_index, 6);
    assert_eq!(state.goals.len(), 1);
    assert!(state.goals.contains_key("g2"));

    let mut other = HiveState::new();
    let nothing = apply_entries(&mut other, &vec![]);
    assert_eq!((nothing.count, nothing.last_applied, nothing.membership), (0, None, None));
    assert_eq!(other.last_applied_index, 0);
    let some = apply_entries(&mut other, &vec![entry(9, EntryPayload::Blank)]);
    assert_eq!((some.count, some.membership), (1, None));
    assert_eq!(other.last_applied_index, 9);
}

#[test]
fn log_replay_restores_the_state() {
    let mut before_crash = HiveState::new();
    apply_entries_at(&mut before_crash, &log(), 9);

    let mut snapshot = HiveState::new();
    let first: Vec<LogEntry> = log().into_iter().take(3).collect();
    apply_entries_at(&mut snapshot, &first, 9);
    assert_eq!(snapshot.last_applied_index, 3);
    assert_eq!(snapshot.goals.len(), 1);

    let mut recovered = snapshot.clone();
    assert_eq!(replay_at(&mut recovered, &log(), 9), 3);
    assert_eq!(recovered.last_applied_index, before_crash.last_applied_index);
    assert_eq!(recovered.goals.len(), 1);
    assert!(recovered.goals.contains_key("g2"));
    assert!(!recovered.goals.contains_key("g1"));

    assert_eq!(replay_at(&mut recovered, &log(), 9), 0);
    assert_eq!(recovered.goals.len(), 1);

    let mut from_nothing = HiveState::new();
    assert_eq!(replay_at(&mut from_nothing, &log(), 9), 6);
    assert_eq!(from_nothing.last_applied_index, 6);
    assert!(from_nothing.goals.contains_key("g2"));
}
