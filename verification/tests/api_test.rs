use flockmind::api::{added_goal, added_goal_with, submitted_task, submitted_task_with};
use flockmind::daemon::{raft_node_id, register_now, settle, take_up, Outcome};
use flockmind::network::{plan_peer, HiveNetworkFactory};
use flockmind::tracker::ActionTracker;
use flockmind::types::{BrainAction, ClusterCommand, PeerInfo, TaskPayload, TaskStatus};

#[test]
fn a_submitted_task_is_pending() {
    let t = submitted_task_with(
        "id".to_string(),
        9,
        "self".to_string(),
        TaskPayload::Echo { message: "hi".to_string() },
        Some(0),
    );
    assert_eq!((t.id.as_str(), t.target_node.as_str(), t.priority), ("id", "self", 0));
    assert_eq!(t.status, TaskStatus::Pending);
    assert_eq!((t.created_at, t.updated_at), (9, 9));
    assert!(t.result.is_none());
    let t = submitted_task("self".to_string(), TaskPayload::Echo { message: "hi".to_string() }, None);
    assert_eq!(t.priority, 5);
    assert_eq!(t.id.len(), 36);
    assert_eq!(t.created_at, t.updated_at);
    assert!(t.created_at > 1_600_000_000_000);
}

#[test]
fn an_added_goal_is_active() {
    let g = added_goal_with("g".to_string(), 3, "keep up".to_string(), None, None);
    assert_eq!((g.id.as_str(), g.description.as_str(), g.priority), ("g", "keep up", 5));
    assert!(g.active);
    assert!(g.constraints.is_empty());
    assert_eq!(g.created_at, 3);
    let g = added_goal("d".to_string(), Some(vec!["c".to_string()]), Some(9));
    assert_eq!(g.constraints, vec!["c"]);
    assert_eq!(g.priority, 9);
    assert_eq!(g.id.len(), 36);
}

#[test]
fn peers_join_under_the_number_of_their_identifier() {
    let mut f = HiveNetworkFactory::new();
    let uuid = "6f1c9a52-0b1e-4e57-9d7a-2f0f3c6f7a11";
    let voter = PeerInfo { node_id: uuid.to_string(), addr: "a:1".to_string(), is_voter: true };
    let plan = f.add_peer(&voter);
    assert_eq!(plan.node_id, raft_node_id(uuid));
    assert_eq!(plan.node_id, u64::from_le_bytes(*b"6f1c9a52"));
    assert!(plan.voter);
    assert_eq!((plan.node.addr.as_str(), plan.node.hostname.as_str()), ("a:1", uuid));
    assert_eq!(f.get_addr(raft_node_id(uuid)), Some("a:1".to_string()));
    let learner = PeerInfo { node_id: "42".to_string(), addr: "b:2".to_string(), is_voter: false };
    let plan = f.add_peer(&learner);
    assert_eq!((plan.node_id, plan.voter), (0x3234, false));
    assert_eq!(f.get_addr(0x3234), Some("b:2".to_string()));
    assert_eq!(f.get_addr(42), None);
    let p = plan_peer(&voter, 5);
    assert_eq!((p.node_id, p.node.hostname.as_str()), (5, uuid));
}

#[test]
fn clock_reading_variants() {
    match register_now("n", "h", &vec![]) {
        ClusterCommand::RegisterNode(s) => assert!(s.last_heartbeat > 1_600_000_000_000),
        other => panic!("{:?}", other),
    }
    let mut tracker = ActionTracker::new();
    let action = BrainAction::CancelTask { task_id: "t".to_string() };
    let id = take_up(&mut tracker, &action, &vec![]).unwrap();
    assert!(!settle(&mut tracker, &id, None, Outcome::Done));
    let done = tracker.get_recent_actions(1);
    assert!(done[0].result.as_ref().unwrap().completed_at > 1_600_000_000_000);
    assert!(done[0].proposed_at > 1_600_000_000_000);
}
