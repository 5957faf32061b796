use flockmind::clock::time_of_day_text;
use flockmind::daemon::{
    choose_brain, extract_goal_id, heartbeat_command, is_recently_failed, planning_due,
    raft_node_id, register_command, settle_at, should_skip, take_up, tasks_to_run, BrainChoice,
    Outcome,
};
use flockmind::text::{clone_strings, contains_str, decimal_text, first_lines};
use flockmind::tracker::ActionTracker;
use flockmind::types::{
    BrainAction, ClusterCommand, ClusterView, Goal, NodeHealth, NodeMetrics, Task, TaskPayload,
    TaskStatus,
};

fn echo_on(node: &str) -> BrainAction {
    BrainAction::ScheduleTask {
        task: TaskPayload::Echo { message: "m".to_string() },
        target_node: node.to_string(),
        priority: 5,
    }
}

fn task(id: &str, node: &str, status: TaskStatus) -> Task {
    Task {
        id: id.to_string(),
        target_node: node.to_string(),
        payload: TaskPayload::Echo { message: "m".to_string() },
        status,
        priority: 5,
        created_at: 0,
        updated_at: 0,
        result: None,
    }
}

#[test]
fn numeric_identifier_of_a_node() {
    assert_eq!(raft_node_id(""), 0);
    assert_eq!(raft_node_id("a"), 0x61);
    assert_eq!(raft_node_id("ab"), 0x6261);
    assert_eq!(raft_node_id("12345678"), u64::from_le_bytes(*b"12345678"));
    assert_eq!(raft_node_id("123456789abc"), u64::from_le_bytes(*b"12345678"));
    assert_eq!(raft_node_id("é"), 0xa9c3);
    assert_eq!(
        raft_node_id("6f1c9a52-0b1e-4e57-9d7a-2f0f3c6f7a11"),
        raft_node_id("6f1c9a52-ffff")
    );
}

#[test]
fn registration_and_heartbeat() {
    match register_command("n", "h", &vec!["gpu".to_string()], 12) {
        ClusterCommand::RegisterNode(s) => {
            assert_eq!((s.node_id.as_str(), s.hostname.as_str(), s.last_heartbeat), ("n", "h", 12));
            assert_eq!(s.tags, vec!["gpu"]);
            assert_eq!(s.health, NodeHealth::Healthy);
            assert_eq!((s.cpu_usage, s.memory_usage, s.disk_usage), (0, 0, 0));
        }
        other => panic!("{:?}", other),
    }
    let m = NodeMetrics { cpu_usage: 1, memory_usage: 2, disk_usage: 3 };
    assert!(matches!(
        heartbeat_command("n", m),
        ClusterCommand::UpdateNodeHealth { node_id, health: NodeHealth::Healthy, metrics }
            if node_id == "n" && metrics == m
    ));
}

#[test]
fn a_node_runs_its_own_pending_tasks_in_order() {
    let mut view = ClusterView::new();
    view.tasks.push(task("t1", "me", TaskStatus::Running));
    view.tasks.push(task("t2", "me", TaskStatus::Pending));
    view.tasks.push(task("t3", "you", TaskStatus::Pending));
    view.tasks.push(task("t4", "me", TaskStatus::Pending));
    let ids: Vec<String> = tasks_to_run(&view, "me").into_iter().map(|t| t.id).collect();
    assert_eq!(ids, vec!["t2", "t4"]);
    assert!(tasks_to_run(&view, "nobody").is_empty());
}

#[test]
fn deliberation_needs_leadership_and_goals() {
    let mut view = ClusterView::new();
    assert!(!planning_due(true, &view));
    view.goals.push(Goal {
        id: "g".to_string(),
        description: String::new(),
        constraints: vec![],
        priority: 0,
        active: false,
        created_at: 0,
    });
    assert!(planning_due(true, &view));
    assert!(!planning_due(false, &view));
    assert_eq!(choose_brain(true, "key"), BrainChoice::Oracle);
    assert_eq!(choose_brain(true, ""), BrainChoice::NoOp);
    assert_eq!(choose_brain(false, "key"), BrainChoice::NoOp);
}

#[test]
fn an_action_passes_through_the_tracker() {
    let mut tracker = ActionTracker::new();
    let id = take_up(&mut tracker, &echo_on("a"), &vec![]).unwrap();
    assert_eq!(tracker.get_stats().executing, 1);
    assert!(take_up(&mut tracker, &echo_on("a"), &vec![]).is_none());
    assert!(should_skip(&tracker, &echo_on("a"), &vec![]));
    assert!(!should_skip(&tracker, &echo_on("b"), &vec![]));
    assert_eq!(tracker.get_stats().executing, 1);

    assert!(settle_at(&mut tracker, &id, None, Outcome::Failed { message: "e1".to_string() }, 1));
    assert!(settle_at(&mut tracker, &id, None, Outcome::Failed { message: "e2".to_string() }, 2));
    assert!(!settle_at(&mut tracker, &id, None, Outcome::Failed { message: "e3".to_string() }, 3));
    let failures = tracker.get_recent_failures(10);
    assert_eq!(failures.len(), 1);
    assert!(is_recently_failed(&echo_on("a"), &failures));
    assert!(!is_recently_failed(&echo_on("b"), &failures));
    assert!(!tracker.has_similar_pending(&echo_on("a")));
    assert!(take_up(&mut tracker, &echo_on("a"), &failures).is_none());
    assert!(take_up(&mut tracker, &echo_on("a"), &vec![]).is_some());
}

#[test]
fn goals_hear_of_the_outcome() {
    let mut tracker = ActionTracker::new();
    let report = BrainAction::UpdateGoalProgress {
        goal_id: "g".to_string(),
        progress_percent: 10,
        notes: None,
    };
    assert_eq!(extract_goal_id(&report), Some("g".to_string()));
    assert_eq!(extract_goal_id(&echo_on("a")), None);
    let id = take_up(&mut tracker, &report, &vec![]).unwrap();
    assert!(!settle_at(&mut tracker, &id, extract_goal_id(&report), Outcome::Done, 5));
    let id = take_up(&mut tracker, &report, &vec![]).unwrap();
    assert!(settle_at(
        &mut tracker,
        &id,
        extract_goal_id(&report),
        Outcome::Failed { message: "no leader".to_string() },
        61_000
    ));
    let p = tracker.get_goal_progress("g").unwrap();
    assert_eq!((p.actions_proposed, p.actions_completed, p.actions_failed), (2, 1, 1));
    assert_eq!(p.estimated_progress, 50);
    assert_eq!(p.notes, vec!["[00:01:01] no leader"]);
    assert_eq!(p.last_planned, 61_000);
    let stats = tracker.get_stats();
    assert_eq!((stats.completed, stats.pending, stats.failed), (1, 1, 0));
}

#[test]
fn texts_and_times() {
    assert_eq!(decimal_text(0), "0");
    assert_eq!(decimal_text(10), "10");
    assert_eq!(decimal_text(u64::MAX), "18446744073709551615");
    assert_eq!(time_of_day_text(0), "00:00:00");
    assert_eq!(time_of_day_text(86_399_999), "23:59:59");
    assert_eq!(time_of_day_text(86_400_000), "00:00:00");
    assert_eq!(time_of_day_text(-1_000), "23:59:59");
    assert_eq!(time_of_day_text(i64::MAX), "07:12:55");
    assert_eq!(time_of_day_text(i64::MIN), "16:47:04");
    assert_eq!(first_lines("a\nb\r\nc\n", 2), "a\nb");
    assert_eq!(first_lines("a\nb\r\nc\n", 3), "a\nb\nc");
    assert_eq!(first_lines("a\nb", 0), "");
    assert_eq!(first_lines("", 5), "");
    assert_eq!(first_lines("\n\nx", 5), "\n\nx");
    let v = vec!["a".to_string(), "bc".to_string()];
    assert_eq!(clone_strings(&v), v);
    assert!(contains_str(&v, "bc"));
    assert!(!contains_str(&v, "b"));
}
