use flockmind::tracker::{is_similar_action, ActionStatus, ActionTracker};
use flockmind::types::{BrainAction, TaskPayload};

fn noop() -> BrainAction {
    BrainAction::NoOp { reason: "test".to_string() }
}

fn echo_on(node: &str, message: &str, priority: u8) -> BrainAction {
    BrainAction::ScheduleTask {
        task: TaskPayload::Echo { message: message.to_string() },
        target_node: node.to_string(),
        priority,
    }
}

#[test]
fn test_action_tracker_new() {
    let tracker = ActionTracker::new();
    let stats = tracker.get_stats();
    assert_eq!(stats.pending, 0);
    assert_eq!(stats.executing, 0);
    assert_eq!(stats.completed, 0);
    assert_eq!(stats.failed, 0);
}

#[test]
fn test_track_action() {
    let mut tracker = ActionTracker::new();
    let action = noop();

    let id = tracker.track_action(action);
    assert!(!id.is_empty());

    let stats = tracker.get_stats();
    assert_eq!(stats.pending, 1);
}

#[test]
fn test_mark_executing() {
    let mut tracker = ActionTracker::new();
    let action = noop();

    let id = tracker.track_action(action);
    tracker.mark_executing(&id);

    let stats = tracker.get_stats();
    assert_eq!(stats.pending, 0);
    assert_eq!(stats.executing, 1);
}

#[test]
fn test_mark_completed() {
    let mut tracker = ActionTracker::new();
    let action = noop();

    let id = tracker.track_action(action);
    tracker.mark_executing(&id);
    tracker.mark_completed(&id, Some("done".to_string()));

    let stats = tracker.get_stats();
    assert_eq!(stats.pending, 0);
    assert_eq!(stats.executing, 0);
    assert_eq!(stats.completed, 1);
}

#[test]
fn test_mark_failed_with_retry() {
    let mut tracker = ActionTracker::new();
    let action = noop();

    let id = tracker.track_action(action);
    tracker.mark_executing(&id);

    let should_retry = tracker.mark_failed(&id, Some("error".to_string()));
    assert!(should_retry);

    let stats = tracker.get_stats();
    assert_eq!(stats.pending, 1);
}

#[test]
fn test_mark_failed_max_retries() {
    let mut tracker = ActionTracker::new();
    let action = noop();

    let id = tracker.track_action(action);

    for i in 0..3 {
        tracker.mark_executing(&id);
        let should_retry = tracker.mark_failed(&id, Some(format!("error {}", i)));
        if i < 2 {
            assert!(should_retry);
        } else {
            assert!(!should_retry);
        }
    }

    let stats = tracker.get_stats();
    assert_eq!(stats.pending, 0);
    assert_eq!(stats.failed, 1);
}

#[test]
fn test_has_similar_pending() {
    let mut tracker = ActionTracker::new();

    let action1 = echo_on("node-1", "hello", 5);

    tracker.track_action(action1);

    let similar = echo_on("node-1", "world", 3);

    assert!(tracker.has_similar_pending(&similar));

    let different = echo_on("node-2", "hello", 5);

    assert!(!tracker.has_similar_pending(&different));
}

#[test]
fn test_goal_progress_tracking() {
    let mut tracker = ActionTracker::new();

    tracker.update_goal_progress("goal-1", true, Some("step 1 done".to_string()));
    tracker.update_goal_progress("goal-1", true, Some("step 2 done".to_string()));
    tracker.update_goal_progress("goal-1", false, Some("step 3 failed".to_string()));

    let progress = tracker.get_goal_progress("goal-1").unwrap();
    assert_eq!(progress.actions_proposed, 3);
    assert_eq!(progress.actions_completed, 2);
    assert_eq!(progress.actions_failed, 1);
    assert_eq!(progress.notes.len(), 3);
}

#[test]
fn test_is_similar_action_schedule_task() {
    let a = echo_on("node-1", "a", 5);

    let b = echo_on("node-1", "b", 3);

    let c = BrainAction::ScheduleTask {
        task: TaskPayload::CheckService { service_name: "nginx".to_string() },
        target_node: "node-1".to_string(),
        priority: 5,
    };

    assert!(is_similar_action(&a, &b));
    assert!(!is_similar_action(&a, &c));
}

#[test]
fn test_is_similar_action_cancel_task() {
    let a = BrainAction::CancelTask { task_id: "task-1".to_string() };
    let b = BrainAction::CancelTask { task_id: "task-1".to_string() };
    let c = BrainAction::CancelTask { task_id: "task-2".to_string() };

    assert!(is_similar_action(&a, &b));
    assert!(!is_similar_action(&a, &c));
}

#[test]
fn similarity_is_symmetric_and_reflexive_on_kinds_with_identity() {
    let actions = vec![
        echo_on("node-1", "a", 1),
        echo_on("node-2", "a", 1),
        BrainAction::RebalanceTask { task_id: "t".to_string(), to_node: "n".to_string() },
        BrainAction::RebalanceTask { task_id: "t".to_string(), to_node: "m".to_string() },
        BrainAction::CancelTask { task_id: "t".to_string() },
        BrainAction::MarkNodeDegraded { node_id: "n".to_string(), reason: "r".to_string() },
        BrainAction::MarkNodeDegraded { node_id: "n".to_string(), reason: "s".to_string() },
        noop(),
        BrainAction::RemoveAttachment { attachment_id: "a".to_string() },
    ];
    for a in &actions {
        for b in &actions {
            assert_eq!(is_similar_action(a, b), is_similar_action(b, a));
        }
    }
    for a in &actions[..7] {
        assert!(is_similar_action(a, a));
    }
    assert!(!is_similar_action(&actions[7], &actions[7]));
    assert!(!is_similar_action(&actions[8], &actions[8]));
    assert!(is_similar_action(&actions[2], &actions[3]));
    assert!(is_similar_action(&actions[5], &actions[6]));
    assert!(!is_similar_action(&actions[0], &actions[1]));
    assert!(!is_similar_action(&actions[2], &actions[4]));
}

#[test]
fn after_the_last_retry_nothing_similar_is_pending() {
    let mut tracker = ActionTracker::new();
    let action = echo_on("node-a", "x", 5);
    let id = tracker.track_action(action.clone());
    assert!(tracker.has_similar_pending(&action));
    assert!(tracker.mark_failed_at(&id, Some("one".to_string()), 1));
    assert!(tracker.has_similar_pending(&action));
    assert!(tracker.mark_failed_at(&id, None, 2));
    assert!(!tracker.mark_failed_at(&id, Some("three".to_string()), 3));
    assert!(!tracker.has_similar_pending(&action));
    let stats = tracker.get_stats();
    assert_eq!((stats.pending, stats.executing, stats.failed, stats.history_size), (0, 0, 1, 1));
    let failures = tracker.get_recent_failures(10);
    assert_eq!(failures.len(), 1);
    assert_eq!(failures[0].id, id);
    assert_eq!(failures[0].retry_count, 3);
    assert_eq!(failures[0].status, ActionStatus::Failed);
    let result = failures[0].result.as_ref().unwrap();
    assert!(!result.success);
    assert_eq!(result.message, Some("three".to_string()));
    assert_eq!(result.completed_at, 3);
    assert!(!tracker.mark_failed(&id, None));
    assert!(!tracker.mark_failed("unknown", None));
}

#[test]
fn stale_executing_actions_fail_with_timeout() {
    let mut tracker = ActionTracker::new();
    tracker.track_with("old".to_string(), noop(), 1_000);
    tracker.track_with("young".to_string(), noop(), 200_000);
    tracker.track_with("waiting".to_string(), noop(), 1_000);
    tracker.mark_executing_at("old", 1_000);
    tracker.mark_executing_at("young", 200_000);

    tracker.cleanup_stale_at(301_000);
    assert_eq!(tracker.get_stats().failed, 0);

    tracker.cleanup_stale_at(301_001);
    let stats = tracker.get_stats();
    assert_eq!((stats.pending, stats.executing, stats.failed), (1, 1, 1));
    let failures = tracker.get_recent_failures(5);
    assert_eq!(failures[0].id, "old");
    let result = failures[0].result.as_ref().unwrap();
    assert_eq!(result.message, Some("timeout".to_string()));
    assert_eq!(result.completed_at, 301_001);

    tracker.cleanup_stale();
    assert_eq!(tracker.get_stats().failed, 2);
    assert_eq!(tracker.get_pending_actions().len(), 1);
    assert_eq!(tracker.get_pending_actions()[0].id, "waiting");
}

#[test]
fn the_timeout_counts_from_the_start_of_the_execution() {
    let mut tracker = ActionTracker::new();
    tracker.track_with("a".to_string(), noop(), 0);
    tracker.cleanup_stale_at(1_000_000);
    assert_eq!(tracker.get_stats().pending, 1);

    tracker.mark_executing_at("a", 1_000_000);
    tracker.cleanup_stale_at(1_300_000);
    assert_eq!(tracker.get_stats().executing, 1);
    assert!(tracker.mark_failed_at("a", None, 1_300_000));
    assert_eq!(tracker.get_pending_actions()[0].started_at, None);
    tracker.cleanup_stale_at(9_000_000);
    assert_eq!(tracker.get_stats().pending, 1);

    tracker.mark_executing_at("a", 9_000_000);
    tracker.cleanup_stale_at(9_300_000);
    assert_eq!(tracker.get_stats().executing, 1);
    tracker.cleanup_stale_at(9_300_001);
    let stats = tracker.get_stats();
    assert_eq!((stats.executing, stats.failed), (0, 1));
    let failed = tracker.get_recent_failures(1);
    assert_eq!((failed[0].proposed_at, failed[0].started_at), (0, Some(9_000_000)));
    assert_eq!(failed[0].retry_count, 1);

    tracker.track_with("b".to_string(), noop(), 5);
    tracker.mark_executing("b");
    tracker.cleanup_stale();
    assert_eq!(tracker.get_stats().executing, 1);
}

#[test]
fn history_keeps_the_newest_thousand() {
    let mut tracker = ActionTracker::new();
    for i in 0..1003 {
        let id = format!("a{}", i);
        tracker.track_with(id.clone(), noop(), i);
        tracker.mark_completed_at(&id, None, i);
    }
    let stats = tracker.get_stats();
    assert_eq!(stats.history_size, 1000);
    assert_eq!(stats.completed, 1000);
    let recent = tracker.get_recent_actions(2);
    assert_eq!(recent.len(), 2);
    assert_eq!(recent[0].id, "a1002");
    assert_eq!(recent[1].id, "a1001");
    let all = tracker.get_recent_actions(5000);
    assert_eq!(all.len(), 1000);
    assert_eq!(all[999].id, "a3");
    assert_eq!(tracker.get_recent_failures(3).len(), 0);
}

#[test]
fn goal_progress_is_a_rounded_down_share_with_stamped_notes() {
    let mut tracker = ActionTracker::new();
    assert!(tracker.get_goal_progress("g").is_none());
    tracker.update_goal_progress_at("g", true, Some("first".to_string()), 3_723_004);
    tracker.update_goal_progress_at("g", false, None, 3_723_005);
    tracker.update_goal_progress_at("g", false, Some("third".to_string()), -1);
    let p = tracker.get_goal_progress("g").unwrap();
    assert_eq!(p.goal_id, "g");
    assert_eq!(p.last_planned, -1);
    assert_eq!((p.actions_proposed, p.actions_completed, p.actions_failed), (3, 1, 2));
    assert_eq!(p.estimated_progress, 33);
    assert_eq!(p.notes, vec!["[01:02:03] first".to_string(), "[23:59:59] third".to_string()]);
    for i in 0..60 {
        tracker.update_goal_progress_at("g", true, Some(format!("n{}", i)), 0);
    }
    let p = tracker.get_goal_progress("g").unwrap();
    assert_eq!(p.notes.len(), 50);
    assert_eq!(p.notes[49], "[00:00:00] n59");
    assert_eq!(p.notes[0], "[00:00:00] n10");
    assert_eq!(p.estimated_progress, 96);
}
