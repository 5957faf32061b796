use flockmind::executor::{command_for, HiveExecutor, TaskError};
use flockmind::types::{
    AttachmentKind, BrainAction, ClusterCommand, ClusterView, NodeHealth, NodeMetrics, NodeStatus,
    Task, TaskPayload, TaskStatus,
};
use flockmind::validator::ExecutionPolicy;

fn view() -> ClusterView {
    let mut v = ClusterView::new();
    v.nodes.push(NodeStatus {
        node_id: "n1".to_string(),
        hostname: "h".to_string(),
        tags: vec![],
        health: NodeHealth::Healthy,
        last_heartbeat: 0,
        cpu_usage: 0,
        memory_usage: 0,
        disk_usage: 0,
    });
    v.tasks.push(task("t1", "n1", TaskStatus::Running, 4));
    v.tasks.push(task("t1", "n9", TaskStatus::Completed, 9));
    v
}

fn task(id: &str, node: &str, status: TaskStatus, priority: u8) -> Task {
    Task {
        id: id.to_string(),
        target_node: node.to_string(),
        payload: TaskPayload::Echo { message: "m".to_string() },
        status,
        priority,
        created_at: 1,
        updated_at: 2,
        result: Some("1".to_string()),
    }
}

#[test]
fn a_scheduled_task_is_stored_as_pending() {
    let action = BrainAction::ScheduleTask {
        task: TaskPayload::Echo { message: "hi".to_string() },
        target_node: "n1".to_string(),
        priority: 8,
    };
    match command_for(action, &view(), "id-1".to_string(), 50).unwrap() {
        ClusterCommand::PutTask(t) => {
            assert_eq!((t.id.as_str(), t.target_node.as_str(), t.priority), ("id-1", "n1", 8));
            assert_eq!(t.status, TaskStatus::Pending);
            assert_eq!((t.created_at, t.updated_at), (50, 50));
            assert!(t.result.is_none());
            assert!(matches!(t.payload, TaskPayload::Echo { message } if message == "hi"));
        }
        other => panic!("{:?}", other),
    }
}

fn rebalance(task: &str) -> BrainAction {
    BrainAction::RebalanceTask { task_id: task.to_string(), to_node: "n2".to_string() }
}

#[test]
fn a_rebalance_moves_the_first_task_of_that_name() {
    let mut v = view();
    v.tasks.insert(0, task("t2", "n1", TaskStatus::Pending, 4));
    v.tasks.push(task("t2", "n9", TaskStatus::Completed, 9));
    v.tasks.push(task("t3", "n1", TaskStatus::Scheduled, 3));
    match command_for(rebalance("t2"), &v, "unused".to_string(), 60).unwrap() {
        ClusterCommand::PutTask(t) => {
            assert_eq!((t.id.as_str(), t.target_node.as_str(), t.priority), ("t2", "n2", 4));
            assert_eq!(t.status, TaskStatus::Pending);
            assert_eq!((t.created_at, t.updated_at), (1, 60));
            assert_eq!(t.result, Some("1".to_string()));
        }
        other => panic!("{:?}", other),
    }
    match command_for(rebalance("t3"), &v, "unused".to_string(), 61).unwrap() {
        ClusterCommand::PutTask(t) => {
            assert_eq!((t.target_node.as_str(), t.updated_at), ("n2", 61));
            assert_eq!(t.status, TaskStatus::Scheduled);
        }
        other => panic!("{:?}", other),
    }
    assert!(command_for(rebalance("t7"), &v, "unused".to_string(), 60).is_none());
}

#[test]
fn a_task_that_has_begun_to_run_stays_where_it_is() {
    let mut v = view();
    v.tasks.push(task("t4", "n1", TaskStatus::Failed { error: "e".to_string() }, 1));
    v.tasks.push(task("t5", "n1", TaskStatus::Cancelled, 1));
    assert!(command_for(rebalance("t1"), &v, "unused".to_string(), 60).is_none());
    assert!(command_for(rebalance("t4"), &v, "unused".to_string(), 60).is_none());
    assert!(command_for(rebalance("t5"), &v, "unused".to_string(), 60).is_none());
    let executor = HiveExecutor::new("n1".to_string(), ExecutionPolicy::default());
    assert!(executor.execute(rebalance("t1"), &v).is_err());
    let mut second = view().nodes.remove(0);
    second.node_id = "n2".to_string();
    v.nodes.push(second);
    assert!(executor.execute(rebalance("t1"), &v).unwrap().is_none());
}

#[test]
fn the_other_actions_and_their_commands() {
    let v = view();
    assert!(matches!(
        command_for(BrainAction::CancelTask { task_id: "t".to_string() }, &v, String::new(), 0),
        Some(ClusterCommand::UpdateTaskStatus { task_id, status: TaskStatus::Cancelled, result: None })
            if task_id == "t"
    ));
    match command_for(
        BrainAction::MarkNodeDegraded { node_id: "n".to_string(), reason: "slow".to_string() },
        &v,
        String::new(),
        0,
    ) {
        Some(ClusterCommand::UpdateNodeHealth { node_id, health, metrics }) => {
            assert_eq!(node_id, "n");
            assert_eq!(health, NodeHealth::Degraded { reason: "slow".to_string() });
            assert_eq!(metrics, NodeMetrics { cpu_usage: 0, memory_usage: 0, disk_usage: 0 });
        }
        other => panic!("{:?}", other),
    }
    match command_for(
        BrainAction::CreateAttachment {
            node_id: "n".to_string(),
            kind: AttachmentKind::File { path: "/f".to_string() },
            capabilities: vec!["read".to_string()],
        },
        &v,
        "att".to_string(),
        7,
    ) {
        Some(ClusterCommand::PutAttachment(a)) => {
            assert_eq!((a.id.as_str(), a.node_id.as_str(), a.created_at), ("att", "n", 7));
            assert_eq!(a.capabilities, vec!["read"]);
            assert!(a.metadata.is_empty());
        }
        other => panic!("{:?}", other),
    }
    assert!(matches!(
        command_for(BrainAction::RemoveAttachment { attachment_id: "a".to_string() }, &v, String::new(), 0),
        Some(ClusterCommand::RemoveAttachment { attachment_id }) if attachment_id == "a"
    ));
    for quiet in [
        BrainAction::NoOp { reason: "r".to_string() },
        BrainAction::RequestHumanApproval { action_description: "d".to_string(), severity: "s".to_string() },
        BrainAction::UpdateGoalProgress { goal_id: "g".to_string(), progress_percent: 3, notes: None },
    ] {
        assert!(command_for(quiet, &v, String::new(), 0).is_none());
    }
}

#[test]
fn validator_blocks_dangerous_sync_and_no_task_is_written() {
    let executor = HiveExecutor::new("n1".to_string(), ExecutionPolicy::default());
    let action = BrainAction::ScheduleTask {
        task: TaskPayload::SyncDirectory { src: "/etc/nginx".to_string(), dst: "/home/b".to_string() },
        target_node: "n1".to_string(),
        priority: 5,
    };
    let r = executor.execute(action, &view());
    assert!(r.unwrap_err().message().contains("blocked"));

    let fine = BrainAction::ScheduleTask {
        task: TaskPayload::SyncDirectory { src: "/home/a".to_string(), dst: "/data/b".to_string() },
        target_node: "n1".to_string(),
        priority: 5,
    };
    match executor.execute(fine, &view()).unwrap() {
        Some(ClusterCommand::PutTask(t)) => {
            assert_eq!(t.id.len(), 36);
            assert!(t.created_at > 1_600_000_000_000);
            assert_eq!(t.created_at, t.updated_at);
        }
        other => panic!("{:?}", other),
    }
    assert!(executor
        .execute_with(BrainAction::NoOp { reason: String::new() }, &view(), String::new(), 0)
        .unwrap()
        .is_none());
}

#[test]
fn a_task_runs_only_on_its_node_and_ends_completed_or_failed() {
    let executor = HiveExecutor::new("n1".to_string(), ExecutionPolicy::default());
    let mine = task("t1", "n1", TaskStatus::Pending, 1);
    let other = task("t2", "n2", TaskStatus::Pending, 1);
    assert!(matches!(
        executor.begin_task(&mine).unwrap(),
        ClusterCommand::UpdateTaskStatus { task_id, status: TaskStatus::Running, result: None }
            if task_id == "t1"
    ));
    let e = executor.begin_task(&other).unwrap_err();
    assert!(matches!(e, TaskError::WrongNode { .. }));
    assert_eq!(e.message(), "Task t2 targeted at n2, but this is node n1");

    let (cmd, result) = executor.finish_task(&mine, Ok("{\"echoed\":\"hi\"}".to_string()));
    assert_eq!(result.unwrap(), "{\"echoed\":\"hi\"}");
    assert!(matches!(
        cmd,
        ClusterCommand::UpdateTaskStatus { task_id, status: TaskStatus::Completed, result: Some(v) }
            if task_id == "t1" && v == "{\"echoed\":\"hi\"}"
    ));
    let (cmd, result) = executor.finish_task(&mine, Err("boom".to_string()));
    assert_eq!(result.unwrap_err().message(), "Task failed");
    assert!(matches!(
        cmd,
        ClusterCommand::UpdateTaskStatus { status: TaskStatus::Failed { error }, result: None, .. }
            if error == "boom"
    ));
}
