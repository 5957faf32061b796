use flockmind::state_machine::HiveState;
use flockmind::store::KeyedStore;
use flockmind::types::{
    Attachment, AttachmentKind, ClusterCommand, Goal, NodeHealth, NodeMetrics, NodeStatus, Task,
    TaskPayload, TaskStatus,
};

fn now() -> i64 {
    chrono::Utc::now().timestamp_millis()
}

fn node(id: &str, host: &str, tags: Vec<String>, cpu: f32, mem: f32, disk: f32) -> NodeStatus {
    NodeStatus {
        node_id: id.to_string(),
        hostname: host.to_string(),
        tags,
        health: NodeHealth::Healthy,
        last_heartbeat: now(),
        cpu_usage: cpu.to_bits(),
        memory_usage: mem.to_bits(),
        disk_usage: disk.to_bits(),
    }
}

fn echo_task(id: &str, status: TaskStatus) -> Task {
    Task {
        id: id.to_string(),
        target_node: "node-1".to_string(),
        payload: TaskPayload::Echo { message: "hello".to_string() },
        status,
        priority: 5,
        created_at: now(),
        updated_at: now(),
        result: None,
    }
}

#[test]
fn test_hive_state_new() {
    let state = HiveState::new();
    assert!(state.nodes.is_empty());
    assert!(state.tasks.is_empty());
    assert!(state.attachments.is_empty());
    assert!(state.goals.is_empty());
    assert_eq!(state.last_applied_index, 0);
}

#[test]
fn test_apply_register_node() {
    let mut state = HiveState::new();
    let cmd = ClusterCommand::RegisterNode(node(
        "node-1",
        "host1",
        vec!["gpu".to_string()],
        0.5,
        0.3,
        0.2,
    ));

    state.apply(&cmd);

    assert_eq!(state.nodes.len(), 1);
    assert!(state.nodes.contains_key("node-1"));
    assert_eq!(state.nodes.get("node-1").unwrap().hostname, "host1");
}

#[test]
fn test_apply_update_node_health() {
    let mut state = HiveState::new();

    state.apply(&ClusterCommand::RegisterNode(node("node-1", "host1", vec![], 0.0, 0.0, 0.0)));

    state.apply(&ClusterCommand::UpdateNodeHealth {
        node_id: "node-1".to_string(),
        health: NodeHealth::Degraded { reason: "high cpu".to_string() },
        metrics: NodeMetrics {
            cpu_usage: 0.95f32.to_bits(),
            memory_usage: 0.5f32.to_bits(),
            disk_usage: 0.3f32.to_bits(),
        },
    });

    let node = state.nodes.get("node-1").unwrap();
    assert!(matches!(node.health, NodeHealth::Degraded { .. }));
    assert_eq!(f32::from_bits(node.cpu_usage), 0.95);
}

#[test]
fn test_apply_remove_node() {
    let mut state = HiveState::new();

    state.apply(&ClusterCommand::RegisterNode(node("node-1", "host1", vec![], 0.0, 0.0, 0.0)));

    assert_eq!(state.nodes.len(), 1);

    state.apply(&ClusterCommand::RemoveNode { node_id: "node-1".to_string() });

    assert!(state.nodes.is_empty());
}

#[test]
fn test_apply_put_task() {
    let mut state = HiveState::new();
    let task = echo_task("task-1", TaskStatus::Pending);

    state.apply(&ClusterCommand::PutTask(task));

    assert_eq!(state.tasks.len(), 1);
    assert!(state.tasks.contains_key("task-1"));
}

#[test]
fn test_apply_update_task_status() {
    let mut state = HiveState::new();

    state.apply(&ClusterCommand::PutTask(echo_task("task-1", TaskStatus::Pending)));

    state.apply(&ClusterCommand::UpdateTaskStatus {
        task_id: "task-1".to_string(),
        status: TaskStatus::Completed,
        result: Some("{\"output\":\"done\"}".to_string()),
    });

    let task = state.tasks.get("task-1").unwrap();
    assert_eq!(task.status, TaskStatus::Completed);
    assert!(task.result.is_some());
}

#[test]
fn test_apply_put_attachment() {
    let mut state = HiveState::new();
    let attachment = Attachment {
        id: "attach-1".to_string(),
        node_id: "node-1".to_string(),
        kind: AttachmentKind::Directory { path: "/data".to_string() },
        capabilities: vec!["read".to_string(), "write".to_string()],
        metadata: KeyedStore::new(),
        created_at: now(),
    };

    state.apply(&ClusterCommand::PutAttachment(attachment));

    assert_eq!(state.attachments.len(), 1);
    assert!(state.attachments.contains_key("attach-1"));
}

#[test]
fn test_apply_remove_attachment() {
    let mut state = HiveState::new();

    state.apply(&ClusterCommand::PutAttachment(Attachment {
        id: "attach-1".to_string(),
        node_id: "node-1".to_string(),
        kind: AttachmentKind::Directory { path: "/data".to_string() },
        capabilities: vec![],
        metadata: KeyedStore::new(),
        created_at: now(),
    }));

    assert_eq!(state.attachments.len(), 1);

    state.apply(&ClusterCommand::RemoveAttachment { attachment_id: "attach-1".to_string() });

    assert!(state.attachments.is_empty());
}

#[test]
fn test_apply_put_goal() {
    let mut state = HiveState::new();
    let goal = Goal {
        id: "goal-1".to_string(),
        description: "Keep nginx running".to_string(),
        constraints: vec!["at least 2 replicas".to_string()],
        priority: 5,
        active: true,
        created_at: now(),
    };

    state.apply(&ClusterCommand::PutGoal(goal));

    assert_eq!(state.goals.len(), 1);
    assert!(state.goals.contains_key("goal-1"));
}

#[test]
fn test_apply_remove_goal() {
    let mut state = HiveState::new();

    state.apply(&ClusterCommand::PutGoal(Goal {
        id: "goal-1".to_string(),
        description: "Test".to_string(),
        constraints: vec![],
        priority: 5,
        active: true,
        created_at: now(),
    }));

    state.apply(&ClusterCommand::RemoveGoal { goal_id: "goal-1".to_string() });

    assert!(state.goals.is_empty());
}

#[test]
fn apply_twice_is_apply_once_for_storing_commands() {
    let mut once = HiveState::new();
    let mut twice = HiveState::new();
    let cmd = ClusterCommand::PutTask(echo_task("task-1", TaskStatus::Pending));
    once.apply_at(&cmd, 10);
    twice.apply_at(&cmd, 10);
    twice.apply_at(&cmd, 20);
    assert_eq!(once.tasks.len(), 1);
    assert_eq!(twice.tasks.len(), 1);
    assert_eq!(
        once.tasks.get("task-1").unwrap().status,
        twice.tasks.get("task-1").unwrap().status
    );
    let gone = ClusterCommand::RemoveNode { node_id: "nobody".to_string() };
    twice.apply(&gone);
    twice.apply(&gone);
    assert!(twice.nodes.is_empty());
}

#[test]
fn status_update_never_moves_a_task_backward() {
    let mut state = HiveState::new();
    state.apply(&ClusterCommand::PutTask(echo_task("task-1", TaskStatus::Running)));
    state.apply_at(
        &ClusterCommand::UpdateTaskStatus {
            task_id: "task-1".to_string(),
            status: TaskStatus::Pending,
            result: None,
        },
        77,
    );
    let task = state.tasks.get("task-1").unwrap();
    assert_eq!(task.status, TaskStatus::Running);
    assert_ne!(task.updated_at, 77);

    state.apply_at(
        &ClusterCommand::UpdateTaskStatus {
            task_id: "task-1".to_string(),
            status: TaskStatus::Failed { error: "boom".to_string() },
            result: None,
        },
        78,
    );
    let task = state.tasks.get("task-1").unwrap();
    assert_eq!(task.status, TaskStatus::Failed { error: "boom".to_string() });
    assert_eq!(task.updated_at, 78);

    state.apply_at(
        &ClusterCommand::UpdateTaskStatus {
            task_id: "task-1".to_string(),
            status: TaskStatus::Running,
            result: None,
        },
        79,
    );
    assert_eq!(
        state.tasks.get("task-1").unwrap().status,
        TaskStatus::Failed { error: "boom".to_string() }
    );
}

#[test]
fn a_stored_task_never_moves_a_task_backward() {
    let mut state = HiveState::new();
    state.apply(&ClusterCommand::PutTask(echo_task("task-1", TaskStatus::Running)));

    let mut lower = echo_task("task-1", TaskStatus::Pending);
    lower.target_node = "node-2".to_string();
    lower.priority = 9;
    state.apply(&ClusterCommand::PutTask(lower));
    let task = state.tasks.get("task-1").unwrap();
    assert_eq!(task.status, TaskStatus::Running);
    assert_eq!(task.target_node, "node-1");
    assert_eq!(task.priority, 5);

    let mut same = echo_task("task-1", TaskStatus::Running);
    same.target_node = "node-3".to_string();
    state.apply(&ClusterCommand::PutTask(same));
    assert_eq!(state.tasks.get("task-1").unwrap().target_node, "node-3");

    state.apply(&ClusterCommand::PutTask(echo_task("task-1", TaskStatus::Cancelled)));
    assert_eq!(state.tasks.get("task-1").unwrap().status, TaskStatus::Cancelled);
    state.apply(&ClusterCommand::PutTask(echo_task("task-1", TaskStatus::Completed)));
    assert_eq!(state.tasks.get("task-1").unwrap().status, TaskStatus::Completed);
    state.apply(&ClusterCommand::PutTask(echo_task("task-1", TaskStatus::Scheduled)));
    assert_eq!(state.tasks.get("task-1").unwrap().status, TaskStatus::Completed);

    state.apply(&ClusterCommand::PutTask(echo_task("task-2", TaskStatus::Scheduled)));
    assert_eq!(state.tasks.get("task-2").unwrap().status, TaskStatus::Scheduled);
    assert_eq!(state.tasks.len(), 2);
}

#[test]
fn heartbeat_is_dated_by_the_state_machine() {
    let mut state = HiveState::new();
    let mut n = node("node-1", "host1", vec![], 0.0, 0.0, 0.0);
    n.last_heartbeat = 5;
    state.apply(&ClusterCommand::RegisterNode(n));
    state.apply_at(
        &ClusterCommand::UpdateNodeHealth {
            node_id: "node-1".to_string(),
            health: NodeHealth::Healthy,
            metrics: NodeMetrics { cpu_usage: 1, memory_usage: 2, disk_usage: 3 },
        },
        1234,
    );
    let n = state.nodes.get("node-1").unwrap();
    assert_eq!(n.last_heartbeat, 1234);
    assert_eq!((n.cpu_usage, n.memory_usage, n.disk_usage), (1, 2, 3));

    state.apply(&ClusterCommand::UpdateNodeHealth {
        node_id: "node-1".to_string(),
        health: NodeHealth::Healthy,
        metrics: NodeMetrics::default(),
    });
    assert!(state.nodes.get("node-1").unwrap().last_heartbeat > 1_600_000_000_000);

    state.apply(&ClusterCommand::UpdateNodeHealth {
        node_id: "node-2".to_string(),
        health: NodeHealth::Unreachable,
        metrics: NodeMetrics::default(),
    });
    assert_eq!(state.nodes.len(), 1);
}

#[test]
fn cluster_view_lists_the_tables_in_order() {
    let mut state = HiveState::new();
    state.apply(&ClusterCommand::RegisterNode(node("b", "hb", vec![], 0.0, 0.0, 0.0)));
    state.apply(&ClusterCommand::RegisterNode(node("a", "ha", vec![], 0.0, 0.0, 0.0)));
    state.apply(&ClusterCommand::RegisterNode(node("b", "hb2", vec![], 0.0, 0.0, 0.0)));
    let view = state.to_cluster_view(Some("b".to_string()), 5);
    assert_eq!(view.nodes.len(), 2);
    assert_eq!(view.nodes[0].hostname, "hb2");
    assert_eq!(view.nodes[1].node_id, "a");
    assert_eq!(view.leader_id, Some("b".to_string()));
    assert_eq!(view.term, 5);
    let copy = state.clone();
    assert_eq!(copy.nodes.len(), 2);
    assert_eq!(copy.nodes.get("b").unwrap().hostname, "hb2");
}
