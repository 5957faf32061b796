use flockmind::types::{ClusterView, NodeHealth, NodeStatus, Task, TaskPayload, TaskStatus};

fn stamp() -> i64 {
    chrono::Utc::now().timestamp_millis()
}

fn status(id: &str, host: &str, tags: Vec<String>, health: NodeHealth, cpu: f32) -> NodeStatus {
    NodeStatus {
        node_id: id.to_string(),
        hostname: host.to_string(),
        tags,
        health,
        last_heartbeat: stamp(),
        cpu_usage: cpu.to_bits(),
        memory_usage: 0.0f32.to_bits(),
        disk_usage: 0.0f32.to_bits(),
    }
}

fn task(id: &str, node: &str, message: &str, status: TaskStatus) -> Task {
    Task {
        id: id.to_string(),
        target_node: node.to_string(),
        payload: TaskPayload::Echo { message: message.to_string() },
        status,
        priority: 5,
        created_at: stamp(),
        updated_at: stamp(),
        result: None,
    }
}

#[test]
fn test_cluster_view_new() {
    let view = ClusterView::new();
    assert!(view.nodes.is_empty());
    assert!(view.tasks.is_empty());
    assert!(view.attachments.is_empty());
    assert!(view.goals.is_empty());
    assert!(view.leader_id.is_none());
    assert_eq!(view.term, 0);
}

#[test]
fn test_cluster_view_node_by_id() {
    let mut view = ClusterView::new();
    view.nodes.push(status("node-1", "host1", vec!["gpu".to_string()], NodeHealth::Healthy, 0.5));

    assert!(view.node_by_id("node-1").is_some());
    assert!(view.node_by_id("node-2").is_none());
}

#[test]
fn test_cluster_view_healthy_nodes() {
    let mut view = ClusterView::new();
    view.nodes.push(status("node-1", "host1", vec![], NodeHealth::Healthy, 0.0));
    view.nodes.push(status(
        "node-2",
        "host2",
        vec![],
        NodeHealth::Degraded { reason: "high load".to_string() },
        0.9,
    ));

    let healthy = view.healthy_nodes();
    assert_eq!(healthy.len(), 1);
    assert_eq!(healthy[0].node_id, "node-1");
}

#[test]
fn test_cluster_view_nodes_with_tag() {
    let mut view = ClusterView::new();
    view.nodes.push(status(
        "node-1",
        "host1",
        vec!["gpu".to_string(), "dev".to_string()],
        NodeHealth::Healthy,
        0.0,
    ));
    view.nodes.push(status("node-2", "host2", vec!["cpu".to_string()], NodeHealth::Healthy, 0.0));

    let gpu_nodes = view.nodes_with_tag("gpu");
    assert_eq!(gpu_nodes.len(), 1);
    assert_eq!(gpu_nodes[0].node_id, "node-1");
}

#[test]
fn test_cluster_view_pending_tasks() {
    let mut view = ClusterView::new();
    view.tasks.push(task("task-1", "node-1", "hello", TaskStatus::Pending));
    view.tasks.push(task("task-2", "node-1", "world", TaskStatus::Running));

    let pending = view.pending_tasks();
    assert_eq!(pending.len(), 1);
    assert_eq!(pending[0].id, "task-1");
}

#[test]
fn cluster_view_queries_keep_order_and_take_the_first_match() {
    let mut view = ClusterView::default();
    view.nodes.push(status("n", "first", vec![], NodeHealth::Unknown, 0.0));
    view.nodes.push(status("n", "second", vec![], NodeHealth::Healthy, 0.0));
    view.nodes.push(status("m", "third", vec![], NodeHealth::Healthy, 0.0));
    view.nodes.push(status("u", "fourth", vec![], NodeHealth::Unreachable, 0.0));
    assert_eq!(view.node_by_id("n").unwrap().hostname, "first");
    let healthy: Vec<&str> = view.healthy_nodes().iter().map(|n| n.hostname.as_str()).collect();
    assert_eq!(healthy, vec!["second", "third"]);
    assert!(view.nodes_with_tag("gpu").is_empty());

    view.tasks.push(task("t1", "a", "x", TaskStatus::Completed));
    view.tasks.push(task("t2", "b", "x", TaskStatus::Pending));
    view.tasks.push(task("t3", "a", "x", TaskStatus::Running));
    view.tasks.push(task("t4", "a", "x", TaskStatus::Pending));
    view.tasks.push(task("t5", "a", "x", TaskStatus::Scheduled));
    let for_a: Vec<&str> = view.tasks_for_node("a").iter().map(|t| t.id.as_str()).collect();
    assert_eq!(for_a, vec!["t1", "t3", "t4", "t5"]);
    assert_eq!(view.active_task_count("a"), 2);
    assert_eq!(view.active_task_count("b"), 1);
    assert_eq!(view.active_task_count("c"), 0);
}

#[test]
fn status_ranks_and_payload_tags() {
    let ranks: Vec<u8> = vec![
        TaskStatus::Pending,
        TaskStatus::Scheduled,
        TaskStatus::Running,
        TaskStatus::Completed,
        TaskStatus::Failed { error: "e".to_string() },
        TaskStatus::Cancelled,
    ]
    .iter()
    .map(|s| s.rank())
    .collect();
    assert_eq!(ranks, vec![0, 1, 2, 3, 3, 3]);
    assert!(TaskStatus::Pending.is_active());
    assert!(TaskStatus::Running.is_active());
    assert!(!TaskStatus::Scheduled.is_active());
    assert_eq!(TaskPayload::Echo { message: String::new() }.tag(), 0);
    assert_eq!(TaskPayload::Custom { tool_id: String::new(), args: String::new() }.tag(), 6);
    assert!(NodeHealth::Healthy.is_healthy());
    assert!(!NodeHealth::Unknown.is_healthy());
}
