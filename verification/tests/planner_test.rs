use flockmind::planner::{
    actions_from_raw, build_action, build_input, find_fields, has_active_goal, kind_in_words,
    kind_name_of,
    parse_action, plan_step, user_prompt, ActionFields, NoOpBrain, ParseError, PlanStep, RawAction,
};
use flockmind::store::KeyedStore;
use flockmind::types::{
    Attachment, AttachmentKind, BrainAction, ClusterView, Goal, NodeHealth, NodeStatus, Task,
    TaskPayload, TaskStatus,
};

fn raw(kind: &str, fields: &str) -> RawAction {
    RawAction { action_type: kind.to_string(), fields: fields.to_string() }
}

fn no_fields() -> ActionFields {
    ActionFields {
        has_task: false,
        task_type: None,
        message: None,
        src: None,
        dst: None,
        service_name: None,
        target_node: None,
        priority: None,
        task_id: None,
        to_node: None,
        goal_id: None,
        progress_percent: None,
        notes: None,
        node_id: None,
        reason: None,
        action_description: None,
        severity: None,
    }
}

fn goal(id: &str, active: bool) -> Goal {
    Goal {
        id: id.to_string(),
        description: format!("about {}", id),
        constraints: vec![],
        priority: 7,
        active,
        created_at: 0,
    }
}

fn node(id: &str, health: NodeHealth) -> NodeStatus {
    NodeStatus {
        node_id: id.to_string(),
        hostname: format!("host-{}", id),
        tags: vec!["t".to_string()],
        health,
        last_heartbeat: 0,
        cpu_usage: 1,
        memory_usage: 2,
        disk_usage: 3,
    }
}

fn task(id: &str, node: &str, status: TaskStatus) -> Task {
    Task {
        id: id.to_string(),
        target_node: node.to_string(),
        payload: TaskPayload::Echo { message: String::new() },
        status,
        priority: 0,
        created_at: 0,
        updated_at: 0,
        result: None,
    }
}

#[test]
fn schedule_task_is_read_from_json() {
    let action = parse_action(&raw(
        "ScheduleTask",
        r#"{"task":{"type":"SyncDirectory","src":"/a \"b\"","dst":"/c"},"target_node":"n1","priority":9}"#,
    ))
    .unwrap();
    match action {
        BrainAction::ScheduleTask {
            task: TaskPayload::SyncDirectory { src, dst },
            target_node,
            priority,
        } => {
            assert_eq!(src, "/a \"b\"");
            assert_eq!(dst, "/c");
            assert_eq!(target_node, "n1");
            assert_eq!(priority, 9);
        }
        other => panic!("{:?}", other),
    }
}

#[test]
fn missing_members_take_their_defaults() {
    match parse_action(&raw("ScheduleTask", r#"{"task":{"type":"Echo","message":7}}"#)).unwrap() {
        BrainAction::ScheduleTask { task: TaskPayload::Echo { message }, target_node, priority } => {
            assert_eq!(message, "");
            assert_eq!(target_node, "");
            assert_eq!(priority, 5);
        }
        other => panic!("{:?}", other),
    }
    match parse_action(&raw("ScheduleTask", r#"{"task":{"type":"Echo"},"priority":261}"#)).unwrap()
    {
        BrainAction::ScheduleTask { priority, .. } => assert_eq!(priority, 5),
        other => panic!("{:?}", other),
    }
    match parse_action(&raw("ScheduleTask", r#"{"task":{"type":"Echo"},"priority":-1}"#)).unwrap() {
        BrainAction::ScheduleTask { priority, .. } => assert_eq!(priority, 5),
        other => panic!("{:?}", other),
    }
    match parse_action(&raw("RequestHumanApproval", "{}")).unwrap() {
        BrainAction::RequestHumanApproval { action_description, severity } => {
            assert_eq!(action_description, "");
            assert_eq!(severity, "medium");
        }
        other => panic!("{:?}", other),
    }
    match parse_action(&raw("UpdateGoalProgress", r#"{"goal_id":"g","notes":"fine"}"#)).unwrap() {
        BrainAction::UpdateGoalProgress { goal_id, progress_percent, notes } => {
            assert_eq!(goal_id, "g");
            assert_eq!(progress_percent, 0);
            assert_eq!(notes, Some("fine".to_string()));
        }
        other => panic!("{:?}", other),
    }
    match parse_action(&raw("UpdateGoalProgress", r#"{"progress_percent":50,"notes":3}"#)).unwrap() {
        BrainAction::UpdateGoalProgress { goal_id, progress_percent, notes } => {
            assert_eq!(goal_id, "");
            assert_eq!(progress_percent, 50);
            assert_eq!(notes, None);
        }
        other => panic!("{:?}", other),
    }
}

#[test]
fn every_kind_of_action_parses() {
    assert!(matches!(
        parse_action(&raw("RebalanceTask", r#"{"task_id":"t","to_node":"n"}"#)).unwrap(),
        BrainAction::RebalanceTask { task_id, to_node } if task_id == "t" && to_node == "n"
    ));
    assert!(matches!(
        parse_action(&raw("CancelTask", r#"{"task_id":"t"}"#)).unwrap(),
        BrainAction::CancelTask { task_id } if task_id == "t"
    ));
    assert!(matches!(
        parse_action(&raw("MarkNodeDegraded", r#"{"node_id":"n","reason":"slow"}"#)).unwrap(),
        BrainAction::MarkNodeDegraded { node_id, reason } if node_id == "n" && reason == "slow"
    ));
    assert!(matches!(
        parse_action(&raw("NoOp", r#"{"reason":"calm"}"#)).unwrap(),
        BrainAction::NoOp { reason } if reason == "calm"
    ));
    assert!(matches!(
        parse_action(&raw("NoOp", "not json")).unwrap(),
        BrainAction::NoOp { reason } if reason.is_empty()
    ));
    for (kind, service) in [("CheckService", "nginx"), ("RestartService", "sshd")] {
        let text = format!(r#"{{"task":{{"type":"{}","service_name":"{}"}}}}"#, kind, service);
        match parse_action(&raw("ScheduleTask", &text)).unwrap() {
            BrainAction::ScheduleTask { task: TaskPayload::CheckService { service_name }, .. } => {
                assert_eq!((kind, service_name.as_str()), ("CheckService", "nginx"))
            }
            BrainAction::ScheduleTask { task: TaskPayload::RestartService { service_name }, .. } => {
                assert_eq!((kind, service_name.as_str()), ("RestartService", "sshd"))
            }
            other => panic!("{:?}", other),
        }
    }
}

#[test]
fn what_does_not_fit_the_schema_is_an_error() {
    let e = parse_action(&raw("ScheduleTask", r#"{"target_node":"n"}"#)).unwrap_err();
    assert!(matches!(e, ParseError::MissingTask));
    assert_eq!(e.message(), "Missing task");
    let e = parse_action(&raw("ScheduleTask", r#"{"task":{"message":"m"}}"#)).unwrap_err();
    assert_eq!(e.message(), "Missing task type");
    let e = parse_action(&raw("ScheduleTask", r#"{"task":"Echo"}"#)).unwrap_err();
    assert_eq!(e.message(), "Missing task type");
    let e = parse_action(&raw("ScheduleTask", r#"{"task":{"type":"DockerRun"}}"#)).unwrap_err();
    assert_eq!(e.message(), "Unknown task type: DockerRun");
    let e = parse_action(&raw("ScheduleTask", r#"{"task":{"type":"RunCommand"}}"#)).unwrap_err();
    assert_eq!(e.message(), "Unknown task type: RunCommand");
    let e = parse_action(&raw("Reboot", "{}")).unwrap_err();
    assert_eq!(e.message(), "Unknown action type: Reboot");
    let e = parse_action(&raw("noop", "{}")).unwrap_err();
    assert!(matches!(e, ParseError::UnknownActionType { .. }));
}

#[test]
fn build_action_on_given_fields() {
    let mut f = no_fields();
    assert!(matches!(build_action("ScheduleTask", &f), Err(ParseError::MissingTask)));
    f.has_task = true;
    assert!(matches!(build_action("ScheduleTask", &f), Err(ParseError::MissingTaskType)));
    f.task_type = Some("Echo".to_string());
    f.message = Some("hi".to_string());
    f.priority = Some(256 + 7);
    f.target_node = Some("n".to_string());
    match build_action("ScheduleTask", &f).unwrap() {
        BrainAction::ScheduleTask { task: TaskPayload::Echo { message }, target_node, priority } => {
            assert_eq!((message.as_str(), target_node.as_str(), priority), ("hi", "n", 7));
        }
        other => panic!("{:?}", other),
    }
    f.progress_percent = Some(u64::MAX);
    f.severity = Some("high".to_string());
    assert!(matches!(
        build_action("UpdateGoalProgress", &f).unwrap(),
        BrainAction::UpdateGoalProgress { progress_percent: 255, notes: None, .. }
    ));
    assert!(matches!(
        build_action("RequestHumanApproval", &f).unwrap(),
        BrainAction::RequestHumanApproval { severity, .. } if severity == "high"
    ));
    assert!(matches!(build_action("", &f), Err(ParseError::UnknownActionType { .. })));
}

#[test]
fn fields_are_looked_up_in_the_object_and_in_its_task() {
    let f = find_fields(
        r#"{"task":{"type":"Echo","message":"m","src":1},"message":"outer","priority":3,"reason":null}"#,
    );
    assert!(f.has_task);
    assert_eq!(f.task_type, Some("Echo".to_string()));
    assert_eq!(f.message, Some("m".to_string()));
    assert_eq!(f.src, None);
    assert_eq!(f.priority, Some(3));
    assert_eq!(f.reason, None);
    let f = find_fields(r#"["task"]"#);
    assert!(!f.has_task);
    assert_eq!(f.task_type, None);
    let f = find_fields(r#"{"task":null,"priority":1.5,"progress_percent":18446744073709551615}"#);
    assert!(f.has_task);
    assert_eq!(f.task_type, None);
    assert_eq!(f.priority, None);
    assert_eq!(f.progress_percent, Some(u64::MAX));
}

#[test]
fn unparseable_actions_are_skipped() {
    let raws = vec![
        raw("NoOp", r#"{"reason":"a"}"#),
        raw("Explode", "{}"),
        raw("ScheduleTask", "{}"),
        raw("CancelTask", r#"{"task_id":"t"}"#),
    ];
    let actions = actions_from_raw(&raws);
    assert_eq!(actions.len(), 2);
    assert!(matches!(&actions[0], BrainAction::NoOp { reason } if reason == "a"));
    assert!(matches!(&actions[1], BrainAction::CancelTask { task_id } if task_id == "t"));
    assert!(actions_from_raw(&vec![]).is_empty());
}

#[test]
fn the_idle_deliberator_says_disabled() {
    let actions = NoOpBrain.plan(&vec![goal("g", true)], &ClusterView::new(), &vec![]);
    assert_eq!(actions.len(), 1);
    assert!(matches!(&actions[0], BrainAction::NoOp { reason } if reason == "disabled"));
}

#[test]
fn without_active_goals_the_oracle_is_not_asked() {
    let view = ClusterView::new();
    assert!(!has_active_goal(&vec![]));
    assert!(!has_active_goal(&vec![goal("a", false)]));
    assert!(has_active_goal(&vec![goal("a", false), goal("b", true)]));
    match plan_step(&vec![goal("a", false)], &view, &vec![]) {
        PlanStep::Answer(actions) => {
            assert_eq!(actions.len(), 1);
            assert!(matches!(&actions[0], BrainAction::NoOp { reason } if reason == "No active goals"));
        }
        PlanStep::Ask(_) => panic!("asked"),
    }
    assert!(matches!(plan_step(&vec![goal("b", true)], &view, &vec![]), PlanStep::Ask(_)));
}

#[test]
fn the_oracle_is_told_a_summary() {
    let mut view = ClusterView::new();
    view.leader_id = Some("n1".to_string());
    view.nodes.push(node("n1", NodeHealth::Healthy));
    view.nodes.push(node("n2", NodeHealth::Unknown));
    view.nodes.push(node("n3", NodeHealth::Healthy));
    view.nodes.push(node("n4", NodeHealth::Degraded { reason: "r".to_string() }));
    view.tasks.push(task("t1", "n1", TaskStatus::Pending));
    view.tasks.push(task("t2", "n1", TaskStatus::Running));
    view.tasks.push(task("t3", "n1", TaskStatus::Completed));
    view.tasks.push(task("t4", "n4", TaskStatus::Running));
    view.tasks.push(task("t5", "n4", TaskStatus::Scheduled));
    let attachments = vec![
        Attachment {
            id: "a1".to_string(),
            node_id: "n1".to_string(),
            kind: AttachmentKind::Service { name: "nginx".to_string(), unit: None },
            capabilities: vec!["check_status".to_string()],
            metadata: KeyedStore::new(),
            created_at: 0,
        },
        Attachment {
            id: "a2".to_string(),
            node_id: "n2".to_string(),
            kind: AttachmentKind::Custom { kind_name: "queue".to_string(), config: "1".to_string() },
            capabilities: vec![],
            metadata: KeyedStore::new(),
            created_at: 0,
        },
    ];
    let input = build_input(&vec![goal("g1", true), goal("g2", false), goal("g3", true)], &view, &attachments);
    let ids: Vec<&str> = input.goals.iter().map(|g| g.id.as_str()).collect();
    assert_eq!(ids, vec!["g1", "g3"]);
    assert_eq!(input.goals[0].description, "about g1");
    assert_eq!(input.goals[0].priority, 7);
    assert_eq!(input.cluster.node_count, 4);
    let healthy: Vec<(&str, usize)> =
        input.cluster.healthy_nodes.iter().map(|n| (n.node_id.as_str(), n.task_count)).collect();
    assert_eq!(healthy, vec![("n1", 2), ("n3", 0)]);
    let degraded: Vec<(&str, usize)> =
        input.cluster.degraded_nodes.iter().map(|n| (n.node_id.as_str(), n.task_count)).collect();
    assert_eq!(degraded, vec![("n2", 0), ("n4", 1)]);
    assert_eq!(input.cluster.healthy_nodes[0].hostname, "host-n1");
    assert_eq!(input.cluster.healthy_nodes[0].tags, vec!["t"]);
    assert_eq!(input.cluster.healthy_nodes[0].disk_usage, 3);
    assert_eq!(input.cluster.pending_tasks, 1);
    assert_eq!(input.cluster.running_tasks, 2);
    assert_eq!(input.cluster.leader_id, Some("n1".to_string()));
    let kinds: Vec<&str> = input.attachments.iter().map(|a| a.kind.as_str()).collect();
    assert_eq!(
        kinds,
        vec!["Service { name: \"nginx\", unit: None }", "Custom { kind_name: \"queue\", config: 1 }"]
    );
    assert_eq!(
        kind_in_words(&AttachmentKind::Service {
            name: "a\"b".to_string(),
            unit: Some("a.service".to_string())
        }),
        "Service { name: \"a\\\"b\", unit: Some(\"a.service\") }"
    );
    assert_eq!(
        kind_in_words(&AttachmentKind::Directory { path: "/d\\e".to_string() }),
        "Directory { path: \"/d\\\\e\" }"
    );
    assert_eq!(
        kind_in_words(&AttachmentKind::File { path: "/f".to_string() }),
        "File { path: \"/f\" }"
    );
    assert_eq!(
        kind_in_words(&AttachmentKind::DockerContainer { container_id: "c".to_string() }),
        "DockerContainer { container_id: \"c\" }"
    );
    assert_eq!(
        kind_in_words(&AttachmentKind::Webhook { url: "http://h".to_string() }),
        "Webhook { url: \"http://h\" }"
    );
    assert_eq!(input.attachments[0].capabilities, vec!["check_status"]);
    assert_eq!(kind_name_of(&AttachmentKind::DockerContainer { container_id: "c".to_string() }), "docker");
    assert_eq!(kind_name_of(&AttachmentKind::Webhook { url: "u".to_string() }), "webhook");
}

#[test]
fn the_state_is_fenced_in_the_message() {
    assert_eq!(
        user_prompt("{\"a\":1}"),
        "Current state:\n```json\n{\"a\":1}\n```\n\nAnalyze and propose actions."
    );
}
