use flockmind::codec::{decode_tokens, encode_tokens, Token};
use flockmind::snapshot::{decode, encode};
use flockmind::state_machine::HiveState;
use flockmind::store::KeyedStore;
use flockmind::types::{
    Attachment, AttachmentKind, ClusterCommand, Goal, NodeHealth, NodeStatus, Task, TaskPayload,
    TaskStatus,
};

fn node(id: &str, health: NodeHealth, beat: i64) -> NodeStatus {
    NodeStatus {
        node_id: id.to_string(),
        hostname: format!("host of {}", id),
        tags: vec!["gpu".to_string(), "".to_string(), "é✓".to_string()],
        health,
        last_heartbeat: beat,
        cpu_usage: 0.95f32.to_bits(),
        memory_usage: u32::MAX,
        disk_usage: 0,
    }
}

fn task(id: &str, payload: TaskPayload, status: TaskStatus, result: Option<&str>) -> Task {
    Task {
        id: id.to_string(),
        target_node: "n1".to_string(),
        payload,
        status,
        priority: 255,
        created_at: i64::MIN,
        updated_at: i64::MAX,
        result: result.map(|r| r.to_string()),
    }
}

fn attachment(id: &str, kind: AttachmentKind) -> Attachment {
    let mut metadata = KeyedStore::new();
    metadata.insert("owner".to_string(), "ops".to_string());
    metadata.insert("".to_string(), "".to_string());
    Attachment {
        id: id.to_string(),
        node_id: "n1".to_string(),
        kind,
        capabilities: vec!["read".to_string()],
        metadata,
        created_at: -1,
    }
}

fn full_state() -> HiveState {
    let mut s = HiveState::new();
    for (i, health) in [
        NodeHealth::Healthy,
        NodeHealth::Degraded { reason: "slow".to_string() },
        NodeHealth::Unreachable,
        NodeHealth::Unknown,
    ]
    .into_iter()
    .enumerate()
    {
        s.apply(&ClusterCommand::RegisterNode(node(&format!("n{}", i), health, i as i64 - 2)));
    }
    let payloads = vec![
        TaskPayload::Echo { message: "m".to_string() },
        TaskPayload::SyncDirectory { src: "/a".to_string(), dst: "/b".to_string() },
        TaskPayload::RunCommand { command: "c".to_string(), args: vec!["x".to_string()] },
        TaskPayload::CheckService { service_name: "s".to_string() },
        TaskPayload::RestartService { service_name: "r".to_string() },
        TaskPayload::DockerRun { image: "i".to_string(), args: vec![] },
        TaskPayload::Custom { tool_id: "t".to_string(), args: "{\"k\":[1,2]}".to_string() },
    ];
    let statuses = vec![
        TaskStatus::Pending,
        TaskStatus::Scheduled,
        TaskStatus::Running,
        TaskStatus::Completed,
        TaskStatus::Failed { error: "e".to_string() },
        TaskStatus::Cancelled,
        TaskStatus::Pending,
    ];
    for (i, (p, st)) in payloads.into_iter().zip(statuses).enumerate() {
        let result = if i % 2 == 0 { Some("{}") } else { None };
        s.apply(&ClusterCommand::PutTask(task(&format!("t{}", i), p, st, result)));
    }
    let kinds = vec![
        AttachmentKind::Directory { path: "/d".to_string() },
        AttachmentKind::File { path: "/f".to_string() },
        AttachmentKind::DockerContainer { container_id: "c".to_string() },
        AttachmentKind::Service { name: "s".to_string(), unit: Some("s.service".to_string()) },
        AttachmentKind::Service { name: "s".to_string(), unit: None },
        AttachmentKind::Webhook { url: "http://h".to_string() },
        AttachmentKind::Custom { kind_name: "q".to_string(), config: "null".to_string() },
    ];
    for (i, k) in kinds.into_iter().enumerate() {
        s.apply(&ClusterCommand::PutAttachment(attachment(&format!("a{}", i), k)));
    }
    for (i, active) in [true, false].into_iter().enumerate() {
        s.apply(&ClusterCommand::PutGoal(Goal {
            id: format!("g{}", i),
            description: "d".to_string(),
            constraints: vec!["c1".to_string(), "c2".to_string()],
            priority: i as u8,
            active,
            created_at: 1_700_000_000_000,
        }));
    }
    s.nodes.insert("alias".to_string(), node("n0", NodeHealth::Healthy, 9));
    s.last_applied_index = u64::MAX;
    s
}

#[test]
fn snapshot_round_trip() {
    let state = full_state();
    let bytes = encode(&state);
    let back = decode(&bytes).unwrap();
    assert_eq!(format!("{:?}", back), format!("{:?}", state));
    assert_eq!(back.nodes.len(), 5);
    assert_eq!(back.tasks.len(), 7);
    assert_eq!(back.attachments.len(), 7);
    assert_eq!(back.goals.len(), 2);
    assert_eq!(back.last_applied_index, u64::MAX);
    assert_eq!(back.nodes.get("alias").unwrap().node_id, "n0");
    assert_eq!(back.tasks.get("t4").unwrap().status, TaskStatus::Failed { error: "e".to_string() });
    assert_eq!(back.tasks.get("t0").unwrap().created_at, i64::MIN);
    assert_eq!(back.tasks.get("t0").unwrap().updated_at, i64::MAX);
    assert_eq!(back.attachments.get("a0").unwrap().metadata.get(""), Some(&String::new()));
    assert_eq!(encode(&back), bytes);
}

#[test]
fn snapshot_of_the_empty_state() {
    let bytes = encode(&HiveState::new());
    assert_eq!(bytes.len(), 5 * 9);
    assert!(bytes.iter().all(|b| *b == 0));
    let back = decode(&bytes).unwrap();
    assert!(back.nodes.is_empty() && back.tasks.is_empty());
    assert_eq!(back.last_applied_index, 0);
}

#[test]
fn what_is_no_snapshot_is_refused() {
    let bytes = encode(&full_state());
    assert!(decode(&[]).is_none());
    assert!(decode(&bytes[..bytes.len() - 1]).is_none());
    assert!(decode(&bytes[..bytes.len() - 9]).is_none());
    let mut longer = bytes.clone();
    longer.extend_from_slice(&[0u8; 9]);
    assert!(decode(&longer).is_none());
    let mut wrong_tag = bytes.clone();
    wrong_tag[0] = 2;
    assert!(decode(&wrong_tag).is_none());
    let mut text_for_count = bytes.clone();
    text_for_count[0] = 1;
    assert!(decode(&text_for_count).is_none());
    assert!(decode(b"{\"nodes\":{}}").is_none());
}

#[test]
fn tokens_and_their_bytes() {
    let tokens = vec![
        Token::Num(0x0102),
        Token::Text("hé".to_string()),
        Token::Text(String::new()),
        Token::Num(u64::MAX),
    ];
    let bytes = encode_tokens(&tokens);
    let mut expected = vec![0u8, 2, 1, 0, 0, 0, 0, 0, 0];
    expected.extend_from_slice(&[1, 3, 0, 0, 0, 0, 0, 0, 0, b'h', 0xc3, 0xa9]);
    expected.extend_from_slice(&[1, 0, 0, 0, 0, 0, 0, 0, 0]);
    expected.extend_from_slice(&[0, 255, 255, 255, 255, 255, 255, 255, 255]);
    assert_eq!(bytes, expected);
    let back = decode_tokens(&bytes).unwrap();
    assert_eq!(format!("{:?}", back), format!("{:?}", tokens));
    assert!(decode_tokens(&[1, 1, 0, 0, 0, 0, 0, 0, 0, 0xff]).is_none());
    assert!(decode_tokens(&[1, 2, 0, 0, 0, 0, 0, 0, 0, b'a']).is_none());
    assert!(decode_tokens(&[1, 255, 255, 255, 255, 255, 255, 255, 255]).is_none());
    assert!(decode_tokens(&[0, 1, 2]).is_none());
    assert!(decode_tokens(&[]).unwrap().is_empty());
}
