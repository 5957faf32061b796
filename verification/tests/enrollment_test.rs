use flockmind::enrollment::{
    EnrollError, EnrollmentManager, EnrollmentRequest, NodeCertificate,
};

fn create_test_manager() -> EnrollmentManager {
    EnrollmentManager::new("test-cluster".to_string(), "-----BEGIN CERTIFICATE-----".to_string())
}

fn signed(node_id: &str) -> Result<NodeCertificate, String> {
    Ok(NodeCertificate {
        cert_pem: format!("cert of {}", node_id),
        key_pem: format!("key of {}", node_id),
        node_id: node_id.to_string(),
    })
}

fn request(token: String, node_id: &str, host: &str, tags: Vec<String>) -> EnrollmentRequest {
    EnrollmentRequest {
        token,
        node_id: node_id.to_string(),
        hostname: host.to_string(),
        hostnames: vec![],
        ips: vec![],
        tags,
    }
}

fn now() -> i64 {
    chrono::Utc::now().timestamp_millis()
}

#[test]
fn test_enrollment_manager_new() {
    let manager = create_test_manager();
    assert_eq!(manager.cluster_id(), "test-cluster");
    assert!(!manager.ca_cert_pem().is_empty());
}

#[test]
fn test_generate_token() {
    let mut manager = create_test_manager();
    let token = manager.generate_token(24, vec!["gpu".to_string()]);

    assert!(!token.token.is_empty());
    assert_eq!(token.cluster_id, "test-cluster");
    assert_eq!(token.allowed_tags, vec!["gpu".to_string()]);
}

#[test]
fn test_enroll_success() {
    let mut manager = create_test_manager();
    let token = manager.generate_token(24, vec![]);

    let req = EnrollmentRequest {
        token: token.token,
        node_id: "node-1".to_string(),
        hostname: "host1".to_string(),
        hostnames: vec!["localhost".to_string()],
        ips: vec!["127.0.0.1".to_string()],
        tags: vec!["dev".to_string()],
    };

    let resp = manager.enroll_with(req, now(), signed("node-1")).unwrap();
    assert_eq!(resp.node_id, "node-1");
    assert_eq!(resp.cluster_id, "test-cluster");
    assert!(!resp.node_cert_pem.is_empty());
    assert!(!resp.node_key_pem.is_empty());
    assert!(!resp.ca_cert_pem.is_empty());
}

#[test]
fn test_enroll_invalid_token() {
    let mut manager = create_test_manager();

    let req = request("invalid-token".to_string(), "node-1", "host1", vec![]);

    let result = manager.enroll_with(req, now(), signed("node-1"));
    assert!(result.is_err());
    assert!(result.unwrap_err().message().contains("Invalid enrollment token"));
}

#[test]
fn test_enroll_token_consumed() {
    let mut manager = create_test_manager();
    let token = manager.generate_token(24, vec![]);
    let token_str = token.token.clone();

    let req1 = request(token_str.clone(), "node-1", "host1", vec![]);

    manager.enroll_with(req1, now(), signed("node-1")).unwrap();

    let req2 = request(token_str, "node-2", "host2", vec![]);

    let result = manager.enroll_with(req2, now(), signed("node-2"));
    assert!(result.is_err());
}

#[test]
fn test_enroll_tag_restriction() {
    let mut manager = create_test_manager();
    let token = manager.generate_token(24, vec!["gpu".to_string()]);

    let req = request(token.token, "node-1", "host1", vec!["cpu".to_string()]);

    let result = manager.enroll_with(req, now(), signed("node-1"));
    assert!(result.is_err());
    assert!(result.unwrap_err().message().contains("not in allowed tags"));
}

#[test]
fn test_enroll_tag_restriction_success() {
    let mut manager = create_test_manager();
    let token = manager.generate_token(24, vec!["gpu".to_string(), "dev".to_string()]);

    let req = request(token.token, "node-1", "host1", vec!["gpu".to_string()]);

    let result = manager.enroll_with(req, now(), signed("node-1"));
    assert!(result.is_ok());
}

#[test]
fn test_register_enrolled_node() {
    let mut manager = create_test_manager();

    assert!(!manager.is_enrolled("node-1"));

    manager.register_enrolled_node(
        "node-1".to_string(),
        "host1".to_string(),
        "127.0.0.1:9000".to_string(),
        vec!["gpu".to_string()],
    );

    assert!(manager.is_enrolled("node-1"));
    assert!(!manager.is_enrolled("node-2"));
}

#[test]
fn test_get_enrolled_nodes() {
    let mut manager = create_test_manager();

    manager.register_enrolled_node(
        "node-1".to_string(),
        "host1".to_string(),
        "127.0.0.1:9000".to_string(),
        vec![],
    );
    manager.register_enrolled_node(
        "node-2".to_string(),
        "host2".to_string(),
        "127.0.0.1:9001".to_string(),
        vec![],
    );

    let nodes = manager.get_enrolled_nodes();
    assert_eq!(nodes.len(), 2);
}

#[test]
fn test_enroll_returns_peers() {
    let mut manager = create_test_manager();

    manager.register_enrolled_node(
        "node-1".to_string(),
        "host1".to_string(),
        "127.0.0.1:9000".to_string(),
        vec![],
    );

    let token = manager.generate_token(24, vec![]);
    let req = request(token.token, "node-2", "host2", vec![]);

    let resp = manager.enroll_with(req, now(), signed("node-2")).unwrap();

    assert_eq!(resp.peers.len(), 1);
    assert_eq!(resp.peers[0].node_id, "node-1");
    assert_eq!(resp.peers[0].addr, "127.0.0.1:9000");
}

#[test]
fn tokens_are_random_and_expire() {
    let mut manager = create_test_manager();
    let a = manager.generate_token(24, vec![]);
    let b = manager.generate_token(24, vec![]);
    assert_eq!(a.token.len(), 32);
    assert!(a.token.chars().all(|c| c.is_ascii_alphanumeric()));
    assert_ne!(a.token, b.token);
    let t = manager.generate_token_with("fixed".to_string(), 2, vec![], 1_000);
    assert_eq!(t.expires_at, 7_201_000);
    assert_eq!(manager.generate_token_with("m".to_string(), i64::MAX, vec![], 5).expires_at, i64::MAX);
    assert_eq!(manager.generate_token_with("n".to_string(), i64::MIN, vec![], 5).expires_at, i64::MIN);
    assert_eq!(manager.generate_token_with("p".to_string(), -1, vec![], 5).expires_at, -3_599_995);

    let at_expiry = manager.check(&request("fixed".to_string(), "n", "h", vec![]), 7_201_000);
    assert!(at_expiry.is_ok());
    let late = manager.enroll_with(request("fixed".to_string(), "n", "h", vec![]), 7_201_001, signed("n"));
    assert!(matches!(late, Err(EnrollError::Expired)));
    assert_eq!(late.unwrap_err().message(), "Enrollment token has expired");
    let gone = manager.check(&request("fixed".to_string(), "n", "h", vec![]), 0);
    assert!(matches!(gone, Err(EnrollError::InvalidToken)));
}

#[test]
fn a_failed_signing_keeps_the_token() {
    let mut manager = create_test_manager();
    manager.generate_token_with("t".to_string(), 1, vec!["gpu".to_string()], 0);
    let refused = manager.enroll_with(
        request("t".to_string(), "n", "h", vec!["cpu".to_string(), "x\"y".to_string()]),
        1,
        signed("n"),
    );
    assert_eq!(
        refused.unwrap_err().message(),
        "Node tags [\"cpu\", \"x\\\"y\"] not in allowed tags [\"gpu\"]"
    );
    let failed = manager.enroll_with(
        request("t".to_string(), "n", "h", vec!["gpu".to_string()]),
        1,
        Err("no key".to_string()),
    );
    assert_eq!(failed.unwrap_err().message(), "no key");
    let ok = manager
        .enroll_with(request("t".to_string(), "n", "h", vec!["gpu".to_string()]), 1, signed("n"))
        .unwrap();
    assert_eq!((ok.node_cert_pem.as_str(), ok.node_key_pem.as_str()), ("cert of n", "key of n"));
    assert_eq!(ok.ca_cert_pem, "-----BEGIN CERTIFICATE-----");
    assert!(ok.peers.is_empty());
    manager.register_enrolled_node_at("n".to_string(), "h".to_string(), "a:1".to_string(), vec![], 9);
    manager.register_enrolled_node_at("n".to_string(), "h".to_string(), "a:2".to_string(), vec![], 9);
    let nodes = manager.get_enrolled_nodes();
    assert_eq!(nodes.len(), 1);
    assert_eq!((nodes[0].addr.as_str(), nodes[0].enrolled_at), ("a:2", 9));
}
