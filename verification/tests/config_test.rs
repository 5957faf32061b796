use flockmind::config::{
    named_or_unknown, LlmConfig, LlmSettings, NodeConfig, PeerConfig, PolicySettings,
};
use flockmind::network::HiveNetworkFactory;

#[test]
fn default_configuration() {
    let c = NodeConfig::default();
    assert!(c.node_id.is_none());
    assert!(c.hostname.is_none());
    assert!(c.tags.is_empty());
    assert_eq!(c.bind_addr, "0.0.0.0");
    assert_eq!(c.bind_port, 9000);
    assert_eq!(c.data_dir, "/var/lib/flockmind");
    assert!(c.peers.is_empty());
    assert_eq!(c.heartbeat_interval_secs, 10);
    assert_eq!(c.planning_interval_secs, 30);
    assert!(!c.llm.enabled);
    assert_eq!(c.llm.api_key_env, "OPENAI_API_KEY");
    assert_eq!(c.llm.model, "gpt-4o-mini");
    assert_eq!(c.llm.max_tokens, 2048);
    assert_eq!(f32::from_bits(c.llm.temperature), 0.1);
    assert_eq!(c.policy.max_concurrent_tasks_per_node, 5);
    assert_eq!(c.listen_addr(), "0.0.0.0:9000");
}

#[test]
fn listen_address_and_identity() {
    let mut c = NodeConfig::default();
    c.bind_addr = "127.0.0.1".to_string();
    c.bind_port = 0;
    assert_eq!(c.listen_addr(), "127.0.0.1:0");
    c.bind_port = 65535;
    assert_eq!(c.listen_addr(), "127.0.0.1:65535");
    let a = c.effective_node_id();
    let b = c.effective_node_id();
    assert_eq!(a.len(), 36);
    assert_eq!(a.matches('-').count(), 4);
    assert_ne!(a, b);
    c.node_id = Some("fixed".to_string());
    assert_eq!(c.effective_node_id(), "fixed");
    assert!(!c.effective_hostname().is_empty());
    c.hostname = Some("alpha".to_string());
    assert_eq!(c.effective_hostname(), "alpha");
    assert_eq!(named_or_unknown(None), "unknown");
    assert_eq!(named_or_unknown(Some("beta".to_string())), "beta");
}

#[test]
fn policy_settings_become_the_policy() {
    let mut s = PolicySettings::default();
    s.allow_docker = true;
    s.allowed_sync_paths.push("/srv".to_string());
    s.max_concurrent_tasks_per_node = 9;
    let p = s.to_execution_policy();
    assert!(p.allow_docker);
    assert!(!p.allow_restart_services);
    assert_eq!(p.allowed_sync_paths, vec!["/home", "/data", "/srv"]);
    assert_eq!(p.blocked_sync_paths, s.blocked_sync_paths);
    assert!(p.require_approval_for_destructive);
    assert_eq!(p.max_concurrent_tasks_per_node, 9);
}

#[test]
fn oracle_settings() {
    let mut s = LlmSettings::default();
    s.api_base = Some("http://localhost".to_string());
    s.max_tokens = 9;
    s.temperature = 0.5f32.to_bits();
    let c = s.to_llm_config(Some("secret".to_string()));
    assert_eq!(c.api_key, "secret");
    assert_eq!(c.api_base, Some("http://localhost".to_string()));
    assert_eq!(c.model, "gpt-4o-mini");
    assert_eq!(c.max_tokens, 9);
    assert_eq!(f32::from_bits(c.temperature), 0.5);
    assert_eq!(s.to_llm_config(None).api_key, "");
    let d = LlmConfig::default();
    assert_eq!((d.api_key.as_str(), d.max_tokens), ("", 2048));
    let p = PeerConfig { node_id: "1".to_string(), addr: "a:1".to_string(), is_voter: true };
    let q = p.clone();
    assert_eq!((q.node_id, q.addr, q.is_voter), (p.node_id, p.addr, true));
}

#[test]
fn peers_and_their_addresses() {
    let mut f = HiveNetworkFactory::new();
    assert_eq!(f.get_addr(1), None);
    f.register_node(1, "10.0.0.1:9000".to_string());
    f.register_node(2, "10.0.0.2:9000".to_string());
    f.register_node(1, "10.0.0.9:9000".to_string());
    assert_eq!(f.get_addr(1), Some("10.0.0.9:9000".to_string()));
    assert_eq!(f.get_addr(2), Some("10.0.0.2:9000".to_string()));
    assert_eq!(f.get_addr(3), None);
    assert_eq!(HiveNetworkFactory::default().get_addr(1), None);
}
