//! The configuration of a node.

use vstd::prelude::*;
use crate::ident::fresh_id;
use crate::text::{clone_opt_string, clone_strings, decimal, decimal_text, opt_view, views};
use crate::validator::{default_policy, ExecutionPolicy, PolicyView};

verus! {

/// A peer named in the configuration.
#[derive(Debug)]
pub struct PeerConfig {
    pub node_id: String,
    pub addr: String,
    pub is_voter: bool,
}

impl Clone for PeerConfig {
    fn clone(&self) -> (r: Self)
        ensures
            r.node_id@ == self.node_id@,
            r.addr@ == self.addr@,
            r.is_voter == self.is_voter,
    {
        PeerConfig {
            node_id: self.node_id.clone(),
            addr: self.addr.clone(),
            is_voter: self.is_voter,
        }
    }
}

/// How the deliberation oracle is reached. The temperature is carried as
/// the bit pattern of a single-precision number.
#[derive(Debug)]
pub struct LlmSettings {
    pub enabled: bool,
    pub api_base: Option<String>,
    pub api_key_env: String,
    pub model: String,
    pub max_tokens: u16,
    pub temperature: u32,
}

/// What a client of the oracle needs.
#[derive(Debug)]
pub struct LlmConfig {
    pub api_key: String,
    pub api_base: Option<String>,
    pub model: String,
    pub max_tokens: u16,
    pub temperature: u32,
}

/// The bit pattern of the single-precision number nearest to 0.1.
pub const DEFAULT_TEMPERATURE: u32 = 0x3DCC_CCCD;

impl Default for LlmSettings {
    fn default() -> (r: Self)
        ensures
            !r.enabled,
            r.api_base is None,
            r.api_key_env@ == "OPENAI_API_KEY"@,
            r.model@ == "gpt-4o-mini"@,
            r.max_tokens == 2048,
            r.temperature == DEFAULT_TEMPERATURE,
    {
        LlmSettings {
            enabled: false,
            api_base: None,
            api_key_env: String::from_str("OPENAI_API_KEY"),
            model: String::from_str("gpt-4o-mini"),
            max_tokens: 2048,
            temperature: DEFAULT_TEMPERATURE,
        }
    }
}

impl Default for LlmConfig {
    fn default() -> (r: Self)
        ensures
            r.api_key@.len() == 0,
            r.api_base is None,
            r.model@ == "gpt-4o-mini"@,
            r.max_tokens == 2048,
            r.temperature == DEFAULT_TEMPERATURE,
    {
        LlmConfig {
            api_key: String::new(),
            api_base: None,
            model: String::from_str("gpt-4o-mini"),
            max_tokens: 2048,
            temperature: DEFAULT_TEMPERATURE,
        }
    }
}

impl LlmSettings {
    /// The client's configuration, with the key that the environment holds
    /// under `api_key_env`; no key counts as the empty key.
    pub fn to_llm_config(&self, api_key: Option<String>) -> (r: LlmConfig)
        ensures
            r.api_key@ == (match api_key {
                Some(k) => k@,
                None => Seq::<char>::empty(),
            }),
            opt_view(r.api_base) == opt_view(self.api_base),
            r.model@ == self.model@,
            r.max_tokens == self.max_tokens,
            r.temperature == self.temperature,
    {
        LlmConfig {
            api_key: match api_key {
                Some(k) => k,
                None => String::new(),
            },
            api_base: clone_opt_string(&self.api_base),
            model: self.model.clone(),
            max_tokens: self.max_tokens,
            temperature: self.temperature,
        }
    }
}

/// The policy as the configuration file holds it.
#[derive(Debug)]
pub struct PolicySettings {
    pub allow_restart_services: bool,
    pub allow_docker: bool,
    pub allowed_sync_paths: Vec<String>,
    pub blocked_sync_paths: Vec<String>,
    pub require_approval_for_destructive: bool,
    pub max_concurrent_tasks_per_node: usize,
}

impl View for PolicySettings {
    type V = PolicyView;

    open spec fn view(&self) -> PolicyView {
        PolicyView {
            allow_restart_services: self.allow_restart_services,
            allow_docker: self.allow_docker,
            allowed_sync_paths: views(self.allowed_sync_paths@),
            blocked_sync_paths: views(self.blocked_sync_paths@),
            require_approval_for_destructive: self.require_approval_for_destructive,
            max_concurrent_tasks_per_node: self.max_concurrent_tasks_per_node,
        }
    }
}

impl Default for PolicySettings {
    fn default() -> (r: Self)
        ensures
            r@ == default_policy(),
    {
        let p = ExecutionPolicy::default();
        PolicySettings {
            allow_restart_services: p.allow_restart_services,
            allow_docker: p.allow_docker,
            allowed_sync_paths: p.allowed_sync_paths,
            blocked_sync_paths: p.blocked_sync_paths,
            require_approval_for_destructive: p.require_approval_for_destructive,
            max_concurrent_tasks_per_node: p.max_concurrent_tasks_per_node,
        }
    }
}

impl PolicySettings {
    /// The policy that the validator enforces: the same settings.
    pub fn to_execution_policy(&self) -> (r: ExecutionPolicy)
        ensures
            r@ == self@,
    {
        ExecutionPolicy {
            allow_restart_services: self.allow_restart_services,
            allow_docker: self.allow_docker,
            allowed_sync_paths: clone_strings(&self.allowed_sync_paths),
            blocked_sync_paths: clone_strings(&self.blocked_sync_paths),
            require_approval_for_destructive: self.require_approval_for_destructive,
            max_concurrent_tasks_per_node: self.max_concurrent_tasks_per_node,
        }
    }
}

/// The name of this machine, as `hostname::get` reports it, with what is
/// not Unicode in it replaced. It depends on the machine; nothing is known
/// of it.
#[verifier::external_body]
fn machine_hostname() -> (r: Option<String>) {
    hostname::get().ok().map(|h| h.to_string_lossy().to_string())
}

/// The configuration of a node.
#[derive(Debug)]
pub struct NodeConfig {
    pub node_id: Option<String>,
    pub hostname: Option<String>,
    pub tags: Vec<String>,
    pub bind_addr: String,
    pub bind_port: u16,
    pub data_dir: String,
    pub peers: Vec<PeerConfig>,
    pub llm: LlmSettings,
    pub policy: PolicySettings,
    pub heartbeat_interval_secs: u64,
    pub planning_interval_secs: u64,
}

impl Default for NodeConfig {
    fn default() -> (r: Self)
        ensures
            r.node_id is None,
            r.hostname is None,
            r.tags@.len() == 0,
            r.bind_addr@ == "0.0.0.0"@,
            r.bind_port == 9000,
            r.data_dir@ == "/var/lib/flockmind"@,
            r.peers@.len() == 0,
            !r.llm.enabled,
            r.llm.api_base is None,
            r.llm.api_key_env@ == "OPENAI_API_KEY"@,
            r.llm.model@ == "gpt-4o-mini"@,
            r.llm.max_tokens == 2048,
            r.llm.temperature == DEFAULT_TEMPERATURE,
            r.policy@ == default_policy(),
            r.heartbeat_interval_secs == 10,
            r.planning_interval_secs == 30,
    {
        NodeConfig {
            node_id: None,
            hostname: None,
            tags: Vec::new(),
            bind_addr: String::from_str("0.0.0.0"),
            bind_port: 9000,
            data_dir: String::from_str("/var/lib/flockmind"),
            peers: Vec::new(),
            llm: LlmSettings::default(),
            policy: PolicySettings::default(),
            heartbeat_interval_secs: 10,
            planning_interval_secs: 30,
        }
    }
}

impl NodeConfig {
    /// The identifier of the node: the configured one, or else a fresh one.
    pub fn effective_node_id(&self) -> (r: String)
        ensures
            match self.node_id {
                Some(id) => r@ == id@,
                None => r@.len() == 36,
            },
    {
        match &self.node_id {
            Some(id) => id.clone(),
            None => fresh_id(),
        }
    }

    /// The host name of the node: the configured one, or else the
    /// machine's; "unknown" where the machine does not tell. Of the
    /// machine's name nothing is known beforehand.
    pub fn effective_hostname(&self) -> (r: String)
        ensures
            self.hostname matches Some(h) ==> r@ == h@,
    {
        match &self.hostname {
            Some(h) => h.clone(),
            None => named_or_unknown(machine_hostname()),
        }
    }

    /// The address to listen on: the bind address, a colon and the port.
    pub fn listen_addr(&self) -> (r: String)
        ensures
            r@ == self.bind_addr@ + seq![':'] + decimal(self.bind_port as nat),
    {
        let mut s = self.bind_addr.clone();
        proof {
            reveal_strlit(":");
        }
        s.append(":");
        let port = decimal_text(self.bind_port as u64);
        s.append(port.as_str());
        assert(s@ =~= self.bind_addr@ + seq![':'] + decimal(self.bind_port as nat));
        s
    }
}

/// The name that the machine reported, or "unknown" where it reported none.
pub fn named_or_unknown(reported: Option<String>) -> (r: String)
    ensures
        r@ == (match reported {
            Some(h) => h@,
            None => "unknown"@,
        }),
{
    match reported {
        Some(h) => h,
        None => String::from_str("unknown"),
    }
}

} // verus!
