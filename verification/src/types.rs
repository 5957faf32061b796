//! The entities of the cluster: nodes, tasks, attachments, goals, the
//! actions that the deliberator proposes and the commands that the state
//! machine applies.
//!
//! Identifiers are opaque strings. Instants are milliseconds since the Unix
//! epoch. Utilisation figures are carried as the bit patterns of
//! single-precision numbers. Free-form JSON values are carried as their text.

use vstd::prelude::*;
use crate::store::{Duplicate, KeyedStore};
use crate::text::{
    clone_opt_string, clone_strings, contains_str, deref_all, elem_views, lemma_filter_none,
    lemma_filter_step, opt_view, str_eq, views,
};

verus! {

pub type NodeId = String;

pub type TaskId = String;

pub type AttachmentId = String;

pub type GoalId = String;

/// The identity a node enrolled with.
#[derive(Debug)]
pub struct NodeIdentity {
    pub node_id: NodeId,
    pub public_key: Vec<u8>,
    pub hostname: String,
    pub enrolled_at: i64,
}

/// How a node is doing.
#[derive(Debug, PartialEq, Eq)]
pub enum NodeHealth {
    Healthy,
    Degraded { reason: String },
    Unreachable,
    Unknown,
}

pub enum NodeHealthView {
    Healthy,
    Degraded { reason: Seq<char> },
    Unreachable,
    Unknown,
}

impl View for NodeHealth {
    type V = NodeHealthView;

    open spec fn view(&self) -> NodeHealthView {
        match self {
            NodeHealth::Healthy => NodeHealthView::Healthy,
            NodeHealth::Degraded { reason } => NodeHealthView::Degraded { reason: reason@ },
            NodeHealth::Unreachable => NodeHealthView::Unreachable,
            NodeHealth::Unknown => NodeHealthView::Unknown,
        }
    }
}

impl Clone for NodeHealth {
    fn clone(&self) -> (r: Self)
        ensures
            r@ == self@,
    {
        match self {
            NodeHealth::Healthy => NodeHealth::Healthy,
            NodeHealth::Degraded { reason } => NodeHealth::Degraded { reason: reason.clone() },
            NodeHealth::Unreachable => NodeHealth::Unreachable,
            NodeHealth::Unknown => NodeHealth::Unknown,
        }
    }
}

impl NodeHealth {
    /// Whether the node is healthy.
    pub fn is_healthy(&self) -> (r: bool)
        ensures
            r == (self@ is Healthy),
    {
        match self {
            NodeHealth::Healthy => true,
            _ => false,
        }
    }
}

/// Utilisation figures reported with a heartbeat.
#[derive(Debug, Clone, Copy, PartialEq, Eq)]
pub struct NodeMetrics {
    pub cpu_usage: u32,
    pub memory_usage: u32,
    pub disk_usage: u32,
}

impl Default for NodeMetrics {
    fn default() -> (r: Self)
        ensures
            r == (NodeMetrics { cpu_usage: 0, memory_usage: 0, disk_usage: 0 }),
    {
        NodeMetrics { cpu_usage: 0, memory_usage: 0, disk_usage: 0 }
    }
}

/// A node as the cluster sees it.
#[derive(Debug)]
pub struct NodeStatus {
    pub node_id: NodeId,
    pub hostname: String,
    pub tags: Vec<String>,
    pub health: NodeHealth,
    pub last_heartbeat: i64,
    pub cpu_usage: u32,
    pub memory_usage: u32,
    pub disk_usage: u32,
}

pub struct NodeStatusView {
    pub node_id: Seq<char>,
    pub hostname: Seq<char>,
    pub tags: Seq<Seq<char>>,
    pub health: NodeHealthView,
    pub last_heartbeat: i64,
    pub cpu_usage: u32,
    pub memory_usage: u32,
    pub disk_usage: u32,
}

impl View for NodeStatus {
    type V = NodeStatusView;

    open spec fn view(&self) -> NodeStatusView {
        NodeStatusView {
            node_id: self.node_id@,
            hostname: self.hostname@,
            tags: views(self.tags@),
            health: self.health@,
            last_heartbeat: self.last_heartbeat,
            cpu_usage: self.cpu_usage,
            memory_usage: self.memory_usage,
            disk_usage: self.disk_usage,
        }
    }
}

impl Clone for NodeStatus {
    fn clone(&self) -> (r: Self)
        ensures
            r@ == self@,
    {
        NodeStatus {
            node_id: self.node_id.clone(),
            hostname: self.hostname.clone(),
            tags: clone_strings(&self.tags),
            health: self.health.clone(),
            last_heartbeat: self.last_heartbeat,
            cpu_usage: self.cpu_usage,
            memory_usage: self.memory_usage,
            disk_usage: self.disk_usage,
        }
    }
}

/// What an attachment is.
#[derive(Debug)]
pub enum AttachmentKind {
    Directory { path: String },
    File { path: String },
    DockerContainer { container_id: String },
    Service { name: String, unit: Option<String> },
    Webhook { url: String },
    Custom { kind_name: String, config: String },
}

pub enum AttachmentKindView {
    Directory { path: Seq<char> },
    File { path: Seq<char> },
    DockerContainer { container_id: Seq<char> },
    Service { name: Seq<char>, unit: Option<Seq<char>> },
    Webhook { url: Seq<char> },
    Custom { kind_name: Seq<char>, config: Seq<char> },
}

impl View for AttachmentKind {
    type V = AttachmentKindView;

    open spec fn view(&self) -> AttachmentKindView {
        match self {
            AttachmentKind::Directory { path } => AttachmentKindView::Directory { path: path@ },
            AttachmentKind::File { path } => AttachmentKindView::File { path: path@ },
            AttachmentKind::DockerContainer { container_id } => AttachmentKindView::DockerContainer {
                container_id: container_id@,
            },
            AttachmentKind::Service { name, unit } => AttachmentKindView::Service {
                name: name@,
                unit: opt_view(*unit),
            },
            AttachmentKind::Webhook { url } => AttachmentKindView::Webhook { url: url@ },
            AttachmentKind::Custom { kind_name, config } => AttachmentKindView::Custom {
                kind_name: kind_name@,
                config: config@,
            },
        }
    }
}

impl Clone for AttachmentKind {
    fn clone(&self) -> (r: Self)
        ensures
            r@ == self@,
    {
        match self {
            AttachmentKind::Directory { path } => AttachmentKind::Directory { path: path.clone() },
            AttachmentKind::File { path } => AttachmentKind::File { path: path.clone() },
            AttachmentKind::DockerContainer { container_id } => AttachmentKind::DockerContainer {
                container_id: container_id.clone(),
            },
            AttachmentKind::Service { name, unit } => AttachmentKind::Service {
                name: name.clone(),
                unit: clone_opt_string(unit),
            },
            AttachmentKind::Webhook { url } => AttachmentKind::Webhook { url: url.clone() },
            AttachmentKind::Custom { kind_name, config } => AttachmentKind::Custom {
                kind_name: kind_name.clone(),
                config: config.clone(),
            },
        }
    }
}

/// An external resource registered as operable on a node.
#[derive(Debug)]
pub struct Attachment {
    pub id: AttachmentId,
    pub node_id: NodeId,
    pub kind: AttachmentKind,
    pub capabilities: Vec<String>,
    pub metadata: KeyedStore<String>,
    pub created_at: i64,
}

pub struct AttachmentView {
    pub id: Seq<char>,
    pub node_id: Seq<char>,
    pub kind: AttachmentKindView,
    pub capabilities: Seq<Seq<char>>,
    pub metadata: Seq<(Seq<char>, Seq<char>)>,
    pub created_at: i64,
}

impl View for Attachment {
    type V = AttachmentView;

    open spec fn view(&self) -> AttachmentView {
        AttachmentView {
            id: self.id@,
            node_id: self.node_id@,
            kind: self.kind@,
            capabilities: views(self.capabilities@),
            metadata: self.metadata@,
            created_at: self.created_at,
        }
    }
}

impl Clone for Attachment {
    fn clone(&self) -> (r: Self)
        ensures
            r@ == self@,
    {
        Attachment {
            id: self.id.clone(),
            node_id: self.node_id.clone(),
            kind: self.kind.clone(),
            capabilities: clone_strings(&self.capabilities),
            metadata: self.metadata.duplicate(),
            created_at: self.created_at,
        }
    }
}

/// Where a task stands.
#[derive(Debug, PartialEq, Eq)]
pub enum TaskStatus {
    Pending,
    Scheduled,
    Running,
    Completed,
    Failed { error: String },
    Cancelled,
}

pub enum TaskStatusView {
    Pending,
    Scheduled,
    Running,
    Completed,
    Failed { error: Seq<char> },
    Cancelled,
}

impl TaskStatusView {
    /// The rank by which a task's status may only advance: pending, then
    /// scheduled, then running, then one of the three final statuses.
    pub open spec fn rank(self) -> nat {
        match self {
            TaskStatusView::Pending => 0,
            TaskStatusView::Scheduled => 1,
            TaskStatusView::Running => 2,
            TaskStatusView::Completed => 3,
            TaskStatusView::Failed { .. } => 3,
            TaskStatusView::Cancelled => 3,
        }
    }

    /// A pending or running task counts against its node's limit.
    pub open spec fn is_active(self) -> bool {
        self is Pending || self is Running
    }
}

impl View for TaskStatus {
    type V = TaskStatusView;

    open spec fn view(&self) -> TaskStatusView {
        match self {
            TaskStatus::Pending => TaskStatusView::Pending,
            TaskStatus::Scheduled => TaskStatusView::Scheduled,
            TaskStatus::Running => TaskStatusView::Running,
            TaskStatus::Completed => TaskStatusView::Completed,
            TaskStatus::Failed { error } => TaskStatusView::Failed { error: error@ },
            TaskStatus::Cancelled => TaskStatusView::Cancelled,
        }
    }
}

impl Clone for TaskStatus {
    fn clone(&self) -> (r: Self)
        ensures
            r@ == self@,
    {
        match self {
            TaskStatus::Pending => TaskStatus::Pending,
            TaskStatus::Scheduled => TaskStatus::Scheduled,
            TaskStatus::Running => TaskStatus::Running,
            TaskStatus::Completed => TaskStatus::Completed,
            TaskStatus::Failed { error } => TaskStatus::Failed { error: error.clone() },
            TaskStatus::Cancelled => TaskStatus::Cancelled,
        }
    }
}

impl TaskStatus {
    /// The rank of this status.
    pub fn rank(&self) -> (r: u8)
        ensures
            r == self@.rank(),
    {
        match self {
            TaskStatus::Pending => 0,
            TaskStatus::Scheduled => 1,
            TaskStatus::Running => 2,
            TaskStatus::Completed => 3,
            TaskStatus::Failed { .. } => 3,
            TaskStatus::Cancelled => 3,
        }
    }

    /// Whether the task is pending.
    pub fn is_pending(&self) -> (r: bool)
        ensures
            r == (self@ is Pending),
    {
        match self {
            TaskStatus::Pending => true,
            _ => false,
        }
    }

    /// Whether the task is running.
    pub fn is_running(&self) -> (r: bool)
        ensures
            r == (self@ is Running),
    {
        match self {
            TaskStatus::Running => true,
            _ => false,
        }
    }

    /// Whether the task is pending or running.
    pub fn is_active(&self) -> (r: bool)
        ensures
            r == self@.is_active(),
    {
        self.is_pending() || self.is_running()
    }
}

/// What a task does.
#[derive(Debug)]
#[allow(inconsistent_fields)]
pub enum TaskPayload {
    Echo { message: String },
    SyncDirectory { src: String, dst: String },
    RunCommand { command: String, args: Vec<String> },
    CheckService { service_name: String },
    RestartService { service_name: String },
    DockerRun { image: String, args: Vec<String> },
    Custom { tool_id: String, args: String },
}

#[allow(inconsistent_fields)]
pub enum TaskPayloadView {
    Echo { message: Seq<char> },
    SyncDirectory { src: Seq<char>, dst: Seq<char> },
    RunCommand { command: Seq<char>, args: Seq<Seq<char>> },
    CheckService { service_name: Seq<char> },
    RestartService { service_name: Seq<char> },
    DockerRun { image: Seq<char>, args: Seq<Seq<char>> },
    Custom { tool_id: Seq<char>, args: Seq<char> },
}

impl TaskPayloadView {
    /// Which variant this is, as a number.
    pub open spec fn tag(self) -> nat {
        match self {
            TaskPayloadView::Echo { .. } => 0,
            TaskPayloadView::SyncDirectory { .. } => 1,
            TaskPayloadView::RunCommand { .. } => 2,
            TaskPayloadView::CheckService { .. } => 3,
            TaskPayloadView::RestartService { .. } => 4,
            TaskPayloadView::DockerRun { .. } => 5,
            TaskPayloadView::Custom { .. } => 6,
        }
    }
}

impl View for TaskPayload {
    type V = TaskPayloadView;

    open spec fn view(&self) -> TaskPayloadView {
        match self {
            TaskPayload::Echo { message } => TaskPayloadView::Echo { message: message@ },
            TaskPayload::SyncDirectory { src, dst } => TaskPayloadView::SyncDirectory {
                src: src@,
                dst: dst@,
            },
            TaskPayload::RunCommand { command, args } => TaskPayloadView::RunCommand {
                command: command@,
                args: views(args@),
            },
            TaskPayload::CheckService { service_name } => TaskPayloadView::CheckService {
                service_name: service_name@,
            },
            TaskPayload::RestartService { service_name } => TaskPayloadView::RestartService {
                service_name: service_name@,
            },
            TaskPayload::DockerRun { image, args } => TaskPayloadView::DockerRun {
                image: image@,
                args: views(args@),
            },
            TaskPayload::Custom { tool_id, args } => TaskPayloadView::Custom {
                tool_id: tool_id@,
                args: args@,
            },
        }
    }
}

impl Clone for TaskPayload {
    fn clone(&self) -> (r: Self)
        ensures
            r@ == self@,
    {
        match self {
            TaskPayload::Echo { message } => TaskPayload::Echo { message: message.clone() },
            TaskPayload::SyncDirectory { src, dst } => TaskPayload::SyncDirectory {
                src: src.clone(),
                dst: dst.clone(),
            },
            TaskPayload::RunCommand { command, args } => TaskPayload::RunCommand {
                command: command.clone(),
                args: clone_strings(args),
            },
            TaskPayload::CheckService { service_name } => TaskPayload::CheckService {
                service_name: service_name.clone(),
            },
            TaskPayload::RestartService { service_name } => TaskPayload::RestartService {
                service_name: service_name.clone(),
            },
            TaskPayload::DockerRun { image, args } => TaskPayload::DockerRun {
                image: image.clone(),
                args: clone_strings(args),
            },
            TaskPayload::Custom { tool_id, args } => TaskPayload::Custom {
                tool_id: tool_id.clone(),
                args: args.clone(),
            },
        }
    }
}

impl TaskPayload {
    /// Which variant this is, as a number.
    pub fn tag(&self) -> (r: u8)
        ensures
            r == self@.tag(),
    {
        match self {
            TaskPayload::Echo { .. } => 0,
            TaskPayload::SyncDirectory { .. } => 1,
            TaskPayload::RunCommand { .. } => 2,
            TaskPayload::CheckService { .. } => 3,
            TaskPayload::RestartService { .. } => 4,
            TaskPayload::DockerRun { .. } => 5,
            TaskPayload::Custom { .. } => 6,
        }
    }
}

/// A unit of work accepted into the replicated state.
#[derive(Debug)]
pub struct Task {
    pub id: TaskId,
    pub target_node: NodeId,
    pub payload: TaskPayload,
    pub status: TaskStatus,
    pub priority: u8,
    pub created_at: i64,
    pub updated_at: i64,
    pub result: Option<String>,
}

pub struct TaskView {
    pub id: Seq<char>,
    pub target_node: Seq<char>,
    pub payload: TaskPayloadView,
    pub status: TaskStatusView,
    pub priority: u8,
    pub created_at: i64,
    pub updated_at: i64,
    pub result: Option<Seq<char>>,
}

impl View for Task {
    type V = TaskView;

    open spec fn view(&self) -> TaskView {
        TaskView {
            id: self.id@,
            target_node: self.target_node@,
            payload: self.payload@,
            status: self.status@,
            priority: self.priority,
            created_at: self.created_at,
            updated_at: self.updated_at,
            result: opt_view(self.result),
        }
    }
}

impl Clone for Task {
    fn clone(&self) -> (r: Self)
        ensures
            r@ == self@,
    {
        Task {
            id: self.id.clone(),
            target_node: self.target_node.clone(),
            payload: self.payload.clone(),
            status: self.status.clone(),
            priority: self.priority,
            created_at: self.created_at,
            updated_at: self.updated_at,
            result: clone_opt_string(&self.result),
        }
    }
}

/// Something the cluster is asked to achieve.
#[derive(Debug)]
pub struct Goal {
    pub id: GoalId,
    pub description: String,
    pub constraints: Vec<String>,
    pub priority: u8,
    pub active: bool,
    pub created_at: i64,
}

pub struct GoalView {
    pub id: Seq<char>,
    pub description: Seq<char>,
    pub constraints: Seq<Seq<char>>,
    pub priority: u8,
    pub active: bool,
    pub created_at: i64,
}

impl View for Goal {
    type V = GoalView;

    open spec fn view(&self) -> GoalView {
        GoalView {
            id: self.id@,
            description: self.description@,
            constraints: views(self.constraints@),
            priority: self.priority,
            active: self.active,
            created_at: self.created_at,
        }
    }
}

impl Clone for Goal {
    fn clone(&self) -> (r: Self)
        ensures
            r@ == self@,
    {
        Goal {
            id: self.id.clone(),
            description: self.description.clone(),
            constraints: clone_strings(&self.constraints),
            priority: self.priority,
            active: self.active,
            created_at: self.created_at,
        }
    }
}

/// A read-only snapshot of the replicated state.
#[derive(Debug)]
pub struct ClusterView {
    pub nodes: Vec<NodeStatus>,
    pub tasks: Vec<Task>,
    pub attachments: Vec<Attachment>,
    pub goals: Vec<Goal>,
    pub leader_id: Option<NodeId>,
    pub term: u64,
}

pub struct ClusterModel {
    pub nodes: Seq<NodeStatusView>,
    pub tasks: Seq<TaskView>,
    pub attachments: Seq<AttachmentView>,
    pub goals: Seq<GoalView>,
    pub leader_id: Option<Seq<char>>,
    pub term: u64,
}

impl ClusterModel {
    /// Some node has the identifier `id`.
    pub open spec fn has_node(self, id: Seq<char>) -> bool {
        exists|i: int| 0 <= i < self.nodes.len() && (#[trigger] self.nodes[i]).node_id == id
    }

    /// Some task has the identifier `id`.
    pub open spec fn has_task(self, id: Seq<char>) -> bool {
        exists|i: int| 0 <= i < self.tasks.len() && (#[trigger] self.tasks[i]).id == id
    }

    /// Some goal has the identifier `id`.
    pub open spec fn has_goal(self, id: Seq<char>) -> bool {
        exists|i: int| 0 <= i < self.goals.len() && (#[trigger] self.goals[i]).id == id
    }

    /// Some attachment has the identifier `id`.
    pub open spec fn has_attachment(self, id: Seq<char>) -> bool {
        exists|i: int| 0 <= i < self.attachments.len() && (#[trigger] self.attachments[i]).id == id
    }

    /// The number of pending or running tasks that target `node_id`.
    pub open spec fn active_tasks(self, node_id: Seq<char>) -> nat {
        self.tasks.filter(active_on(node_id)).len()
    }
}

/// The cluster before anything joined it: no leader, term 0.
pub open spec fn empty_cluster() -> ClusterModel {
    ClusterModel {
        nodes: Seq::empty(),
        tasks: Seq::empty(),
        attachments: Seq::empty(),
        goals: Seq::empty(),
        leader_id: None,
        term: 0,
    }
}

/// The tasks that target `node_id` and are pending or running.
pub open spec fn active_on(node_id: Seq<char>) -> spec_fn(TaskView) -> bool {
    |t: TaskView| t.target_node == node_id && t.status.is_active()
}

/// The healthy nodes.
pub open spec fn healthy_pred() -> spec_fn(NodeStatus) -> bool {
    |n: NodeStatus| n@.health is Healthy
}

/// The nodes that carry `tag`.
pub open spec fn tag_pred(tag: Seq<char>) -> spec_fn(NodeStatus) -> bool {
    |n: NodeStatus| n@.tags.contains(tag)
}

/// The pending tasks.
pub open spec fn pending_pred() -> spec_fn(Task) -> bool {
    |t: Task| t@.status is Pending
}

/// The tasks that target `node_id`.
pub open spec fn target_pred(node_id: Seq<char>) -> spec_fn(Task) -> bool {
    |t: Task| t@.target_node == node_id
}

impl View for ClusterView {
    type V = ClusterModel;

    open spec fn view(&self) -> ClusterModel {
        ClusterModel {
            nodes: elem_views(self.nodes@),
            tasks: elem_views(self.tasks@),
            attachments: elem_views(self.attachments@),
            goals: elem_views(self.goals@),
            leader_id: opt_view(self.leader_id),
            term: self.term,
        }
    }
}

impl ClusterView {
    /// A snapshot of an empty cluster without a leader, at term 0.
    pub fn new() -> (r: Self)
        ensures
            r@ == empty_cluster(),
    {
        let r = ClusterView {
            nodes: Vec::new(),
            tasks: Vec::new(),
            attachments: Vec::new(),
            goals: Vec::new(),
            leader_id: None,
            term: 0,
        };
        assert(r@.nodes =~= Seq::empty());
        assert(r@.tasks =~= Seq::empty());
        assert(r@.attachments =~= Seq::empty());
        assert(r@.goals =~= Seq::empty());
        r
    }

    /// The first node whose identifier is `id`.
    pub fn node_by_id(&self, id: &str) -> (r: Option<&NodeStatus>)
        ensures
            r is Some == self@.has_node(id@),
            match r {
                Some(n) => exists|i: int|
                    0 <= i < self.nodes@.len() && self.nodes@[i] == *n && n.node_id@ == id@
                        && forall|j: int| 0 <= j < i ==> self.nodes@[j].node_id@ != id@,
                None => true,
            },
    {
        let mut i: usize = 0;
        while i < self.nodes.len()
            invariant
                i <= self.nodes@.len(),
                forall|j: int| 0 <= j < i ==> self.nodes@[j].node_id@ != id@,
            decreases self.nodes.len() - i,
        {
            if str_eq(self.nodes[i].node_id.as_str(), id) {
                assert(self@.nodes[i as int].node_id == id@);
                return Some(&self.nodes[i]);
            }
            i += 1;
        }
        assert(!self@.has_node(id@)) by {
            if self@.has_node(id@) {
                let j = choose|j: int|
                    0 <= j < self@.nodes.len() && (#[trigger] self@.nodes[j]).node_id == id@;
                assert(self.nodes@[j].node_id@ == id@);
            }
        }
        None
    }

    /// The healthy nodes, in order.
    pub fn healthy_nodes(&self) -> (r: Vec<&NodeStatus>)
        ensures
            deref_all(r@) == self.nodes@.filter(healthy_pred()),
    {
        let mut out: Vec<&NodeStatus> = Vec::new();
        let mut i: usize = 0;
        proof {
            lemma_filter_none(self.nodes@, healthy_pred());
            assert(deref_all(out@) =~= Seq::<NodeStatus>::empty());
        }
        while i < self.nodes.len()
            invariant
                i <= self.nodes@.len(),
                deref_all(out@) == self.nodes@.take(i as int).filter(healthy_pred()),
            decreases self.nodes.len() - i,
        {
            proof {
                lemma_filter_step(self.nodes@, healthy_pred(), i as int);
            }
            let ghost before = out@;
            if self.nodes[i].health.is_healthy() {
                out.push(&self.nodes[i]);
                assert(deref_all(out@) =~= deref_all(before).push(self.nodes@[i as int]));
            }
            i += 1;
        }
        proof {
            lemma_filter_none(self.nodes@, healthy_pred());
        }
        out
    }

    /// The nodes that carry `tag`, in order.
    pub fn nodes_with_tag(&self, tag: &str) -> (r: Vec<&NodeStatus>)
        ensures
            deref_all(r@) == self.nodes@.filter(tag_pred(tag@)),
    {
        let mut out: Vec<&NodeStatus> = Vec::new();
        let mut i: usize = 0;
        proof {
            lemma_filter_none(self.nodes@, tag_pred(tag@));
            assert(deref_all(out@) =~= Seq::<NodeStatus>::empty());
        }
        while i < self.nodes.len()
            invariant
                i <= self.nodes@.len(),
                deref_all(out@) == self.nodes@.take(i as int).filter(tag_pred(tag@)),
            decreases self.nodes.len() - i,
        {
            proof {
                lemma_filter_step(self.nodes@, tag_pred(tag@), i as int);
            }
            let ghost before = out@;
            if contains_str(&self.nodes[i].tags, tag) {
                out.push(&self.nodes[i]);
                assert(deref_all(out@) =~= deref_all(before).push(self.nodes@[i as int]));
            }
            i += 1;
        }
        proof {
            lemma_filter_none(self.nodes@, tag_pred(tag@));
        }
        out
    }

    /// The pending tasks, in order.
    pub fn pending_tasks(&self) -> (r: Vec<&Task>)
        ensures
            deref_all(r@) == self.tasks@.filter(pending_pred()),
    {
        let mut out: Vec<&Task> = Vec::new();
        let mut i: usize = 0;
        proof {
            lemma_filter_none(self.tasks@, pending_pred());
            assert(deref_all(out@) =~= Seq::<Task>::empty());
        }
        while i < self.tasks.len()
            invariant
                i <= self.tasks@.len(),
                deref_all(out@) == self.tasks@.take(i as int).filter(pending_pred()),
            decreases self.tasks.len() - i,
        {
            proof {
                lemma_filter_step(self.tasks@, pending_pred(), i as int);
            }
            let ghost before = out@;
            if self.tasks[i].status.is_pending() {
                out.push(&self.tasks[i]);
                assert(deref_all(out@) =~= deref_all(before).push(self.tasks@[i as int]));
            }
            i += 1;
        }
        proof {
            lemma_filter_none(self.tasks@, pending_pred());
        }
        out
    }

    /// The tasks that target `node_id`, in order.
    pub fn tasks_for_node(&self, node_id: &str) -> (r: Vec<&Task>)
        ensures
            deref_all(r@) == self.tasks@.filter(target_pred(node_id@)),
    {
        let mut out: Vec<&Task> = Vec::new();
        let mut i: usize = 0;
        proof {
            lemma_filter_none(self.tasks@, target_pred(node_id@));
            assert(deref_all(out@) =~= Seq::<Task>::empty());
        }
        while i < self.tasks.len()
            invariant
                i <= self.tasks@.len(),
                deref_all(out@) == self.tasks@.take(i as int).filter(target_pred(node_id@)),
            decreases self.tasks.len() - i,
        {
            proof {
                lemma_filter_step(self.tasks@, target_pred(node_id@), i as int);
            }
            let ghost before = out@;
            if str_eq(self.tasks[i].target_node.as_str(), node_id) {
                out.push(&self.tasks[i]);
                assert(deref_all(out@) =~= deref_all(before).push(self.tasks@[i as int]));
            }
            i += 1;
        }
        proof {
            lemma_filter_none(self.tasks@, target_pred(node_id@));
        }
        out
    }
}

impl ClusterView {
    /// The number of pending or running tasks that target `node_id`.
    pub fn active_task_count(&self, node_id: &str) -> (r: usize)
        ensures
            r == self@.active_tasks(node_id@),
    {
        let ghost tasks = self@.tasks;
        let mut active: usize = 0;
        let mut i: usize = 0;
        proof {
            lemma_filter_none(tasks, active_on(node_id@));
        }
        while i < self.tasks.len()
            invariant
                i <= self.tasks@.len(),
                tasks == self@.tasks,
                active <= i,
                active == tasks.take(i as int).filter(active_on(node_id@)).len(),
            decreases self.tasks.len() - i,
        {
            proof {
                lemma_filter_step(tasks, active_on(node_id@), i as int);
                assert(tasks[i as int] == self.tasks@[i as int]@);
            }
            let t = &self.tasks[i];
            if str_eq(t.target_node.as_str(), node_id) && t.status.is_active() {
                active += 1;
            }
            i += 1;
        }
        proof {
            lemma_filter_none(tasks, active_on(node_id@));
        }
        active
    }
}

impl Default for ClusterView {
    fn default() -> (r: Self)
        ensures
            r@ == empty_cluster(),
    {
        ClusterView::new()
    }
}

/// An intent proposed by the deliberator or by an operator.
#[derive(Debug)]
pub enum BrainAction {
    ScheduleTask { task: TaskPayload, target_node: NodeId, priority: u8 },
    RebalanceTask { task_id: TaskId, to_node: NodeId },
    CancelTask { task_id: TaskId },
    UpdateGoalProgress { goal_id: GoalId, progress_percent: u8, notes: Option<String> },
    CreateAttachment { node_id: NodeId, kind: AttachmentKind, capabilities: Vec<String> },
    RemoveAttachment { attachment_id: AttachmentId },
    MarkNodeDegraded { node_id: NodeId, reason: String },
    RequestHumanApproval { action_description: String, severity: String },
    NoOp { reason: String },
}

pub enum BrainActionView {
    ScheduleTask { task: TaskPayloadView, target_node: Seq<char>, priority: u8 },
    RebalanceTask { task_id: Seq<char>, to_node: Seq<char> },
    CancelTask { task_id: Seq<char> },
    UpdateGoalProgress { goal_id: Seq<char>, progress_percent: u8, notes: Option<Seq<char>> },
    CreateAttachment { node_id: Seq<char>, kind: AttachmentKindView, capabilities: Seq<Seq<char>> },
    RemoveAttachment { attachment_id: Seq<char> },
    MarkNodeDegraded { node_id: Seq<char>, reason: Seq<char> },
    RequestHumanApproval { action_description: Seq<char>, severity: Seq<char> },
    NoOp { reason: Seq<char> },
}

impl View for BrainAction {
    type V = BrainActionView;

    open spec fn view(&self) -> BrainActionView {
        match self {
            BrainAction::ScheduleTask { task, target_node, priority } => {
                BrainActionView::ScheduleTask {
                    task: task@,
                    target_node: target_node@,
                    priority: *priority,
                }
            },
            BrainAction::RebalanceTask { task_id, to_node } => BrainActionView::RebalanceTask {
                task_id: task_id@,
                to_node: to_node@,
            },
            BrainAction::CancelTask { task_id } => BrainActionView::CancelTask { task_id: task_id@ },
            BrainAction::UpdateGoalProgress { goal_id, progress_percent, notes } => {
                BrainActionView::UpdateGoalProgress {
                    goal_id: goal_id@,
                    progress_percent: *progress_percent,
                    notes: opt_view(*notes),
                }
            },
            BrainAction::CreateAttachment { node_id, kind, capabilities } => {
                BrainActionView::CreateAttachment {
                    node_id: node_id@,
                    kind: kind@,
                    capabilities: views(capabilities@),
                }
            },
            BrainAction::RemoveAttachment { attachment_id } => BrainActionView::RemoveAttachment {
                attachment_id: attachment_id@,
            },
            BrainAction::MarkNodeDegraded { node_id, reason } => BrainActionView::MarkNodeDegraded {
                node_id: node_id@,
                reason: reason@,
            },
            BrainAction::RequestHumanApproval { action_description, severity } => {
                BrainActionView::RequestHumanApproval {
                    action_description: action_description@,
                    severity: severity@,
                }
            },
            BrainAction::NoOp { reason } => BrainActionView::NoOp { reason: reason@ },
        }
    }
}

impl Clone for BrainAction {
    fn clone(&self) -> (r: Self)
        ensures
            r@ == self@,
    {
        match self {
            BrainAction::ScheduleTask { task, target_node, priority } => BrainAction::ScheduleTask {
                task: task.clone(),
                target_node: target_node.clone(),
                priority: *priority,
            },
            BrainAction::RebalanceTask { task_id, to_node } => BrainAction::RebalanceTask {
                task_id: task_id.clone(),
                to_node: to_node.clone(),
            },
            BrainAction::CancelTask { task_id } => BrainAction::CancelTask {
                task_id: task_id.clone(),
            },
            BrainAction::UpdateGoalProgress { goal_id, progress_percent, notes } => {
                BrainAction::UpdateGoalProgress {
                    goal_id: goal_id.clone(),
                    progress_percent: *progress_percent,
                    notes: clone_opt_string(notes),
                }
            },
            BrainAction::CreateAttachment { node_id, kind, capabilities } => {
                BrainAction::CreateAttachment {
                    node_id: node_id.clone(),
                    kind: kind.clone(),
                    capabilities: clone_strings(capabilities),
                }
            },
            BrainAction::RemoveAttachment { attachment_id } => BrainAction::RemoveAttachment {
                attachment_id: attachment_id.clone(),
            },
            BrainAction::MarkNodeDegraded { node_id, reason } => BrainAction::MarkNodeDegraded {
                node_id: node_id.clone(),
                reason: reason.clone(),
            },
            BrainAction::RequestHumanApproval { action_description, severity } => {
                BrainAction::RequestHumanApproval {
                    action_description: action_description.clone(),
                    severity: severity.clone(),
                }
            },
            BrainAction::NoOp { reason } => BrainAction::NoOp { reason: reason.clone() },
        }
    }
}

/// A transition of the replicated state.
#[derive(Debug)]
pub enum ClusterCommand {
    RegisterNode(NodeStatus),
    UpdateNodeHealth { node_id: NodeId, health: NodeHealth, metrics: NodeMetrics },
    RemoveNode { node_id: NodeId },
    PutTask(Task),
    UpdateTaskStatus { task_id: TaskId, status: TaskStatus, result: Option<String> },
    PutAttachment(Attachment),
    RemoveAttachment { attachment_id: AttachmentId },
    PutGoal(Goal),
    RemoveGoal { goal_id: GoalId },
}

pub enum ClusterCommandView {
    RegisterNode(NodeStatusView),
    UpdateNodeHealth { node_id: Seq<char>, health: NodeHealthView, metrics: NodeMetrics },
    RemoveNode { node_id: Seq<char> },
    PutTask(TaskView),
    UpdateTaskStatus { task_id: Seq<char>, status: TaskStatusView, result: Option<Seq<char>> },
    PutAttachment(AttachmentView),
    RemoveAttachment { attachment_id: Seq<char> },
    PutGoal(GoalView),
    RemoveGoal { goal_id: Seq<char> },
}

impl View for ClusterCommand {
    type V = ClusterCommandView;

    open spec fn view(&self) -> ClusterCommandView {
        match self {
            ClusterCommand::RegisterNode(status) => ClusterCommandView::RegisterNode(status@),
            ClusterCommand::UpdateNodeHealth { node_id, health, metrics } => {
                ClusterCommandView::UpdateNodeHealth {
                    node_id: node_id@,
                    health: health@,
                    metrics: *metrics,
                }
            },
            ClusterCommand::RemoveNode { node_id } => ClusterCommandView::RemoveNode {
                node_id: node_id@,
            },
            ClusterCommand::PutTask(task) => ClusterCommandView::PutTask(task@),
            ClusterCommand::UpdateTaskStatus { task_id, status, result } => {
                ClusterCommandView::UpdateTaskStatus {
                    task_id: task_id@,
                    status: status@,
                    result: opt_view(*result),
                }
            },
            ClusterCommand::PutAttachment(attachment) => ClusterCommandView::PutAttachment(
                attachment@,
            ),
            ClusterCommand::RemoveAttachment { attachment_id } => {
                ClusterCommandView::RemoveAttachment { attachment_id: attachment_id@ }
            },
            ClusterCommand::PutGoal(goal) => ClusterCommandView::PutGoal(goal@),
            ClusterCommand::RemoveGoal { goal_id } => ClusterCommandView::RemoveGoal {
                goal_id: goal_id@,
            },
        }
    }
}

impl Clone for ClusterCommand {
    fn clone(&self) -> (r: Self)
        ensures
            r@ == self@,
    {
        match self {
            ClusterCommand::RegisterNode(status) => ClusterCommand::RegisterNode(status.clone()),
            ClusterCommand::UpdateNodeHealth { node_id, health, metrics } => {
                ClusterCommand::UpdateNodeHealth {
                    node_id: node_id.clone(),
                    health: health.clone(),
                    metrics: *metrics,
                }
            },
            ClusterCommand::RemoveNode { node_id } => ClusterCommand::RemoveNode {
                node_id: node_id.clone(),
            },
            ClusterCommand::PutTask(task) => ClusterCommand::PutTask(task.clone()),
            ClusterCommand::UpdateTaskStatus { task_id, status, result } => {
                ClusterCommand::UpdateTaskStatus {
                    task_id: task_id.clone(),
                    status: status.clone(),
                    result: clone_opt_string(result),
                }
            },
            ClusterCommand::PutAttachment(attachment) => ClusterCommand::PutAttachment(
                attachment.clone(),
            ),
            ClusterCommand::RemoveAttachment { attachment_id } => ClusterCommand::RemoveAttachment {
                attachment_id: attachment_id.clone(),
            },
            ClusterCommand::PutGoal(goal) => ClusterCommand::PutGoal(goal.clone()),
            ClusterCommand::RemoveGoal { goal_id } => ClusterCommand::RemoveGoal {
                goal_id: goal_id.clone(),
            },
        }
    }
}

/// A short-lived token that admits one node to the cluster.
#[derive(Debug)]
pub struct EnrollmentToken {
    pub token: String,
    pub cluster_id: String,
    pub expires_at: i64,
    pub allowed_tags: Vec<String>,
}

pub struct EnrollmentTokenView {
    pub token: Seq<char>,
    pub cluster_id: Seq<char>,
    pub expires_at: i64,
    pub allowed_tags: Seq<Seq<char>>,
}

impl View for EnrollmentToken {
    type V = EnrollmentTokenView;

    open spec fn view(&self) -> EnrollmentTokenView {
        EnrollmentTokenView {
            token: self.token@,
            cluster_id: self.cluster_id@,
            expires_at: self.expires_at,
            allowed_tags: views(self.allowed_tags@),
        }
    }
}

impl Clone for EnrollmentToken {
    fn clone(&self) -> (r: Self)
        ensures
            r@ == self@,
    {
        EnrollmentToken {
            token: self.token.clone(),
            cluster_id: self.cluster_id.clone(),
            expires_at: self.expires_at,
            allowed_tags: clone_strings(&self.allowed_tags),
        }
    }
}

/// A peer of the consensus group.
#[derive(Debug)]
pub struct PeerInfo {
    pub node_id: NodeId,
    pub addr: String,
    pub is_voter: bool,
}

/// What a joining node receives.
#[derive(Debug)]
pub struct EnrollmentResponse {
    pub node_id: NodeId,
    pub cluster_id: String,
    pub peers: Vec<PeerInfo>,
    pub certificate: Vec<u8>,
}

impl Duplicate for NodeStatus {
    fn duplicate(&self) -> (r: Self) {
        self.clone()
    }
}

impl Duplicate for Attachment {
    fn duplicate(&self) -> (r: Self) {
        self.clone()
    }
}

impl Duplicate for Task {
    fn duplicate(&self) -> (r: Self) {
        self.clone()
    }
}

impl Duplicate for Goal {
    fn duplicate(&self) -> (r: Self) {
        self.clone()
    }
}

} // verus!
