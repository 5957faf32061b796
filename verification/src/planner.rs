//! The deliberator's edges: what is handed to the oracle, and how its answer
//! becomes actions.

use vstd::prelude::*;
use crate::json::{json_member, json_member_str, json_member_u64, member, member_str, member_u64};
use crate::text::{
    clone_opt_string, clone_strings, elem_views, lemma_filter_none, lemma_filter_step, opt_view,
    quote, quoted, str_eq, views,
};
use crate::types::{
    Attachment, AttachmentKind, AttachmentKindView, AttachmentView, BrainAction, BrainActionView,
    ClusterModel, ClusterView, Goal, GoalView, NodeStatusView, TaskPayload, TaskPayloadView,
    TaskView,
};

verus! {

/// One action as the oracle wrote it: its kind, and the rest of its members
/// as the text of a JSON object.
#[derive(Debug)]
pub struct RawAction {
    pub action_type: String,
    pub fields: String,
}

/// What was found among the members of a raw action. A member that is
/// missing, or is not of the type looked for, is absent.
#[derive(Debug)]
pub struct ActionFields {
    pub has_task: bool,
    pub task_type: Option<String>,
    pub message: Option<String>,
    pub src: Option<String>,
    pub dst: Option<String>,
    pub service_name: Option<String>,
    pub target_node: Option<String>,
    pub priority: Option<u64>,
    pub task_id: Option<String>,
    pub to_node: Option<String>,
    pub goal_id: Option<String>,
    pub progress_percent: Option<u64>,
    pub notes: Option<String>,
    pub node_id: Option<String>,
    pub reason: Option<String>,
    pub action_description: Option<String>,
    pub severity: Option<String>,
}

pub struct ActionFieldsView {
    pub has_task: bool,
    pub task_type: Option<Seq<char>>,
    pub message: Option<Seq<char>>,
    pub src: Option<Seq<char>>,
    pub dst: Option<Seq<char>>,
    pub service_name: Option<Seq<char>>,
    pub target_node: Option<Seq<char>>,
    pub priority: Option<u64>,
    pub task_id: Option<Seq<char>>,
    pub to_node: Option<Seq<char>>,
    pub goal_id: Option<Seq<char>>,
    pub progress_percent: Option<u64>,
    pub notes: Option<Seq<char>>,
    pub node_id: Option<Seq<char>>,
    pub reason: Option<Seq<char>>,
    pub action_description: Option<Seq<char>>,
    pub severity: Option<Seq<char>>,
}

impl View for ActionFields {
    type V = ActionFieldsView;

    open spec fn view(&self) -> ActionFieldsView {
        ActionFieldsView {
            has_task: self.has_task,
            task_type: opt_view(self.task_type),
            message: opt_view(self.message),
            src: opt_view(self.src),
            dst: opt_view(self.dst),
            service_name: opt_view(self.service_name),
            target_node: opt_view(self.target_node),
            priority: self.priority,
            task_id: opt_view(self.task_id),
            to_node: opt_view(self.to_node),
            goal_id: opt_view(self.goal_id),
            progress_percent: self.progress_percent,
            notes: opt_view(self.notes),
            node_id: opt_view(self.node_id),
            reason: opt_view(self.reason),
            action_description: opt_view(self.action_description),
            severity: opt_view(self.severity),
        }
    }
}

/// Why a raw action is no action.
#[derive(Debug)]
pub enum ParseError {
    MissingTask,
    MissingTaskType,
    UnknownTaskType { task_type: String },
    UnknownActionType { action_type: String },
}

pub enum ParseErrorView {
    MissingTask,
    MissingTaskType,
    UnknownTaskType { task_type: Seq<char> },
    UnknownActionType { action_type: Seq<char> },
}

impl View for ParseError {
    type V = ParseErrorView;

    open spec fn view(&self) -> ParseErrorView {
        match self {
            ParseError::MissingTask => ParseErrorView::MissingTask,
            ParseError::MissingTaskType => ParseErrorView::MissingTaskType,
            ParseError::UnknownTaskType { task_type } => ParseErrorView::UnknownTaskType {
                task_type: task_type@,
            },
            ParseError::UnknownActionType { action_type } => ParseErrorView::UnknownActionType {
                action_type: action_type@,
            },
        }
    }
}

impl ParseErrorView {
    /// The reason in words.
    pub open spec fn message(self) -> Seq<char> {
        match self {
            ParseErrorView::MissingTask => "Missing task"@,
            ParseErrorView::MissingTaskType => "Missing task type"@,
            ParseErrorView::UnknownTaskType { task_type } => "Unknown task type: "@ + task_type,
            ParseErrorView::UnknownActionType { action_type } => "Unknown action type: "@
                + action_type,
        }
    }
}

impl ParseError {
    /// The reason in words.
    pub fn message(&self) -> (r: String)
        ensures
            r@ == self@.message(),
    {
        match self {
            ParseError::MissingTask => String::from_str("Missing task"),
            ParseError::MissingTaskType => String::from_str("Missing task type"),
            ParseError::UnknownTaskType { task_type } => {
                let mut s = String::from_str("Unknown task type: ");
                s.append(task_type.as_str());
                s
            },
            ParseError::UnknownActionType { action_type } => {
                let mut s = String::from_str("Unknown action type: ");
                s.append(action_type.as_str());
                s
            },
        }
    }
}

/// The view of a parse result.
pub open spec fn parsed_view(r: Result<BrainAction, ParseError>) -> Result<
    BrainActionView,
    ParseErrorView,
> {
    match r {
        Ok(a) => Ok(a@),
        Err(e) => Err(e@),
    }
}

/// The text, or the empty text where there is none.
pub open spec fn or_empty(o: Option<Seq<char>>) -> Seq<char> {
    match o {
        Some(s) => s,
        None => Seq::empty(),
    }
}

/// The text, or `fallback` where there is none.
pub open spec fn or_text(o: Option<Seq<char>>, fallback: Seq<char>) -> Seq<char> {
    match o {
        Some(s) => s,
        None => fallback,
    }
}

/// The number cut down to its lowest eight bits, or `fallback` where there
/// is none.
pub open spec fn low_byte_or(o: Option<u64>, fallback: u8) -> u8 {
    match o {
        Some(n) => (n % 256) as u8,
        None => fallback,
    }
}

/// The task that the members of a raw action describe.
pub open spec fn task_of(f: ActionFieldsView) -> Result<TaskPayloadView, ParseErrorView> {
    if !f.has_task {
        Err(ParseErrorView::MissingTask)
    } else if f.task_type is None {
        Err(ParseErrorView::MissingTaskType)
    } else {
        let kind = f.task_type->0;
        if kind == "Echo"@ {
            Ok(TaskPayloadView::Echo { message: or_empty(f.message) })
        } else if kind == "SyncDirectory"@ {
            Ok(TaskPayloadView::SyncDirectory { src: or_empty(f.src), dst: or_empty(f.dst) })
        } else if kind == "CheckService"@ {
            Ok(TaskPayloadView::CheckService { service_name: or_empty(f.service_name) })
        } else if kind == "RestartService"@ {
            Ok(TaskPayloadView::RestartService { service_name: or_empty(f.service_name) })
        } else {
            Err(ParseErrorView::UnknownTaskType { task_type: kind })
        }
    }
}

/// The action that a kind and the members found with it describe: the
/// closed schema of what the oracle may propose. A text that is absent
/// counts as empty, a priority as 5, a progress as 0, a severity as
/// "medium".
pub open spec fn action_of(action_type: Seq<char>, f: ActionFieldsView) -> Result<
    BrainActionView,
    ParseErrorView,
> {
    if action_type == "ScheduleTask"@ {
        match task_of(f) {
            Ok(task) => Ok(
                BrainActionView::ScheduleTask {
                    task,
                    target_node: or_empty(f.target_node),
                    priority: low_byte_or(f.priority, 5),
                },
            ),
            Err(e) => Err(e),
        }
    } else if action_type == "RebalanceTask"@ {
        Ok(
            BrainActionView::RebalanceTask {
                task_id: or_empty(f.task_id),
                to_node: or_empty(f.to_node),
            },
        )
    } else if action_type == "CancelTask"@ {
        Ok(BrainActionView::CancelTask { task_id: or_empty(f.task_id) })
    } else if action_type == "UpdateGoalProgress"@ {
        Ok(
            BrainActionView::UpdateGoalProgress {
                goal_id: or_empty(f.goal_id),
                progress_percent: low_byte_or(f.progress_percent, 0),
                notes: f.notes,
            },
        )
    } else if action_type == "MarkNodeDegraded"@ {
        Ok(
            BrainActionView::MarkNodeDegraded {
                node_id: or_empty(f.node_id),
                reason: or_empty(f.reason),
            },
        )
    } else if action_type == "RequestHumanApproval"@ {
        Ok(
            BrainActionView::RequestHumanApproval {
                action_description: or_empty(f.action_description),
                severity: or_text(f.severity, "medium"@),
            },
        )
    } else if action_type == "NoOp"@ {
        Ok(BrainActionView::NoOp { reason: or_empty(f.reason) })
    } else {
        Err(ParseErrorView::UnknownActionType { action_type })
    }
}

/// What a JSON object holds of the members that an action may have. The
/// members of a task are looked for in the member `task`.
pub open spec fn fields_in(text: Seq<char>) -> ActionFieldsView {
    let task = json_member(text, "task"@);
    let inner = or_empty(task);
    ActionFieldsView {
        has_task: task is Some,
        task_type: if task is Some { json_member_str(inner, "type"@) } else { None },
        message: if task is Some { json_member_str(inner, "message"@) } else { None },
        src: if task is Some { json_member_str(inner, "src"@) } else { None },
        dst: if task is Some { json_member_str(inner, "dst"@) } else { None },
        service_name: if task is Some { json_member_str(inner, "service_name"@) } else { None },
        target_node: json_member_str(text, "target_node"@),
        priority: json_member_u64(text, "priority"@),
        task_id: json_member_str(text, "task_id"@),
        to_node: json_member_str(text, "to_node"@),
        goal_id: json_member_str(text, "goal_id"@),
        progress_percent: json_member_u64(text, "progress_percent"@),
        notes: json_member_str(text, "notes"@),
        node_id: json_member_str(text, "node_id"@),
        reason: json_member_str(text, "reason"@),
        action_description: json_member_str(text, "action_description"@),
        severity: json_member_str(text, "severity"@),
    }
}

fn text_or(o: &Option<String>, fallback: &str) -> (r: String)
    ensures
        r@ == or_text(opt_view(*o), fallback@),
{
    match o {
        Some(s) => s.clone(),
        None => String::from_str(fallback),
    }
}

fn text_or_empty(o: &Option<String>) -> (r: String)
    ensures
        r@ == or_empty(opt_view(*o)),
{
    match o {
        Some(s) => s.clone(),
        None => String::new(),
    }
}

fn byte_or(o: Option<u64>, fallback: u8) -> (r: u8)
    ensures
        r == low_byte_or(o, fallback),
{
    match o {
        Some(n) => (n % 256) as u8,
        None => fallback,
    }
}

fn task_from_fields(fields: &ActionFields) -> (r: Result<TaskPayload, ParseError>)
    ensures
        match r {
            Ok(t) => task_of(fields@) == Ok::<TaskPayloadView, ParseErrorView>(t@),
            Err(e) => task_of(fields@) == Err::<TaskPayloadView, ParseErrorView>(e@),
        },
{
    if !fields.has_task {
        return Err(ParseError::MissingTask);
    }
    match &fields.task_type {
        None => Err(ParseError::MissingTaskType),
        Some(kind) => {
            let k = kind.as_str();
            if str_eq(k, "Echo") {
                Ok(TaskPayload::Echo { message: text_or_empty(&fields.message) })
            } else if str_eq(k, "SyncDirectory") {
                Ok(
                    TaskPayload::SyncDirectory {
                        src: text_or_empty(&fields.src),
                        dst: text_or_empty(&fields.dst),
                    },
                )
            } else if str_eq(k, "CheckService") {
                Ok(TaskPayload::CheckService { service_name: text_or_empty(&fields.service_name) })
            } else if str_eq(k, "RestartService") {
                Ok(
                    TaskPayload::RestartService {
                        service_name: text_or_empty(&fields.service_name),
                    },
                )
            } else {
                Err(ParseError::UnknownTaskType { task_type: kind.clone() })
            }
        },
    }
}

/// Builds the action that `action_type` and the members found with it
/// describe.
pub fn build_action(action_type: &str, fields: &ActionFields) -> (r: Result<
    BrainAction,
    ParseError,
>)
    ensures
        parsed_view(r) == action_of(action_type@, fields@),
{
    if str_eq(action_type, "ScheduleTask") {
        match task_from_fields(fields) {
            Ok(task) => Ok(
                BrainAction::ScheduleTask {
                    task,
                    target_node: text_or_empty(&fields.target_node),
                    priority: byte_or(fields.priority, 5),
                },
            ),
            Err(e) => Err(e),
        }
    } else if str_eq(action_type, "RebalanceTask") {
        Ok(
            BrainAction::RebalanceTask {
                task_id: text_or_empty(&fields.task_id),
                to_node: text_or_empty(&fields.to_node),
            },
        )
    } else if str_eq(action_type, "CancelTask") {
        Ok(BrainAction::CancelTask { task_id: text_or_empty(&fields.task_id) })
    } else if str_eq(action_type, "UpdateGoalProgress") {
        Ok(
            BrainAction::UpdateGoalProgress {
                goal_id: text_or_empty(&fields.goal_id),
                progress_percent: byte_or(fields.progress_percent, 0),
                notes: clone_opt_string(&fields.notes),
            },
        )
    } else if str_eq(action_type, "MarkNodeDegraded") {
        Ok(
            BrainAction::MarkNodeDegraded {
                node_id: text_or_empty(&fields.node_id),
                reason: text_or_empty(&fields.reason),
            },
        )
    } else if str_eq(action_type, "RequestHumanApproval") {
        Ok(
            BrainAction::RequestHumanApproval {
                action_description: text_or_empty(&fields.action_description),
                severity: text_or(&fields.severity, "medium"),
            },
        )
    } else if str_eq(action_type, "NoOp") {
        Ok(BrainAction::NoOp { reason: text_or_empty(&fields.reason) })
    } else {
        Err(ParseError::UnknownActionType { action_type: String::from_str(action_type) })
    }
}

/// Looks up, in the JSON object `text`, the members that an action may have.
pub fn find_fields(text: &str) -> (r: ActionFields)
    ensures
        r@ == fields_in(text@),
{
    let task = member(text, "task");
    let (task_type, message, src, dst, service_name) = match &task {
        Some(inner) => (
            member_str(inner.as_str(), "type"),
            member_str(inner.as_str(), "message"),
            member_str(inner.as_str(), "src"),
            member_str(inner.as_str(), "dst"),
            member_str(inner.as_str(), "service_name"),
        ),
        None => (None, None, None, None, None),
    };
    ActionFields {
        has_task: task.is_some(),
        task_type,
        message,
        src,
        dst,
        service_name,
        target_node: member_str(text, "target_node"),
        priority: member_u64(text, "priority"),
        task_id: member_str(text, "task_id"),
        to_node: member_str(text, "to_node"),
        goal_id: member_str(text, "goal_id"),
        progress_percent: member_u64(text, "progress_percent"),
        notes: member_str(text, "notes"),
        node_id: member_str(text, "node_id"),
        reason: member_str(text, "reason"),
        action_description: member_str(text, "action_description"),
        severity: member_str(text, "severity"),
    }
}

/// Turns a raw action into an action, or says why it is none.
pub fn parse_action(raw: &RawAction) -> (r: Result<BrainAction, ParseError>)
    ensures
        parsed_view(r) == action_of(raw.action_type@, fields_in(raw.fields@)),
{
    let fields = find_fields(raw.fields.as_str());
    build_action(raw.action_type.as_str(), &fields)
}

/// A goal as the oracle is told of it.
#[derive(Debug)]
pub struct GoalSummary {
    pub id: String,
    pub description: String,
    pub priority: u8,
}

pub struct GoalSummaryView {
    pub id: Seq<char>,
    pub description: Seq<char>,
    pub priority: u8,
}

impl View for GoalSummary {
    type V = GoalSummaryView;

    open spec fn view(&self) -> GoalSummaryView {
        GoalSummaryView { id: self.id@, description: self.description@, priority: self.priority }
    }
}

/// A node as the oracle is told of it, with the number of its active tasks.
#[derive(Debug)]
pub struct NodeSummary {
    pub node_id: String,
    pub hostname: String,
    pub tags: Vec<String>,
    pub cpu_usage: u32,
    pub memory_usage: u32,
    pub disk_usage: u32,
    pub task_count: usize,
}

pub struct NodeSummaryView {
    pub node_id: Seq<char>,
    pub hostname: Seq<char>,
    pub tags: Seq<Seq<char>>,
    pub cpu_usage: u32,
    pub memory_usage: u32,
    pub disk_usage: u32,
    pub task_count: usize,
}

impl View for NodeSummary {
    type V = NodeSummaryView;

    open spec fn view(&self) -> NodeSummaryView {
        NodeSummaryView {
            node_id: self.node_id@,
            hostname: self.hostname@,
            tags: views(self.tags@),
            cpu_usage: self.cpu_usage,
            memory_usage: self.memory_usage,
            disk_usage: self.disk_usage,
            task_count: self.task_count,
        }
    }
}

/// The cluster as the oracle is told of it.
#[derive(Debug)]
pub struct ClusterSummary {
    pub node_count: usize,
    pub healthy_nodes: Vec<NodeSummary>,
    pub degraded_nodes: Vec<NodeSummary>,
    pub pending_tasks: usize,
    pub running_tasks: usize,
    pub leader_id: Option<String>,
}

pub struct ClusterSummaryView {
    pub node_count: usize,
    pub healthy_nodes: Seq<NodeSummaryView>,
    pub degraded_nodes: Seq<NodeSummaryView>,
    pub pending_tasks: usize,
    pub running_tasks: usize,
    pub leader_id: Option<Seq<char>>,
}

impl View for ClusterSummary {
    type V = ClusterSummaryView;

    open spec fn view(&self) -> ClusterSummaryView {
        ClusterSummaryView {
            node_count: self.node_count,
            healthy_nodes: elem_views(self.healthy_nodes@),
            degraded_nodes: elem_views(self.degraded_nodes@),
            pending_tasks: self.pending_tasks,
            running_tasks: self.running_tasks,
            leader_id: opt_view(self.leader_id),
        }
    }
}

/// An attachment as the oracle is told of it.
#[derive(Debug)]
pub struct AttachmentSummary {
    pub id: String,
    pub node_id: String,
    pub kind: String,
    pub capabilities: Vec<String>,
}

pub struct AttachmentSummaryView {
    pub id: Seq<char>,
    pub node_id: Seq<char>,
    pub kind: Seq<char>,
    pub capabilities: Seq<Seq<char>>,
}

impl View for AttachmentSummary {
    type V = AttachmentSummaryView;

    open spec fn view(&self) -> AttachmentSummaryView {
        AttachmentSummaryView {
            id: self.id@,
            node_id: self.node_id@,
            kind: self.kind@,
            capabilities: views(self.capabilities@),
        }
    }
}

/// What the oracle is asked to deliberate on.
#[derive(Debug)]
pub struct PlannerInput {
    pub goals: Vec<GoalSummary>,
    pub cluster: ClusterSummary,
    pub attachments: Vec<AttachmentSummary>,
}

pub struct PlannerInputView {
    pub goals: Seq<GoalSummaryView>,
    pub cluster: ClusterSummaryView,
    pub attachments: Seq<AttachmentSummaryView>,
}

impl View for PlannerInput {
    type V = PlannerInputView;

    open spec fn view(&self) -> PlannerInputView {
        PlannerInputView {
            goals: elem_views(self.goals@),
            cluster: self.cluster@,
            attachments: elem_views(self.attachments@),
        }
    }
}

/// The goals that are active.
pub open spec fn goal_active() -> spec_fn(GoalView) -> bool {
    |g: GoalView| g.active
}

/// The nodes that are healthy.
pub open spec fn node_healthy() -> spec_fn(NodeStatusView) -> bool {
    |n: NodeStatusView| n.health is Healthy
}

/// The nodes that are not healthy.
pub open spec fn node_unhealthy() -> spec_fn(NodeStatusView) -> bool {
    |n: NodeStatusView| !(n.health is Healthy)
}

/// The tasks that are pending.
pub open spec fn task_pending() -> spec_fn(TaskView) -> bool {
    |t: TaskView| t.status is Pending
}

/// The tasks that are running.
pub open spec fn task_running() -> spec_fn(TaskView) -> bool {
    |t: TaskView| t.status is Running
}

/// The summary of a goal.
pub open spec fn goal_summary() -> spec_fn(GoalView) -> GoalSummaryView {
    |g: GoalView| GoalSummaryView { id: g.id, description: g.description, priority: g.priority }
}

/// The summary of a node of `cluster`.
pub open spec fn node_summary(cluster: ClusterModel) -> spec_fn(NodeStatusView) -> NodeSummaryView {
    |n: NodeStatusView|
        NodeSummaryView {
            node_id: n.node_id,
            hostname: n.hostname,
            tags: n.tags,
            cpu_usage: n.cpu_usage,
            memory_usage: n.memory_usage,
            disk_usage: n.disk_usage,
            task_count: cluster.active_tasks(n.node_id) as usize,
        }
}

/// The name of a kind of attachment; a custom kind goes by its own name.
pub open spec fn kind_label(kind: AttachmentKindView) -> Seq<char> {
    match kind {
        AttachmentKindView::Directory { .. } => "directory"@,
        AttachmentKindView::File { .. } => "file"@,
        AttachmentKindView::DockerContainer { .. } => "docker"@,
        AttachmentKindView::Service { .. } => "service"@,
        AttachmentKindView::Webhook { .. } => "webhook"@,
        AttachmentKindView::Custom { kind_name, .. } => kind_name,
    }
}

/// An optional text in words.
pub open spec fn option_text(o: Option<Seq<char>>) -> Seq<char> {
    match o {
        Some(s) => "Some("@ + quoted(s) + ")"@,
        None => "None"@,
    }
}

/// A kind of attachment in words, with what it holds: its name, and between
/// braces its fields, each with its name and its quoted text. The
/// configuration of a custom kind stands as the JSON text that it is.
pub open spec fn kind_text(kind: AttachmentKindView) -> Seq<char> {
    match kind {
        AttachmentKindView::Directory { path } => "Directory { path: "@ + quoted(path) + " }"@,
        AttachmentKindView::File { path } => "File { path: "@ + quoted(path) + " }"@,
        AttachmentKindView::DockerContainer { container_id } => {
            "DockerContainer { container_id: "@ + quoted(container_id) + " }"@
        },
        AttachmentKindView::Service { name, unit } => "Service { name: "@ + quoted(name)
            + ", unit: "@ + option_text(unit) + " }"@,
        AttachmentKindView::Webhook { url } => "Webhook { url: "@ + quoted(url) + " }"@,
        AttachmentKindView::Custom { kind_name, config } => "Custom { kind_name: "@ + quoted(
            kind_name,
        ) + ", config: "@ + config + " }"@,
    }
}

/// The summary of an attachment.
pub open spec fn attachment_summary() -> spec_fn(AttachmentView) -> AttachmentSummaryView {
    |a: AttachmentView|
        AttachmentSummaryView {
            id: a.id,
            node_id: a.node_id,
            kind: kind_text(a.kind),
            capabilities: a.capabilities,
        }
}

/// What the oracle is told: the active goals; the nodes, healthy ones apart
/// from the others, each with the number of its active tasks; how many tasks
/// are pending and how many running; and the attachments.
pub open spec fn input_of(goals: Seq<GoalView>, cluster: ClusterModel, attachments: Seq<AttachmentView>)
    -> PlannerInputView {
    PlannerInputView {
        goals: goals.filter(goal_active()).map_values(goal_summary()),
        cluster: ClusterSummaryView {
            node_count: cluster.nodes.len() as usize,
            healthy_nodes: cluster.nodes.filter(node_healthy()).map_values(node_summary(cluster)),
            degraded_nodes: cluster.nodes.filter(node_unhealthy()).map_values(
                node_summary(cluster),
            ),
            pending_tasks: cluster.tasks.filter(task_pending()).len() as usize,
            running_tasks: cluster.tasks.filter(task_running()).len() as usize,
            leader_id: cluster.leader_id,
        },
        attachments: attachments.map_values(attachment_summary()),
    }
}

/// The name of a kind of attachment.
pub fn kind_name_of(kind: &AttachmentKind) -> (r: String)
    ensures
        r@ == kind_label(kind@),
{
    match kind {
        AttachmentKind::Directory { .. } => String::from_str("directory"),
        AttachmentKind::File { .. } => String::from_str("file"),
        AttachmentKind::DockerContainer { .. } => String::from_str("docker"),
        AttachmentKind::Service { .. } => String::from_str("service"),
        AttachmentKind::Webhook { .. } => String::from_str("webhook"),
        AttachmentKind::Custom { kind_name, .. } => kind_name.clone(),
    }
}

fn field_text(head: &str, value: &str, tail: &str) -> (r: String)
    ensures
        r@ == head@ + quoted(value@) + tail@,
{
    let mut s = String::from_str(head);
    let q = quote(value);
    s.append(q.as_str());
    s.append(tail);
    s
}

/// Writes a kind of attachment in words, with what it holds.
pub fn kind_in_words(kind: &AttachmentKind) -> (r: String)
    ensures
        r@ == kind_text(kind@),
{
    match kind {
        AttachmentKind::Directory { path } => field_text("Directory { path: ", path.as_str(), " }"),
        AttachmentKind::File { path } => field_text("File { path: ", path.as_str(), " }"),
        AttachmentKind::DockerContainer { container_id } => field_text(
            "DockerContainer { container_id: ",
            container_id.as_str(),
            " }",
        ),
        AttachmentKind::Service { name, unit } => {
            let mut s = field_text("Service { name: ", name.as_str(), ", unit: ");
            match unit {
                Some(u) => {
                    let inner = field_text("Some(", u.as_str(), ")");
                    s.append(inner.as_str());
                },
                None => {
                    s.append("None");
                },
            }
            s.append(" }");
            s
        },
        AttachmentKind::Webhook { url } => field_text("Webhook { url: ", url.as_str(), " }"),
        AttachmentKind::Custom { kind_name, config } => {
            let mut s = field_text("Custom { kind_name: ", kind_name.as_str(), ", config: ");
            s.append(config.as_str());
            s.append(" }");
            s
        },
    }
}

/// Summarises goals, cluster and attachments for the oracle.
pub fn build_input(goals: &Vec<Goal>, cluster: &ClusterView, attachments: &Vec<Attachment>) -> (r:
    PlannerInput)
    ensures
        r@ == input_of(elem_views(goals@), cluster@, elem_views(attachments@)),
{
    let ghost gs = elem_views(goals@);
    let ghost ns = cluster@.nodes;
    let ghost ts = cluster@.tasks;
    let ghost ats = elem_views(attachments@);

    let mut goal_summaries: Vec<GoalSummary> = Vec::new();
    let mut i: usize = 0;
    proof {
        lemma_filter_none(gs, goal_active());
        assert(elem_views(goal_summaries@) =~= gs.take(0).filter(goal_active()).map_values(
            goal_summary(),
        ));
    }
    while i < goals.len()
        invariant
            i <= goals@.len(),
            gs == elem_views(goals@),
            elem_views(goal_summaries@) == gs.take(i as int).filter(goal_active()).map_values(
                goal_summary(),
            ),
        decreases goals.len() - i,
    {
        proof {
            lemma_filter_step(gs, goal_active(), i as int);
        }
        let g = &goals[i];
        let ghost prev = goal_summaries@;
        if g.active {
            goal_summaries.push(
                GoalSummary {
                    id: g.id.clone(),
                    description: g.description.clone(),
                    priority: g.priority,
                },
            );
            assert(elem_views(goal_summaries@) =~= gs.take(i + 1).filter(
                goal_active(),
            ).map_values(goal_summary())) by {
                assert(elem_views(goal_summaries@) =~= elem_views(prev).push(
                    goal_summary()(gs[i as int]),
                ));
            }
        }
        i += 1;
    }

    let mut healthy_nodes: Vec<NodeSummary> = Vec::new();
    let mut degraded_nodes: Vec<NodeSummary> = Vec::new();
    let mut j: usize = 0;
    proof {
        lemma_filter_none(ns, node_healthy());
        lemma_filter_none(ns, node_unhealthy());
        assert(elem_views(healthy_nodes@) =~= ns.take(0).filter(node_healthy()).map_values(
            node_summary(cluster@),
        ));
        assert(elem_views(degraded_nodes@) =~= ns.take(0).filter(node_unhealthy()).map_values(
            node_summary(cluster@),
        ));
    }
    while j < cluster.nodes.len()
        invariant
            j <= cluster.nodes@.len(),
            ns == cluster@.nodes,
            elem_views(healthy_nodes@) == ns.take(j as int).filter(node_healthy()).map_values(
                node_summary(cluster@),
            ),
            elem_views(degraded_nodes@) == ns.take(j as int).filter(node_unhealthy()).map_values(
                node_summary(cluster@),
            ),
        decreases cluster.nodes.len() - j,
    {
        proof {
            lemma_filter_step(ns, node_healthy(), j as int);
            lemma_filter_step(ns, node_unhealthy(), j as int);
            assert(ns[j as int] == cluster.nodes@[j as int]@);
        }
        let node = &cluster.nodes[j];
        let summary = NodeSummary {
            node_id: node.node_id.clone(),
            hostname: node.hostname.clone(),
            tags: clone_strings(&node.tags),
            cpu_usage: node.cpu_usage,
            memory_usage: node.memory_usage,
            disk_usage: node.disk_usage,
            task_count: cluster.active_task_count(node.node_id.as_str()),
        };
        assert(summary@ == node_summary(cluster@)(ns[j as int]));
        let ghost prev_h = healthy_nodes@;
        let ghost prev_d = degraded_nodes@;
        if node.health.is_healthy() {
            healthy_nodes.push(summary);
            assert(elem_views(healthy_nodes@) =~= ns.take(j + 1).filter(
                node_healthy(),
            ).map_values(node_summary(cluster@))) by {
                assert(elem_views(healthy_nodes@) =~= elem_views(prev_h).push(
                    node_summary(cluster@)(ns[j as int]),
                ));
            }
        } else {
            degraded_nodes.push(summary);
            assert(elem_views(degraded_nodes@) =~= ns.take(j + 1).filter(
                node_unhealthy(),
            ).map_values(node_summary(cluster@))) by {
                assert(elem_views(degraded_nodes@) =~= elem_views(prev_d).push(
                    node_summary(cluster@)(ns[j as int]),
                ));
            }
        }
        j += 1;
    }

    let mut pending: usize = 0;
    let mut running: usize = 0;
    let mut k: usize = 0;
    proof {
        lemma_filter_none(ts, task_pending());
        lemma_filter_none(ts, task_running());
    }
    while k < cluster.tasks.len()
        invariant
            k <= cluster.tasks@.len(),
            ts == cluster@.tasks,
            pending <= k,
            running <= k,
            pending == ts.take(k as int).filter(task_pending()).len(),
            running == ts.take(k as int).filter(task_running()).len(),
        decreases cluster.tasks.len() - k,
    {
        proof {
            lemma_filter_step(ts, task_pending(), k as int);
            lemma_filter_step(ts, task_running(), k as int);
            assert(ts[k as int] == cluster.tasks@[k as int]@);
        }
        let t = &cluster.tasks[k];
        if t.status.is_pending() {
            pending += 1;
        } else if t.status.is_running() {
            running += 1;
        }
        k += 1;
    }

    let mut summaries: Vec<AttachmentSummary> = Vec::new();
    let mut m: usize = 0;
    while m < attachments.len()
        invariant
            m <= attachments@.len(),
            ats == elem_views(attachments@),
            summaries@.len() == m,
            forall|x: int| 0 <= x < m ==> (#[trigger] summaries@[x])@ == attachment_summary()(ats[x]),
        decreases attachments.len() - m,
    {
        let a = &attachments[m];
        summaries.push(
            AttachmentSummary {
                id: a.id.clone(),
                node_id: a.node_id.clone(),
                kind: kind_in_words(&a.kind),
                capabilities: clone_strings(&a.capabilities),
            },
        );
        m += 1;
    }
    proof {
        lemma_filter_none(gs, goal_active());
        lemma_filter_none(ns, node_healthy());
        lemma_filter_none(ns, node_unhealthy());
        lemma_filter_none(ts, task_pending());
        lemma_filter_none(ts, task_running());
        assert(elem_views(summaries@) =~= ats.map_values(attachment_summary()));
    }
    PlannerInput {
        goals: goal_summaries,
        cluster: ClusterSummary {
            node_count: cluster.nodes.len(),
            healthy_nodes,
            degraded_nodes,
            pending_tasks: pending,
            running_tasks: running,
            leader_id: clone_opt_string(&cluster.leader_id),
        },
        attachments: summaries,
    }
}

/// The actions among `raws`, in order; a raw action that is none is left
/// out.
pub open spec fn parseable(raws: Seq<(Seq<char>, Seq<char>)>) -> Seq<BrainActionView>
    decreases raws.len(),
{
    if raws.len() == 0 {
        Seq::empty()
    } else {
        let before = parseable(raws.drop_last());
        match action_of(raws.last().0, fields_in(raws.last().1)) {
            Ok(a) => before.push(a),
            Err(_) => before,
        }
    }
}

/// Raw actions as pairs of kind and members.
pub open spec fn raw_views(raws: Seq<RawAction>) -> Seq<(Seq<char>, Seq<char>)> {
    raws.map_values(|r: RawAction| (r.action_type@, r.fields@))
}

/// Turns the raw actions of an answer into actions; what does not parse is
/// skipped.
pub fn actions_from_raw(raws: &Vec<RawAction>) -> (r: Vec<BrainAction>)
    ensures
        elem_views(r@) == parseable(raw_views(raws@)),
{
    let ghost all = raw_views(raws@);
    let mut out: Vec<BrainAction> = Vec::new();
    let mut i: usize = 0;
    proof {
        assert(all.take(0) =~= Seq::empty());
        assert(elem_views(out@) =~= Seq::empty());
    }
    while i < raws.len()
        invariant
            i <= raws@.len(),
            all == raw_views(raws@),
            elem_views(out@) == parseable(all.take(i as int)),
        decreases raws.len() - i,
    {
        proof {
            assert(all.take(i + 1).drop_last() =~= all.take(i as int));
            assert(all.take(i + 1).last() == (raws@[i as int].action_type@, raws@[i as int].fields@));
        }
        let ghost prev = out@;
        match parse_action(&raws[i]) {
            Ok(action) => {
                out.push(action);
                assert(elem_views(out@) =~= elem_views(prev).push(action@));
            },
            Err(_) => {},
        }
        i += 1;
    }
    proof {
        assert(all.take(raws@.len() as int) =~= all);
    }
    out
}

/// Whether some goal is active.
pub fn has_active_goal(goals: &Vec<Goal>) -> (r: bool)
    ensures
        r == (elem_views(goals@).filter(goal_active()).len() > 0),
{
    let ghost gs = elem_views(goals@);
    let mut i: usize = 0;
    proof {
        lemma_filter_none(gs, goal_active());
    }
    while i < goals.len()
        invariant
            i <= goals@.len(),
            gs == elem_views(goals@),
            gs.take(i as int).filter(goal_active()).len() == 0,
        decreases goals.len() - i,
    {
        proof {
            lemma_filter_step(gs, goal_active(), i as int);
        }
        if goals[i].active {
            proof {
                lemma_filter_grows(gs, goal_active(), i + 1);
            }
            return true;
        }
        i += 1;
    }
    proof {
        lemma_filter_none(gs, goal_active());
    }
    false
}

proof fn lemma_filter_grows<A>(s: Seq<A>, p: spec_fn(A) -> bool, i: int)
    requires
        0 <= i <= s.len(),
    ensures
        s.take(i).filter(p).len() <= s.filter(p).len(),
    decreases s.len() - i,
{
    if i < s.len() {
        lemma_filter_step(s, p, i);
        lemma_filter_grows(s, p, i + 1);
    } else {
        lemma_filter_none(s, p);
    }
}

/// What a deliberator answers without asking anybody.
pub open spec fn disabled_plan() -> Seq<BrainActionView> {
    seq![BrainActionView::NoOp { reason: "disabled"@ }]
}

/// What there is to do while no goal is active.
pub open spec fn idle_plan() -> Seq<BrainActionView> {
    seq![BrainActionView::NoOp { reason: "No active goals"@ }]
}

/// The deliberator that proposes nothing.
#[derive(Debug, Clone, Copy)]
pub struct NoOpBrain;

impl NoOpBrain {
    /// Always the one action that does nothing, with the reason "disabled".
    pub fn plan(&self, goals: &Vec<Goal>, cluster: &ClusterView, attachments: &Vec<Attachment>)
        -> (r: Vec<BrainAction>)
        ensures
            elem_views(r@) == disabled_plan(),
    {
        let r = vec![BrainAction::NoOp { reason: String::from_str("disabled") }];
        assert(elem_views(r@) =~= disabled_plan());
        r
    }
}

/// What the oracle-driven deliberator does before it asks: with no active
/// goal it answers at once, with the one action that does nothing; else it
/// hands out what the oracle is to be told.
#[derive(Debug)]
pub enum PlanStep {
    Answer(Vec<BrainAction>),
    Ask(PlannerInput),
}

/// Decides whether the oracle is asked.
pub fn plan_step(goals: &Vec<Goal>, cluster: &ClusterView, attachments: &Vec<Attachment>) -> (r:
    PlanStep)
    ensures
        match r {
            PlanStep::Answer(actions) => elem_views(goals@).filter(goal_active()).len() == 0
                && elem_views(actions@) == idle_plan(),
            PlanStep::Ask(input) => elem_views(goals@).filter(goal_active()).len() > 0 && input@
                == input_of(elem_views(goals@), cluster@, elem_views(attachments@)),
        },
{
    if !has_active_goal(goals) {
        let r = vec![BrainAction::NoOp { reason: String::from_str("No active goals") }];
        assert(elem_views(r@) =~= idle_plan());
        PlanStep::Answer(r)
    } else {
        PlanStep::Ask(build_input(goals, cluster, attachments))
    }
}

/// The message that carries the state to the oracle: the state as JSON in a
/// fenced block, between a heading and the request.
pub open spec fn user_message(input_json: Seq<char>) -> Seq<char> {
    "Current state:\n```json\n"@ + input_json + "\n```\n\nAnalyze and propose actions."@
}

/// Writes the message that carries the state to the oracle.
pub fn user_prompt(input_json: &str) -> (r: String)
    ensures
        r@ == user_message(input_json@),
{
    let mut s = String::from_str("Current state:\n```json\n");
    s.append(input_json);
    s.append("\n```\n\nAnalyze and propose actions.");
    s
}

} // verus!
