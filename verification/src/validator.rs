//! The policy validator: a pure function from a proposed action and a
//! snapshot to acceptance or a rejection with its reason.

use vstd::prelude::*;
use crate::text::{
    clone_strings, decimal, decimal_text, is_prefix, lemma_trim_trailing, starts_with, str_eq,
    trim_end, trim_trailing, views,
};
use crate::types::{
    AttachmentKind, AttachmentKindView, BrainAction, BrainActionView, ClusterModel, ClusterView,
    TaskPayload, TaskPayloadView,
};

verus! {

/// The safety rules that every proposal is held to.
#[derive(Debug)]
pub struct ExecutionPolicy {
    pub allow_restart_services: bool,
    pub allow_docker: bool,
    pub allowed_sync_paths: Vec<String>,
    pub blocked_sync_paths: Vec<String>,
    pub require_approval_for_destructive: bool,
    pub max_concurrent_tasks_per_node: usize,
}

pub struct PolicyView {
    pub allow_restart_services: bool,
    pub allow_docker: bool,
    pub allowed_sync_paths: Seq<Seq<char>>,
    pub blocked_sync_paths: Seq<Seq<char>>,
    pub require_approval_for_destructive: bool,
    pub max_concurrent_tasks_per_node: usize,
}

impl View for ExecutionPolicy {
    type V = PolicyView;

    open spec fn view(&self) -> PolicyView {
        PolicyView {
            allow_restart_services: self.allow_restart_services,
            allow_docker: self.allow_docker,
            allowed_sync_paths: views(self.allowed_sync_paths@),
            blocked_sync_paths: views(self.blocked_sync_paths@),
            require_approval_for_destructive: self.require_approval_for_destructive,
            max_concurrent_tasks_per_node: self.max_concurrent_tasks_per_node,
        }
    }
}

impl Clone for ExecutionPolicy {
    fn clone(&self) -> (r: Self)
        ensures
            r@ == self@,
    {
        ExecutionPolicy {
            allow_restart_services: self.allow_restart_services,
            allow_docker: self.allow_docker,
            allowed_sync_paths: clone_strings(&self.allowed_sync_paths),
            blocked_sync_paths: clone_strings(&self.blocked_sync_paths),
            require_approval_for_destructive: self.require_approval_for_destructive,
            max_concurrent_tasks_per_node: self.max_concurrent_tasks_per_node,
        }
    }
}

/// The policy that is in force where none is configured: nothing that
/// restarts a service or runs a container, synchronisation only under
/// `/home` and `/data` and never under a system directory, five tasks per
/// node.
pub open spec fn default_policy() -> PolicyView {
    PolicyView {
        allow_restart_services: false,
        allow_docker: false,
        allowed_sync_paths: seq!["/home"@, "/data"@],
        blocked_sync_paths: seq!["/etc"@, "/var"@, "/usr"@, "/bin"@, "/sbin"@, "/root"@],
        require_approval_for_destructive: true,
        max_concurrent_tasks_per_node: 5,
    }
}

impl Default for ExecutionPolicy {
    fn default() -> (r: Self)
        ensures
            r@ == default_policy(),
    {
        let allowed = vec![String::from_str("/home"), String::from_str("/data")];
        let blocked = vec![
            String::from_str("/etc"),
            String::from_str("/var"),
            String::from_str("/usr"),
            String::from_str("/bin"),
            String::from_str("/sbin"),
            String::from_str("/root"),
        ];
        assert(views(allowed@) =~= default_policy().allowed_sync_paths);
        assert(views(blocked@) =~= default_policy().blocked_sync_paths);
        ExecutionPolicy {
            allow_restart_services: false,
            allow_docker: false,
            allowed_sync_paths: allowed,
            blocked_sync_paths: blocked,
            require_approval_for_destructive: true,
            max_concurrent_tasks_per_node: 5,
        }
    }
}

/// Why a proposal was rejected.
#[derive(Debug)]
pub enum ValidationError {
    NodeNotFound { node_id: String },
    TaskNotFound { task_id: String },
    GoalNotFound { goal_id: String },
    AttachmentNotFound { attachment_id: String },
    RestartNotAllowed,
    DockerNotAllowed,
    DockerAttachmentNotAllowed,
    PathBlocked { path: String },
    PathNotAllowed { path: String },
    ArbitraryCommand { command: String },
    CustomTool { tool_id: String },
    TaskLimit { node_id: String, active: usize, max: usize },
}

pub enum ValidationErrorView {
    NodeNotFound { node_id: Seq<char> },
    TaskNotFound { task_id: Seq<char> },
    GoalNotFound { goal_id: Seq<char> },
    AttachmentNotFound { attachment_id: Seq<char> },
    RestartNotAllowed,
    DockerNotAllowed,
    DockerAttachmentNotAllowed,
    PathBlocked { path: Seq<char> },
    PathNotAllowed { path: Seq<char> },
    ArbitraryCommand { command: Seq<char> },
    CustomTool { tool_id: Seq<char> },
    TaskLimit { node_id: Seq<char>, active: usize, max: usize },
}

impl View for ValidationError {
    type V = ValidationErrorView;

    open spec fn view(&self) -> ValidationErrorView {
        match self {
            ValidationError::NodeNotFound { node_id } => ValidationErrorView::NodeNotFound {
                node_id: node_id@,
            },
            ValidationError::TaskNotFound { task_id } => ValidationErrorView::TaskNotFound {
                task_id: task_id@,
            },
            ValidationError::GoalNotFound { goal_id } => ValidationErrorView::GoalNotFound {
                goal_id: goal_id@,
            },
            ValidationError::AttachmentNotFound { attachment_id } => {
                ValidationErrorView::AttachmentNotFound { attachment_id: attachment_id@ }
            },
            ValidationError::RestartNotAllowed => ValidationErrorView::RestartNotAllowed,
            ValidationError::DockerNotAllowed => ValidationErrorView::DockerNotAllowed,
            ValidationError::DockerAttachmentNotAllowed => {
                ValidationErrorView::DockerAttachmentNotAllowed
            },
            ValidationError::PathBlocked { path } => ValidationErrorView::PathBlocked {
                path: path@,
            },
            ValidationError::PathNotAllowed { path } => ValidationErrorView::PathNotAllowed {
                path: path@,
            },
            ValidationError::ArbitraryCommand { command } => ValidationErrorView::ArbitraryCommand {
                command: command@,
            },
            ValidationError::CustomTool { tool_id } => ValidationErrorView::CustomTool {
                tool_id: tool_id@,
            },
            ValidationError::TaskLimit { node_id, active, max } => ValidationErrorView::TaskLimit {
                node_id: node_id@,
                active: *active,
                max: *max,
            },
        }
    }
}

impl ValidationErrorView {
    /// The reason in words.
    pub open spec fn message(self) -> Seq<char> {
        match self {
            ValidationErrorView::NodeNotFound { node_id } => "Node '"@ + node_id
                + "' not found in cluster"@,
            ValidationErrorView::TaskNotFound { task_id } => "Task '"@ + task_id + "' not found"@,
            ValidationErrorView::GoalNotFound { goal_id } => "Goal '"@ + goal_id + "' not found"@,
            ValidationErrorView::AttachmentNotFound { attachment_id } => "Attachment '"@
                + attachment_id + "' not found"@,
            ValidationErrorView::RestartNotAllowed => "Policy: service restart not allowed"@,
            ValidationErrorView::DockerNotAllowed => "Policy: Docker execution not allowed"@,
            ValidationErrorView::DockerAttachmentNotAllowed => {
                "Policy: Docker attachments not allowed"@
            },
            ValidationErrorView::PathBlocked { path } => "Policy: path '"@ + path + "' is blocked"@,
            ValidationErrorView::PathNotAllowed { path } => "Policy: path '"@ + path
                + "' not in allowed paths"@,
            ValidationErrorView::ArbitraryCommand { command } => {
                "Policy: arbitrary command execution not allowed: "@ + command
            },
            ValidationErrorView::CustomTool { tool_id } => "Policy: custom tool '"@ + tool_id
                + "' not pre-approved"@,
            ValidationErrorView::TaskLimit { node_id, active, max } => "Policy: node '"@ + node_id
                + "' has "@ + decimal(active as nat) + " active tasks (max: "@ + decimal(
                max as nat,
            ) + ")"@,
        }
    }
}

/// Every rejection carries a reason that is not empty.
pub proof fn lemma_message_nonempty(e: ValidationErrorView)
    ensures
        e.message().len() > 0,
{
    reveal_strlit("Node '");
    reveal_strlit("Task '");
    reveal_strlit("Goal '");
    reveal_strlit("Attachment '");
    reveal_strlit("Policy: service restart not allowed");
    reveal_strlit("Policy: Docker execution not allowed");
    reveal_strlit("Policy: Docker attachments not allowed");
    reveal_strlit("Policy: path '");
    reveal_strlit("Policy: arbitrary command execution not allowed: ");
    reveal_strlit("Policy: custom tool '");
    reveal_strlit("Policy: node '");
}

impl ValidationError {
    /// The reason in words.
    pub fn message(&self) -> (r: String)
        ensures
            r@ == self@.message(),
            r@.len() > 0,
    {
        proof {
            lemma_message_nonempty(self@);
        }
        match self {
            ValidationError::NodeNotFound { node_id } => {
                let mut s = String::from_str("Node '");
                s.append(node_id.as_str());
                s.append("' not found in cluster");
                s
            },
            ValidationError::TaskNotFound { task_id } => {
                let mut s = String::from_str("Task '");
                s.append(task_id.as_str());
                s.append("' not found");
                s
            },
            ValidationError::GoalNotFound { goal_id } => {
                let mut s = String::from_str("Goal '");
                s.append(goal_id.as_str());
                s.append("' not found");
                s
            },
            ValidationError::AttachmentNotFound { attachment_id } => {
                let mut s = String::from_str("Attachment '");
                s.append(attachment_id.as_str());
                s.append("' not found");
                s
            },
            ValidationError::RestartNotAllowed => String::from_str(
                "Policy: service restart not allowed",
            ),
            ValidationError::DockerNotAllowed => String::from_str(
                "Policy: Docker execution not allowed",
            ),
            ValidationError::DockerAttachmentNotAllowed => String::from_str(
                "Policy: Docker attachments not allowed",
            ),
            ValidationError::PathBlocked { path } => {
                let mut s = String::from_str("Policy: path '");
                s.append(path.as_str());
                s.append("' is blocked");
                s
            },
            ValidationError::PathNotAllowed { path } => {
                let mut s = String::from_str("Policy: path '");
                s.append(path.as_str());
                s.append("' not in allowed paths");
                s
            },
            ValidationError::ArbitraryCommand { command } => {
                let mut s = String::from_str("Policy: arbitrary command execution not allowed: ");
                s.append(command.as_str());
                s
            },
            ValidationError::CustomTool { tool_id } => {
                let mut s = String::from_str("Policy: custom tool '");
                s.append(tool_id.as_str());
                s.append("' not pre-approved");
                s
            },
            ValidationError::TaskLimit { node_id, active, max } => {
                let mut s = String::from_str("Policy: node '");
                s.append(node_id.as_str());
                s.append("' has ");
                let a = decimal_text(*active as u64);
                s.append(a.as_str());
                s.append(" active tasks (max: ");
                let m = decimal_text(*max as u64);
                s.append(m.as_str());
                s.append(")");
                s
            },
        }
    }
}

/// The view of a verdict.
pub open spec fn verdict_view(r: Result<(), ValidationError>) -> Result<(), ValidationErrorView> {
    match r {
        Ok(_) => Ok(()),
        Err(e) => Err(e@),
    }
}

/// The second verdict, unless the first one already rejects.
pub open spec fn both(
    first: Result<(), ValidationErrorView>,
    second: Result<(), ValidationErrorView>,
) -> Result<(), ValidationErrorView> {
    if first is Err {
        first
    } else {
        second
    }
}

/// A path with the slashes at its end taken away; a path made of slashes
/// alone stands for the root.
pub open spec fn canonical_path(p: Seq<char>) -> Seq<char> {
    let t = trim_trailing(p, '/');
    if t.len() == 0 && p.len() > 0 {
        seq!['/']
    } else {
        t
    }
}

/// `path` lies under one of `prefixes`: its canonical form starts with the
/// canonical form of one of them.
pub open spec fn under_any(prefixes: Seq<Seq<char>>, path: Seq<char>) -> bool {
    exists|i: int|
        0 <= i < prefixes.len() && is_prefix(
            canonical_path(#[trigger] prefixes[i]),
            canonical_path(path),
        )
}

/// The rule on paths: nothing under a blocked prefix; and, where any
/// prefixes are allowed, only what lies under one of them.
pub open spec fn path_verdict(policy: PolicyView, path: Seq<char>) -> Result<
    (),
    ValidationErrorView,
> {
    if under_any(policy.blocked_sync_paths, path) {
        Err(ValidationErrorView::PathBlocked { path })
    } else if policy.allowed_sync_paths.len() > 0 && !under_any(policy.allowed_sync_paths, path) {
        Err(ValidationErrorView::PathNotAllowed { path })
    } else {
        Ok(())
    }
}

/// The rule on what a task may do.
pub open spec fn payload_verdict(policy: PolicyView, payload: TaskPayloadView) -> Result<
    (),
    ValidationErrorView,
> {
    match payload {
        TaskPayloadView::Echo { .. } => Ok(()),
        TaskPayloadView::CheckService { .. } => Ok(()),
        TaskPayloadView::RestartService { .. } => if policy.allow_restart_services {
            Ok(())
        } else {
            Err(ValidationErrorView::RestartNotAllowed)
        },
        TaskPayloadView::DockerRun { .. } => if policy.allow_docker {
            Ok(())
        } else {
            Err(ValidationErrorView::DockerNotAllowed)
        },
        TaskPayloadView::SyncDirectory { src, dst } => both(
            path_verdict(policy, src),
            path_verdict(policy, dst),
        ),
        TaskPayloadView::RunCommand { command, .. } => Err(
            ValidationErrorView::ArbitraryCommand { command },
        ),
        TaskPayloadView::Custom { tool_id, .. } => Err(ValidationErrorView::CustomTool { tool_id }),
    }
}

/// The rule on what may be attached.
pub open spec fn kind_verdict(policy: PolicyView, kind: AttachmentKindView) -> Result<
    (),
    ValidationErrorView,
> {
    match kind {
        AttachmentKindView::Directory { path } => path_verdict(policy, path),
        AttachmentKindView::File { path } => path_verdict(policy, path),
        AttachmentKindView::DockerContainer { .. } => if policy.allow_docker {
            Ok(())
        } else {
            Err(ValidationErrorView::DockerAttachmentNotAllowed)
        },
        _ => Ok(()),
    }
}

/// The named node must be in the snapshot.
pub open spec fn node_verdict(cluster: ClusterModel, node_id: Seq<char>) -> Result<
    (),
    ValidationErrorView,
> {
    if cluster.has_node(node_id) {
        Ok(())
    } else {
        Err(ValidationErrorView::NodeNotFound { node_id })
    }
}

/// The named task must be in the snapshot.
pub open spec fn task_verdict(cluster: ClusterModel, task_id: Seq<char>) -> Result<
    (),
    ValidationErrorView,
> {
    if cluster.has_task(task_id) {
        Ok(())
    } else {
        Err(ValidationErrorView::TaskNotFound { task_id })
    }
}

/// The named goal must be in the snapshot.
pub open spec fn goal_verdict(cluster: ClusterModel, goal_id: Seq<char>) -> Result<
    (),
    ValidationErrorView,
> {
    if cluster.has_goal(goal_id) {
        Ok(())
    } else {
        Err(ValidationErrorView::GoalNotFound { goal_id })
    }
}

/// The named attachment must be in the snapshot.
pub open spec fn attachment_verdict(cluster: ClusterModel, attachment_id: Seq<char>) -> Result<
    (),
    ValidationErrorView,
> {
    if cluster.has_attachment(attachment_id) {
        Ok(())
    } else {
        Err(ValidationErrorView::AttachmentNotFound { attachment_id })
    }
}

/// A node takes a new task only while it has fewer active ones than the
/// policy's limit.
pub open spec fn limit_verdict(policy: PolicyView, cluster: ClusterModel, node_id: Seq<char>)
    -> Result<(), ValidationErrorView> {
    if cluster.active_tasks(node_id) >= policy.max_concurrent_tasks_per_node {
        Err(
            ValidationErrorView::TaskLimit {
                node_id,
                active: cluster.active_tasks(node_id) as usize,
                max: policy.max_concurrent_tasks_per_node,
            },
        )
    } else {
        Ok(())
    }
}

/// The verdict on `action` against `cluster` under `policy`: the first rule
/// that fails decides.
pub open spec fn verdict(policy: PolicyView, action: BrainActionView, cluster: ClusterModel)
    -> Result<(), ValidationErrorView> {
    match action {
        BrainActionView::ScheduleTask { task, target_node, .. } => both(
            node_verdict(cluster, target_node),
            both(payload_verdict(policy, task), limit_verdict(policy, cluster, target_node)),
        ),
        BrainActionView::RebalanceTask { task_id, to_node } => both(
            node_verdict(cluster, to_node),
            task_verdict(cluster, task_id),
        ),
        BrainActionView::CancelTask { task_id } => task_verdict(cluster, task_id),
        BrainActionView::MarkNodeDegraded { node_id, .. } => node_verdict(cluster, node_id),
        BrainActionView::CreateAttachment { node_id, kind, .. } => both(
            node_verdict(cluster, node_id),
            kind_verdict(policy, kind),
        ),
        BrainActionView::RemoveAttachment { attachment_id } => attachment_verdict(
            cluster,
            attachment_id,
        ),
        BrainActionView::UpdateGoalProgress { goal_id, .. } => goal_verdict(cluster, goal_id),
        BrainActionView::RequestHumanApproval { .. } => Ok(()),
        BrainActionView::NoOp { .. } => Ok(()),
    }
}

/// A path under a blocked prefix is rejected as blocked, whatever the
/// allowed prefixes are.
pub proof fn lemma_blocked_wins(policy: PolicyView, path: Seq<char>)
    requires
        under_any(policy.blocked_sync_paths, path),
    ensures
        path_verdict(policy, path) == Err::<(), ValidationErrorView>(
            ValidationErrorView::PathBlocked { path },
        ),
{
}

/// A synchronisation that reads under a blocked prefix is rejected as
/// blocked on every node of the cluster, whatever its destination and
/// whatever the allowed prefixes are.
pub proof fn lemma_blocked_sync_rejected(
    policy: PolicyView,
    cluster: ClusterModel,
    src: Seq<char>,
    dst: Seq<char>,
    target_node: Seq<char>,
    priority: u8,
)
    requires
        under_any(policy.blocked_sync_paths, src),
        cluster.has_node(target_node),
    ensures
        verdict(
            policy,
            BrainActionView::ScheduleTask {
                task: TaskPayloadView::SyncDirectory { src, dst },
                target_node,
                priority,
            },
            cluster,
        ) == Err::<(), ValidationErrorView>(ValidationErrorView::PathBlocked { path: src }),
{
}

/// A path that starts with a prefix also does so once both are in
/// canonical form.
pub proof fn lemma_canonical_keeps_prefix(prefix: Seq<char>, path: Seq<char>)
    requires
        is_prefix(prefix, path),
    ensures
        is_prefix(canonical_path(prefix), canonical_path(path)),
{
    let tb = trim_trailing(prefix, '/');
    let tp = trim_trailing(path, '/');
    lemma_trim_trailing(prefix, '/');
    lemma_trim_trailing(path, '/');
    assert forall|i: int| 0 <= i < prefix.len() implies prefix[i] == path[i] by {
        assert(path.subrange(0, prefix.len() as int)[i] == prefix[i]);
    }
    assert forall|i: int| 0 <= i < tb.len() implies tb[i] == path[i] by {
        assert(prefix.take(tb.len() as int)[i] == tb[i]);
    }
    assert forall|i: int| 0 <= i < tp.len() implies tp[i] == path[i] by {
        assert(path.take(tp.len() as int)[i] == tp[i]);
    }
    if tb.len() > tp.len() {
        assert(tb.last() == tb[tb.len() - 1]);
        assert(path[tb.len() - 1] == '/');
        assert(false);
    }
    if tb.len() > 0 {
        assert(canonical_path(prefix) == tb);
        assert(canonical_path(path) == tp);
        assert(tp.subrange(0, tb.len() as int) =~= tb);
    } else if prefix.len() == 0 {
        assert(canonical_path(prefix) =~= Seq::<char>::empty());
        assert(canonical_path(path).subrange(0, 0) =~= Seq::<char>::empty());
    } else {
        assert(prefix[0] == '/');
        assert(path[0] == '/');
        assert(canonical_path(prefix) == seq!['/']);
        if tp.len() == 0 {
            assert(canonical_path(path) == seq!['/']);
            assert(seq!['/'].subrange(0, 1) =~= seq!['/']);
        } else {
            assert(canonical_path(path) == tp);
            assert(tp[0] == '/');
            assert(tp.subrange(0, 1) =~= seq!['/']);
        }
    }
}

/// A path that starts with a blocked prefix is rejected as blocked, even if
/// it also starts with an allowed one.
pub proof fn lemma_blocked_prefix_rejects(policy: PolicyView, path: Seq<char>, i: int)
    requires
        0 <= i < policy.blocked_sync_paths.len(),
        is_prefix(policy.blocked_sync_paths[i], path),
    ensures
        path_verdict(policy, path) == Err::<(), ValidationErrorView>(
            ValidationErrorView::PathBlocked { path },
        ),
{
    lemma_canonical_keeps_prefix(policy.blocked_sync_paths[i], path);
}

/// A task is scheduled only on a node of the snapshot that has room for it,
/// and only if the policy permits what the task does.
pub proof fn lemma_accepted_schedule(
    policy: PolicyView,
    cluster: ClusterModel,
    task: TaskPayloadView,
    target_node: Seq<char>,
    priority: u8,
)
    requires
        verdict(policy, BrainActionView::ScheduleTask { task, target_node, priority }, cluster)
            is Ok,
    ensures
        cluster.has_node(target_node),
        payload_verdict(policy, task) is Ok,
        cluster.active_tasks(target_node) < policy.max_concurrent_tasks_per_node,
        !(task is RunCommand),
        !(task is Custom),
{
}

fn canonical<'a>(p: &'a str) -> (r: &'a str)
    ensures
        r@ == canonical_path(p@),
{
    let t = trim_end(p, '/');
    if t.is_empty() && !p.is_empty() {
        proof {
            reveal_strlit("/");
        }
        let root = "/";
        assert(root@ =~= seq!['/']);
        root
    } else {
        t
    }
}

fn lies_under(prefixes: &Vec<String>, path: &str) -> (r: bool)
    ensures
        r == under_any(views(prefixes@), path@),
{
    let target = canonical(path);
    let mut i: usize = 0;
    while i < prefixes.len()
        invariant
            i <= prefixes@.len(),
            target@ == canonical_path(path@),
            forall|j: int|
                0 <= j < i ==> !is_prefix(canonical_path(#[trigger] views(prefixes@)[j]), target@),
        decreases prefixes.len() - i,
    {
        let p = canonical(prefixes[i].as_str());
        assert(views(prefixes@)[i as int] == prefixes@[i as int]@);
        if starts_with(target, p) {
            return true;
        }
        i += 1;
    }
    false
}

/// Holds proposals to a policy.
pub struct ActionValidator {
    policy: ExecutionPolicy,
}

impl ActionValidator {
    /// The policy in force.
    pub closed spec fn policy(&self) -> PolicyView {
        self.policy@
    }

    /// A validator for `policy`.
    pub fn new(policy: ExecutionPolicy) -> (r: Self)
        ensures
            r.policy() == policy@,
    {
        ActionValidator { policy }
    }

    /// Decides whether `action` may be proposed against `cluster`.
    pub fn validate(&self, action: &BrainAction, cluster: &ClusterView) -> (r: Result<
        (),
        ValidationError,
    >)
        ensures
            verdict_view(r) == verdict(self.policy(), action@, cluster@),
            r matches Err(e) ==> e@.message().len() > 0,
    {
        let r = match action {
            BrainAction::ScheduleTask { task, target_node, .. } => {
                match self.validate_node_exists(target_node.as_str(), cluster) {
                    Err(e) => Err(e),
                    Ok(_) => match self.validate_task_policy(task) {
                        Err(e) => Err(e),
                        Ok(_) => self.validate_task_limit(target_node.as_str(), cluster),
                    },
                }
            },
            BrainAction::RebalanceTask { task_id, to_node } => {
                match self.validate_node_exists(to_node.as_str(), cluster) {
                    Err(e) => Err(e),
                    Ok(_) => self.validate_task_exists(task_id.as_str(), cluster),
                }
            },
            BrainAction::CancelTask { task_id } => self.validate_task_exists(
                task_id.as_str(),
                cluster,
            ),
            BrainAction::MarkNodeDegraded { node_id, .. } => self.validate_node_exists(
                node_id.as_str(),
                cluster,
            ),
            BrainAction::CreateAttachment { node_id, kind, .. } => {
                match self.validate_node_exists(node_id.as_str(), cluster) {
                    Err(e) => Err(e),
                    Ok(_) => self.validate_attachment_kind(kind),
                }
            },
            BrainAction::RemoveAttachment { attachment_id } => self.validate_attachment_exists(
                attachment_id.as_str(),
                cluster,
            ),
            BrainAction::UpdateGoalProgress { goal_id, .. } => self.validate_goal_exists(
                goal_id.as_str(),
                cluster,
            ),
            BrainAction::RequestHumanApproval { .. } => Ok(()),
            BrainAction::NoOp { .. } => Ok(()),
        };
        proof {
            if r is Err {
                lemma_message_nonempty(r->Err_0@);
            }
        }
        r
    }

    fn validate_node_exists(&self, node_id: &str, cluster: &ClusterView) -> (r: Result<
        (),
        ValidationError,
    >)
        ensures
            verdict_view(r) == node_verdict(cluster@, node_id@),
    {
        if cluster.node_by_id(node_id).is_none() {
            return Err(ValidationError::NodeNotFound { node_id: String::from_str(node_id) });
        }
        Ok(())
    }

    fn validate_task_exists(&self, task_id: &str, cluster: &ClusterView) -> (r: Result<
        (),
        ValidationError,
    >)
        ensures
            verdict_view(r) == task_verdict(cluster@, task_id@),
    {
        let mut i: usize = 0;
        while i < cluster.tasks.len()
            invariant
                i <= cluster.tasks@.len(),
                forall|j: int| 0 <= j < i ==> (#[trigger] cluster@.tasks[j]).id != task_id@,
            decreases cluster.tasks.len() - i,
        {
            if str_eq(cluster.tasks[i].id.as_str(), task_id) {
                assert(cluster@.tasks[i as int].id == task_id@);
                return Ok(());
            }
            i += 1;
        }
        Err(ValidationError::TaskNotFound { task_id: String::from_str(task_id) })
    }

    fn validate_goal_exists(&self, goal_id: &str, cluster: &ClusterView) -> (r: Result<
        (),
        ValidationError,
    >)
        ensures
            verdict_view(r) == goal_verdict(cluster@, goal_id@),
    {
        let mut i: usize = 0;
        while i < cluster.goals.len()
            invariant
                i <= cluster.goals@.len(),
                forall|j: int| 0 <= j < i ==> (#[trigger] cluster@.goals[j]).id != goal_id@,
            decreases cluster.goals.len() - i,
        {
            if str_eq(cluster.goals[i].id.as_str(), goal_id) {
                assert(cluster@.goals[i as int].id == goal_id@);
                return Ok(());
            }
            i += 1;
        }
        Err(ValidationError::GoalNotFound { goal_id: String::from_str(goal_id) })
    }

    fn validate_attachment_exists(&self, attachment_id: &str, cluster: &ClusterView) -> (r: Result<
        (),
        ValidationError,
    >)
        ensures
            verdict_view(r) == attachment_verdict(cluster@, attachment_id@),
    {
        let mut i: usize = 0;
        while i < cluster.attachments.len()
            invariant
                i <= cluster.attachments@.len(),
                forall|j: int|
                    0 <= j < i ==> (#[trigger] cluster@.attachments[j]).id != attachment_id@,
            decreases cluster.attachments.len() - i,
        {
            if str_eq(cluster.attachments[i].id.as_str(), attachment_id) {
                assert(cluster@.attachments[i as int].id == attachment_id@);
                return Ok(());
            }
            i += 1;
        }
        Err(
            ValidationError::AttachmentNotFound {
                attachment_id: String::from_str(attachment_id),
            },
        )
    }

    fn validate_task_policy(&self, task: &TaskPayload) -> (r: Result<(), ValidationError>)
        ensures
            verdict_view(r) == payload_verdict(self.policy(), task@),
    {
        match task {
            TaskPayload::Echo { .. } => Ok(()),
            TaskPayload::CheckService { .. } => Ok(()),
            TaskPayload::RestartService { .. } => {
                if !self.policy.allow_restart_services {
                    return Err(ValidationError::RestartNotAllowed);
                }
                Ok(())
            },
            TaskPayload::DockerRun { .. } => {
                if !self.policy.allow_docker {
                    return Err(ValidationError::DockerNotAllowed);
                }
                Ok(())
            },
            TaskPayload::SyncDirectory { src, dst } => {
                match self.validate_path_allowed(src.as_str()) {
                    Err(e) => Err(e),
                    Ok(_) => self.validate_path_allowed(dst.as_str()),
                }
            },
            TaskPayload::RunCommand { command, .. } => Err(
                ValidationError::ArbitraryCommand { command: command.clone() },
            ),
            TaskPayload::Custom { tool_id, .. } => Err(
                ValidationError::CustomTool { tool_id: tool_id.clone() },
            ),
        }
    }

    /// Holds `path` to the rule on paths.
    pub fn validate_path_allowed(&self, path: &str) -> (r: Result<(), ValidationError>)
        ensures
            verdict_view(r) == path_verdict(self.policy(), path@),
    {
        if lies_under(&self.policy.blocked_sync_paths, path) {
            return Err(ValidationError::PathBlocked { path: String::from_str(path) });
        }
        let allowed = self.policy.allowed_sync_paths.len() == 0 || lies_under(
            &self.policy.allowed_sync_paths,
            path,
        );
        if !allowed {
            return Err(ValidationError::PathNotAllowed { path: String::from_str(path) });
        }
        Ok(())
    }

    fn validate_attachment_kind(&self, kind: &AttachmentKind) -> (r: Result<(), ValidationError>)
        ensures
            verdict_view(r) == kind_verdict(self.policy(), kind@),
    {
        match kind {
            AttachmentKind::Directory { path } => self.validate_path_allowed(path.as_str()),
            AttachmentKind::File { path } => self.validate_path_allowed(path.as_str()),
            AttachmentKind::DockerContainer { .. } => {
                if !self.policy.allow_docker {
                    return Err(ValidationError::DockerAttachmentNotAllowed);
                }
                Ok(())
            },
            _ => Ok(()),
        }
    }

    fn validate_task_limit(&self, node_id: &str, cluster: &ClusterView) -> (r: Result<
        (),
        ValidationError,
    >)
        ensures
            verdict_view(r) == limit_verdict(self.policy(), cluster@, node_id@),
    {
        let active = cluster.active_task_count(node_id);
        if active >= self.policy.max_concurrent_tasks_per_node {
            return Err(
                ValidationError::TaskLimit {
                    node_id: String::from_str(node_id),
                    active,
                    max: self.policy.max_concurrent_tasks_per_node,
                },
            );
        }
        Ok(())
    }
}

} // verus!
