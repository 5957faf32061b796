//! From validated actions to commands, and from the outcome of a task to the
//! commands that record it.

use vstd::prelude::*;
use crate::clock::now_millis;
use crate::errors::{ErrorKind, ReplicatorError, ReplicatorErrorView};
use crate::ident::fresh_id;
use crate::state_machine::{apply_spec, HiveStateView};
use crate::store::{lookup, put, KeyedStore};
use crate::text::str_eq;
use crate::types::{
    Attachment, AttachmentView, BrainAction, BrainActionView, ClusterCommand, ClusterCommandView,
    ClusterModel, ClusterView, NodeHealth, NodeHealthView, NodeMetrics, Task, TaskStatus,
    TaskStatusView, TaskView,
};
use crate::validator::{
    verdict, ActionValidator, ExecutionPolicy, PolicyView, ValidationError, ValidationErrorView,
};

verus! {

/// The position of the first task of `tasks` with the identifier `id`, or
/// the length of `tasks` where there is none.
pub open spec fn first_task(tasks: Seq<TaskView>, id: Seq<char>) -> int
    decreases tasks.len(),
{
    if tasks.len() == 0 {
        0
    } else if tasks[0].id == id {
        0
    } else {
        1 + first_task(tasks.drop_first(), id)
    }
}

/// A task that has not begun to run can still be given to another node.
pub open spec fn movable(task: TaskView) -> bool {
    task.status.rank() < TaskStatusView::Running.rank()
}

/// A task as it is after it was given to the node `to_node` at `now`; its
/// status stays as it is.
pub open spec fn moved(task: TaskView, to_node: Seq<char>, now: i64) -> TaskView {
    TaskView { target_node: to_node, updated_at: now, ..task }
}

/// The command that carries out `action`, if it takes one: `id` names what
/// it creates, `now` dates it. A rebalance stores the first task of that
/// identifier again, on its new node, if that task has not begun to run; a
/// task that is running or has ended stays where it is, and so does
/// everything where the snapshot has no such task. Progress of a goal, a
/// request for approval and the action that does nothing change no state.
pub open spec fn command_of(action: BrainActionView, cluster: ClusterModel, id: Seq<char>, now: i64)
    -> Option<ClusterCommandView> {
    match action {
        BrainActionView::ScheduleTask { task, target_node, priority } => Some(
            ClusterCommandView::PutTask(
                TaskView {
                    id,
                    target_node,
                    payload: task,
                    status: TaskStatusView::Pending,
                    priority,
                    created_at: now,
                    updated_at: now,
                    result: None,
                },
            ),
        ),
        BrainActionView::CancelTask { task_id } => Some(
            ClusterCommandView::UpdateTaskStatus {
                task_id,
                status: TaskStatusView::Cancelled,
                result: None,
            },
        ),
        BrainActionView::RebalanceTask { task_id, to_node } => {
            let p = first_task(cluster.tasks, task_id);
            if p < cluster.tasks.len() && movable(cluster.tasks[p]) {
                Some(ClusterCommandView::PutTask(moved(cluster.tasks[p], to_node, now)))
            } else {
                None
            }
        },
        BrainActionView::MarkNodeDegraded { node_id, reason } => Some(
            ClusterCommandView::UpdateNodeHealth {
                node_id,
                health: NodeHealthView::Degraded { reason },
                metrics: NodeMetrics { cpu_usage: 0, memory_usage: 0, disk_usage: 0 },
            },
        ),
        BrainActionView::CreateAttachment { node_id, kind, capabilities } => Some(
            ClusterCommandView::PutAttachment(
                AttachmentView {
                    id,
                    node_id,
                    kind,
                    capabilities,
                    metadata: Seq::empty(),
                    created_at: now,
                },
            ),
        ),
        BrainActionView::RemoveAttachment { attachment_id } => Some(
            ClusterCommandView::RemoveAttachment { attachment_id },
        ),
        BrainActionView::UpdateGoalProgress { .. } => None,
        BrainActionView::RequestHumanApproval { .. } => None,
        BrainActionView::NoOp { .. } => None,
    }
}

/// Where a task is found, it has the identifier looked for.
pub proof fn lemma_first_task(tasks: Seq<TaskView>, id: Seq<char>)
    ensures
        0 <= first_task(tasks, id) <= tasks.len(),
        first_task(tasks, id) < tasks.len() ==> tasks[first_task(tasks, id)].id == id,
    decreases tasks.len(),
{
    if tasks.len() > 0 && tasks[0].id != id {
        lemma_first_task(tasks.drop_first(), id);
    }
}

/// The command that a rebalance gives is one that the state machine takes:
/// where the state holds, under the task's identifier, the task that the
/// snapshot showed, the task is stored on its new node and is not moved
/// backward.
pub proof fn lemma_rebalance_takes_effect(
    s: HiveStateView,
    cluster: ClusterModel,
    task_id: Seq<char>,
    to_node: Seq<char>,
    id: Seq<char>,
    now: i64,
    later: i64,
)
    requires
        first_task(cluster.tasks, task_id) < cluster.tasks.len(),
        movable(cluster.tasks[first_task(cluster.tasks, task_id)]),
        lookup(s.tasks, task_id) == Some(cluster.tasks[first_task(cluster.tasks, task_id)]),
    ensures
        command_of(BrainActionView::RebalanceTask { task_id, to_node }, cluster, id, now) == Some(
            ClusterCommandView::PutTask(
                moved(cluster.tasks[first_task(cluster.tasks, task_id)], to_node, now),
            ),
        ),
        apply_spec(
            s,
            ClusterCommandView::PutTask(
                moved(cluster.tasks[first_task(cluster.tasks, task_id)], to_node, now),
            ),
            later,
        ).tasks == put(
            s.tasks,
            task_id,
            moved(cluster.tasks[first_task(cluster.tasks, task_id)], to_node, now),
        ),
{
    lemma_first_task(cluster.tasks, task_id);
}

/// The view of an optional command.
pub open spec fn command_view(c: Option<ClusterCommand>) -> Option<ClusterCommandView> {
    match c {
        Some(x) => Some(x@),
        None => None,
    }
}

fn find_task<'a>(cluster: &'a ClusterView, id: &str) -> (r: Option<&'a Task>)
    ensures
        match r {
            Some(t) => first_task(cluster@.tasks, id@) < cluster@.tasks.len() && t@
                == cluster@.tasks[first_task(cluster@.tasks, id@)],
            None => first_task(cluster@.tasks, id@) >= cluster@.tasks.len(),
        },
{
    let ghost tasks = cluster@.tasks;
    let mut i: usize = 0;
    proof {
        assert(tasks.skip(0) =~= tasks);
    }
    while i < cluster.tasks.len()
        invariant
            i <= cluster.tasks@.len(),
            tasks == cluster@.tasks,
            first_task(tasks, id@) == i + first_task(tasks.skip(i as int), id@),
        decreases cluster.tasks.len() - i,
    {
        proof {
            assert(tasks.skip(i as int)[0] == cluster.tasks@[i as int]@);
            assert(tasks.skip(i as int).drop_first() =~= tasks.skip(i + 1));
        }
        if str_eq(cluster.tasks[i].id.as_str(), id) {
            return Some(&cluster.tasks[i]);
        }
        i += 1;
    }
    None
}

/// Builds the command that carries out `action`, if it takes one.
pub fn command_for(action: BrainAction, cluster: &ClusterView, id: String, now: i64) -> (r: Option<
    ClusterCommand,
>)
    ensures
        command_view(r) == command_of(action@, cluster@, id@, now),
{
    match action {
        BrainAction::ScheduleTask { task, target_node, priority } => Some(
            ClusterCommand::PutTask(
                Task {
                    id,
                    target_node,
                    payload: task,
                    status: TaskStatus::Pending,
                    priority,
                    created_at: now,
                    updated_at: now,
                    result: None,
                },
            ),
        ),
        BrainAction::CancelTask { task_id } => Some(
            ClusterCommand::UpdateTaskStatus {
                task_id,
                status: TaskStatus::Cancelled,
                result: None,
            },
        ),
        BrainAction::RebalanceTask { task_id, to_node } => {
            match find_task(cluster, task_id.as_str()) {
                Some(task) => {
                    if task.status.rank() < TaskStatus::Running.rank() {
                        let mut given = task.clone();
                        given.target_node = to_node;
                        given.updated_at = now;
                        Some(ClusterCommand::PutTask(given))
                    } else {
                        None
                    }
                },
                None => None,
            }
        },
        BrainAction::MarkNodeDegraded { node_id, reason } => Some(
            ClusterCommand::UpdateNodeHealth {
                node_id,
                health: NodeHealth::Degraded { reason },
                metrics: NodeMetrics::default(),
            },
        ),
        BrainAction::CreateAttachment { node_id, kind, capabilities } => Some(
            ClusterCommand::PutAttachment(
                Attachment {
                    id,
                    node_id,
                    kind,
                    capabilities,
                    metadata: KeyedStore::new(),
                    created_at: now,
                },
            ),
        ),
        BrainAction::RemoveAttachment { attachment_id } => Some(
            ClusterCommand::RemoveAttachment { attachment_id },
        ),
        BrainAction::UpdateGoalProgress { .. } => None,
        BrainAction::RequestHumanApproval { .. } => None,
        BrainAction::NoOp { .. } => None,
    }
}

/// Why an action was not carried out: the policy rejected it, or the
/// replicator did not take its command.
#[derive(Debug)]
pub enum ExecuteError {
    Rejected(ValidationError),
    Write(ReplicatorError),
}

pub enum ExecuteErrorView {
    Rejected(ValidationErrorView),
    Write(ReplicatorErrorView),
}

impl View for ExecuteError {
    type V = ExecuteErrorView;

    open spec fn view(&self) -> ExecuteErrorView {
        match self {
            ExecuteError::Rejected(e) => ExecuteErrorView::Rejected(e@),
            ExecuteError::Write(e) => ExecuteErrorView::Write(e@),
        }
    }
}

impl ExecuteErrorView {
    /// The kind of this error.
    pub open spec fn kind(self) -> ErrorKind {
        match self {
            ExecuteErrorView::Rejected(_) => ErrorKind::Validation,
            ExecuteErrorView::Write(e) => e.kind(),
        }
    }

    /// The reason in words.
    pub open spec fn message(self) -> Seq<char> {
        match self {
            ExecuteErrorView::Rejected(e) => e.message(),
            ExecuteErrorView::Write(e) => e.message(),
        }
    }
}

impl ExecuteError {
    /// The kind of this error.
    pub fn kind(&self) -> (r: ErrorKind)
        ensures
            r == self@.kind(),
    {
        match self {
            ExecuteError::Rejected(_) => ErrorKind::Validation,
            ExecuteError::Write(e) => e.kind(),
        }
    }

    /// The reason in words.
    pub fn message(&self) -> (r: String)
        ensures
            r@ == self@.message(),
    {
        match self {
            ExecuteError::Rejected(e) => e.message(),
            ExecuteError::Write(e) => e.message(),
        }
    }
}

/// Why a task was not run to a result on this node.
#[derive(Debug)]
pub enum TaskError {
    WrongNode { task_id: String, target_node: String, node_id: String },
    Failed,
}

pub enum TaskErrorView {
    WrongNode { task_id: Seq<char>, target_node: Seq<char>, node_id: Seq<char> },
    Failed,
}

impl View for TaskError {
    type V = TaskErrorView;

    open spec fn view(&self) -> TaskErrorView {
        match self {
            TaskError::WrongNode { task_id, target_node, node_id } => TaskErrorView::WrongNode {
                task_id: task_id@,
                target_node: target_node@,
                node_id: node_id@,
            },
            TaskError::Failed => TaskErrorView::Failed,
        }
    }
}

impl TaskErrorView {
    /// The reason in words.
    pub open spec fn message(self) -> Seq<char> {
        match self {
            TaskErrorView::WrongNode { task_id, target_node, node_id } => "Task "@ + task_id
                + " targeted at "@ + target_node + ", but this is node "@ + node_id,
            TaskErrorView::Failed => "Task failed"@,
        }
    }
}

impl TaskError {
    /// The reason in words.
    pub fn message(&self) -> (r: String)
        ensures
            r@ == self@.message(),
    {
        match self {
            TaskError::WrongNode { task_id, target_node, node_id } => {
                let mut s = String::from_str("Task ");
                s.append(task_id.as_str());
                s.append(" targeted at ");
                s.append(target_node.as_str());
                s.append(", but this is node ");
                s.append(node_id.as_str());
                s
            },
            TaskError::Failed => String::from_str("Task failed"),
        }
    }
}

/// The command that records that the task `task_id` is running.
pub open spec fn running_command(task_id: Seq<char>) -> ClusterCommandView {
    ClusterCommandView::UpdateTaskStatus {
        task_id,
        status: TaskStatusView::Running,
        result: None,
    }
}

/// The command that records how the task `task_id` ended: completed with its
/// result, or failed with the error.
pub open spec fn ending_command(task_id: Seq<char>, outcome: Result<Seq<char>, Seq<char>>)
    -> ClusterCommandView {
    match outcome {
        Ok(value) => ClusterCommandView::UpdateTaskStatus {
            task_id,
            status: TaskStatusView::Completed,
            result: Some(value),
        },
        Err(error) => ClusterCommandView::UpdateTaskStatus {
            task_id,
            status: TaskStatusView::Failed { error },
            result: None,
        },
    }
}

/// The view of what a runner hands back.
pub open spec fn outcome_view(o: Result<String, String>) -> Result<Seq<char>, Seq<char>> {
    match o {
        Ok(v) => Ok(v@),
        Err(e) => Err(e@),
    }
}

/// Validates actions and turns them into commands for one node.
pub struct HiveExecutor {
    node_id: String,
    validator: ActionValidator,
}

impl HiveExecutor {
    /// The node this executor acts for.
    pub closed spec fn node(&self) -> Seq<char> {
        self.node_id@
    }

    /// The policy in force.
    pub closed spec fn policy(&self) -> PolicyView {
        self.validator.policy()
    }

    /// An executor for the node `node_id` under `policy`.
    pub fn new(node_id: String, policy: ExecutionPolicy) -> (r: Self)
        ensures
            r.node() == node_id@,
            r.policy() == policy@,
    {
        HiveExecutor { node_id, validator: ActionValidator::new(policy) }
    }

    /// Validates `action` against `cluster` and, where it passes, builds the
    /// command that carries it out, naming what it creates `id` and dating it
    /// `now`.
    pub fn execute_with(&self, action: BrainAction, cluster: &ClusterView, id: String, now: i64)
        -> (r: Result<Option<ClusterCommand>, ValidationError>)
        ensures
            match r {
                Ok(c) => verdict(self.policy(), action@, cluster@) is Ok && command_view(c)
                    == command_of(action@, cluster@, id@, now),
                Err(e) => verdict(self.policy(), action@, cluster@) == Err::<
                    (),
                    ValidationErrorView,
                >(e@),
            },
    {
        match self.validator.validate(&action, cluster) {
            Err(e) => Err(e),
            Ok(_) => Ok(command_for(action, cluster, id, now)),
        }
    }

    /// Validates `action` against `cluster` and, where it passes, builds the
    /// command that carries it out, under a fresh identifier and dated now.
    pub fn execute(&self, action: BrainAction, cluster: &ClusterView) -> (r: Result<
        Option<ClusterCommand>,
        ValidationError,
    >)
        ensures
            match r {
                Ok(c) => verdict(self.policy(), action@, cluster@) is Ok && exists|
                    id: Seq<char>,
                    now: i64,
                |
                    command_view(c) == #[trigger] command_of(action@, cluster@, id, now),
                Err(e) => verdict(self.policy(), action@, cluster@) == Err::<
                    (),
                    ValidationErrorView,
                >(e@),
            },
    {
        let id = fresh_id();
        let now = now_millis();
        self.execute_with(action, cluster, id, now)
    }

    /// Before a task runs: refuses a task of another node, and else gives
    /// the command that records the task as running.
    pub fn begin_task(&self, task: &Task) -> (r: Result<ClusterCommand, TaskError>)
        ensures
            match r {
                Ok(c) => task@.target_node == self.node() && c@ == running_command(task@.id),
                Err(e) => task@.target_node != self.node() && e@ == (TaskErrorView::WrongNode {
                    task_id: task@.id,
                    target_node: task@.target_node,
                    node_id: self.node(),
                }),
            },
    {
        if !str_eq(task.target_node.as_str(), self.node_id.as_str()) {
            return Err(
                TaskError::WrongNode {
                    task_id: task.id.clone(),
                    target_node: task.target_node.clone(),
                    node_id: self.node_id.clone(),
                },
            );
        }
        Ok(
            ClusterCommand::UpdateTaskStatus {
                task_id: task.id.clone(),
                status: TaskStatus::Running,
                result: None,
            },
        )
    }

    /// After a task ran: the command that records how it ended, and what the
    /// caller gets, the result or the failure.
    pub fn finish_task(&self, task: &Task, outcome: Result<String, String>) -> (r: (
        ClusterCommand,
        Result<String, TaskError>,
    ))
        ensures
            r.0@ == ending_command(task@.id, outcome_view(outcome)),
            match r.1 {
                Ok(v) => outcome_view(outcome) == Ok::<Seq<char>, Seq<char>>(v@),
                Err(e) => outcome is Err && e@ == TaskErrorView::Failed,
            },
    {
        match outcome {
            Ok(value) => (
                ClusterCommand::UpdateTaskStatus {
                    task_id: task.id.clone(),
                    status: TaskStatus::Completed,
                    result: Some(value.clone()),
                },
                Ok(value),
            ),
            Err(error) => (
                ClusterCommand::UpdateTaskStatus {
                    task_id: task.id.clone(),
                    status: TaskStatus::Failed { error },
                    result: None,
                },
                Err(TaskError::Failed),
            ),
        }
    }
}

} // verus!
