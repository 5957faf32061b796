//! The replicated state machine: four tables and the commands that change
//! them.

use vstd::prelude::*;
use crate::clock::now_millis;
use crate::store::{
    del, distinct_keys, has_key, lemma_del, lemma_del_idempotent, lemma_put, lemma_put_idempotent,
    lookup, put, values, Duplicate, KeyedStore,
};
use crate::text::{clone_opt_string, opt_view};
use crate::types::{
    Attachment, AttachmentView, ClusterCommand, ClusterCommandView, ClusterView, Goal, GoalView,
    NodeId, NodeStatus, NodeStatusView, Task, TaskView,
};

verus! {

/// The authoritative state of the cluster.
#[derive(Debug)]
pub struct HiveState {
    pub nodes: KeyedStore<NodeStatus>,
    pub tasks: KeyedStore<Task>,
    pub attachments: KeyedStore<Attachment>,
    pub goals: KeyedStore<Goal>,
    pub last_applied_index: u64,
}

pub struct HiveStateView {
    pub nodes: Seq<(Seq<char>, NodeStatusView)>,
    pub tasks: Seq<(Seq<char>, TaskView)>,
    pub attachments: Seq<(Seq<char>, AttachmentView)>,
    pub goals: Seq<(Seq<char>, GoalView)>,
    pub last_applied_index: u64,
}

impl HiveStateView {
    /// No identifier occurs twice in a table.
    pub open spec fn wf(self) -> bool {
        &&& distinct_keys(self.nodes)
        &&& distinct_keys(self.tasks)
        &&& distinct_keys(self.attachments)
        &&& distinct_keys(self.goals)
    }
}

impl View for HiveState {
    type V = HiveStateView;

    open spec fn view(&self) -> HiveStateView {
        HiveStateView {
            nodes: self.nodes@,
            tasks: self.tasks@,
            attachments: self.attachments@,
            goals: self.goals@,
            last_applied_index: self.last_applied_index,
        }
    }
}

/// The state before any command: four empty tables, nothing applied.
pub open spec fn empty_state() -> HiveStateView {
    HiveStateView {
        nodes: Seq::empty(),
        tasks: Seq::empty(),
        attachments: Seq::empty(),
        goals: Seq::empty(),
        last_applied_index: 0,
    }
}

impl ClusterCommandView {
    /// Storing and removing commands: applying one of them a second time
    /// changes nothing more.
    pub open spec fn is_idempotent(self) -> bool {
        !(self is UpdateNodeHealth) && !(self is UpdateTaskStatus)
    }
}

/// Storing `task` would move a task backward: the state holds a task under
/// that identifier whose status is of a higher rank.
pub open spec fn moves_backward(s: HiveStateView, task: TaskView) -> bool {
    match lookup(s.tasks, task.id) {
        Some(held) => task.status.rank() < held.status.rank(),
        None => false,
    }
}

/// The state after `c` is applied to `s` at the instant `now`. A node or a
/// task that is not there is not updated. A task is never moved backward:
/// neither an update of its status nor a task stored over it takes effect
/// where the status would fall in rank.
pub open spec fn apply_spec(s: HiveStateView, c: ClusterCommandView, now: i64) -> HiveStateView {
    match c {
        ClusterCommandView::RegisterNode(status) => HiveStateView {
            nodes: put(s.nodes, status.node_id, status),
            ..s
        },
        ClusterCommandView::UpdateNodeHealth { node_id, health, metrics } => {
            match lookup(s.nodes, node_id) {
                Some(node) => HiveStateView {
                    nodes: put(
                        s.nodes,
                        node_id,
                        NodeStatusView {
                            health: health,
                            cpu_usage: metrics.cpu_usage,
                            memory_usage: metrics.memory_usage,
                            disk_usage: metrics.disk_usage,
                            last_heartbeat: now,
                            ..node
                        },
                    ),
                    ..s
                },
                None => s,
            }
        },
        ClusterCommandView::RemoveNode { node_id } => HiveStateView {
            nodes: del(s.nodes, node_id),
            ..s
        },
        ClusterCommandView::PutTask(task) => if moves_backward(s, task) {
            s
        } else {
            HiveStateView { tasks: put(s.tasks, task.id, task), ..s }
        },
        ClusterCommandView::UpdateTaskStatus { task_id, status, result } => {
            match lookup(s.tasks, task_id) {
                Some(task) => if status.rank() >= task.status.rank() {
                    HiveStateView {
                        tasks: put(
                            s.tasks,
                            task_id,
                            TaskView { status: status, result: result, updated_at: now, ..task },
                        ),
                        ..s
                    }
                } else {
                    s
                },
                None => s,
            }
        },
        ClusterCommandView::PutAttachment(attachment) => HiveStateView {
            attachments: put(s.attachments, attachment.id, attachment),
            ..s
        },
        ClusterCommandView::RemoveAttachment { attachment_id } => HiveStateView {
            attachments: del(s.attachments, attachment_id),
            ..s
        },
        ClusterCommandView::PutGoal(goal) => HiveStateView {
            goals: put(s.goals, goal.id, goal),
            ..s
        },
        ClusterCommandView::RemoveGoal { goal_id } => HiveStateView {
            goals: del(s.goals, goal_id),
            ..s
        },
    }
}

/// Applying a command keeps the identifiers of each table distinct.
pub proof fn lemma_apply_keeps_wf(s: HiveStateView, c: ClusterCommandView, now: i64)
    requires
        s.wf(),
    ensures
        apply_spec(s, c, now).wf(),
{
    match c {
        ClusterCommandView::RegisterNode(status) => {
            lemma_put(s.nodes, status.node_id, status);
        },
        ClusterCommandView::UpdateNodeHealth { node_id, health, metrics } => {
            if let Some(node) = lookup(s.nodes, node_id) {
                lemma_put(
                    s.nodes,
                    node_id,
                    NodeStatusView {
                        health: health,
                        cpu_usage: metrics.cpu_usage,
                        memory_usage: metrics.memory_usage,
                        disk_usage: metrics.disk_usage,
                        last_heartbeat: now,
                        ..node
                    },
                );
            }
        },
        ClusterCommandView::RemoveNode { node_id } => {
            lemma_del(s.nodes, node_id);
        },
        ClusterCommandView::PutTask(task) => {
            lemma_put(s.tasks, task.id, task);
        },
        ClusterCommandView::UpdateTaskStatus { task_id, status, result } => {
            if let Some(task) = lookup(s.tasks, task_id) {
                lemma_put(
                    s.tasks,
                    task_id,
                    TaskView { status: status, result: result, updated_at: now, ..task },
                );
            }
        },
        ClusterCommandView::PutAttachment(attachment) => {
            lemma_put(s.attachments, attachment.id, attachment);
        },
        ClusterCommandView::RemoveAttachment { attachment_id } => {
            lemma_del(s.attachments, attachment_id);
        },
        ClusterCommandView::PutGoal(goal) => {
            lemma_put(s.goals, goal.id, goal);
        },
        ClusterCommandView::RemoveGoal { goal_id } => {
            lemma_del(s.goals, goal_id);
        },
    }
}

/// Applying a storing or removing command twice gives the state that
/// applying it once gives, whatever the instants of the two applications.
pub proof fn lemma_apply_idempotent(s: HiveStateView, c: ClusterCommandView, t1: i64, t2: i64)
    requires
        s.wf(),
        c.is_idempotent(),
    ensures
        apply_spec(apply_spec(s, c, t1), c, t2) == apply_spec(s, c, t1),
{
    match c {
        ClusterCommandView::RegisterNode(status) => {
            lemma_put_idempotent(s.nodes, status.node_id, status);
        },
        ClusterCommandView::RemoveNode { node_id } => {
            lemma_del_idempotent(s.nodes, node_id);
        },
        ClusterCommandView::PutTask(task) => {
            if !moves_backward(s, task) {
                lemma_put(s.tasks, task.id, task);
                lemma_put_idempotent(s.tasks, task.id, task);
            }
        },
        ClusterCommandView::PutAttachment(attachment) => {
            lemma_put_idempotent(s.attachments, attachment.id, attachment);
        },
        ClusterCommandView::RemoveAttachment { attachment_id } => {
            lemma_del_idempotent(s.attachments, attachment_id);
        },
        ClusterCommandView::PutGoal(goal) => {
            lemma_put_idempotent(s.goals, goal.id, goal);
        },
        ClusterCommandView::RemoveGoal { goal_id } => {
            lemma_del_idempotent(s.goals, goal_id);
        },
        _ => {},
    }
}

/// A task is never dropped and never moved backward: after any command, a
/// task that was there is still there, with a status of the same or a
/// higher rank.
pub proof fn lemma_status_monotonic(
    s: HiveStateView,
    c: ClusterCommandView,
    now: i64,
    task_id: Seq<char>,
)
    requires
        s.wf(),
        has_key(s.tasks, task_id),
    ensures
        has_key(apply_spec(s, c, now).tasks, task_id),
        lookup(apply_spec(s, c, now).tasks, task_id)->0.status.rank() >= lookup(
            s.tasks,
            task_id,
        )->0.status.rank(),
{
    match c {
        ClusterCommandView::UpdateTaskStatus { task_id: id, status, result } => {
            if let Some(task) = lookup(s.tasks, id) {
                lemma_put(
                    s.tasks,
                    id,
                    TaskView { status: status, result: result, updated_at: now, ..task },
                );
            }
        },
        ClusterCommandView::PutTask(task) => {
            lemma_put(s.tasks, task.id, task);
        },
        _ => {},
    }
}

/// The state after the commands `cs`, each with the instant of its
/// application, are applied in order.
pub open spec fn apply_seq(s: HiveStateView, cs: Seq<(ClusterCommandView, i64)>) -> HiveStateView
    decreases cs.len(),
{
    if cs.len() == 0 {
        s
    } else {
        apply_spec(apply_seq(s, cs.drop_last()), cs.last().0, cs.last().1)
    }
}

/// The statuses that a task is seen in never go backward by rank: after any
/// commands it has a rank that is not below the one it had after the first
/// `k` of them.
pub proof fn lemma_observed_statuses_ascend(
    s: HiveStateView,
    cs: Seq<(ClusterCommandView, i64)>,
    k: int,
    task_id: Seq<char>,
)
    requires
        s.wf(),
        0 <= k <= cs.len(),
        has_key(apply_seq(s, cs.take(k)).tasks, task_id),
    ensures
        apply_seq(s, cs).wf(),
        has_key(apply_seq(s, cs).tasks, task_id),
        lookup(apply_seq(s, cs).tasks, task_id)->0.status.rank() >= lookup(
            apply_seq(s, cs.take(k)).tasks,
            task_id,
        )->0.status.rank(),
    decreases cs.len() - k,
{
    lemma_apply_seq_wf(s, cs);
    if k == cs.len() {
        assert(cs.take(k) =~= cs);
    } else {
        let shorter = cs.drop_last();
        assert(shorter.take(k) =~= cs.take(k));
        lemma_observed_statuses_ascend(s, shorter, k, task_id);
        lemma_status_monotonic(apply_seq(s, shorter), cs.last().0, cs.last().1, task_id);
    }
}

/// Applying commands keeps the identifiers of each table distinct.
pub proof fn lemma_apply_seq_wf(s: HiveStateView, cs: Seq<(ClusterCommandView, i64)>)
    requires
        s.wf(),
    ensures
        apply_seq(s, cs).wf(),
    decreases cs.len(),
{
    if cs.len() > 0 {
        lemma_apply_seq_wf(s, cs.drop_last());
        lemma_apply_keeps_wf(apply_seq(s, cs.drop_last()), cs.last().0, cs.last().1);
    }
}

impl HiveState {
    /// The empty state.
    pub fn new() -> (r: Self)
        ensures
            r@ == empty_state(),
    {
        HiveState {
            nodes: KeyedStore::new(),
            tasks: KeyedStore::new(),
            attachments: KeyedStore::new(),
            goals: KeyedStore::new(),
            last_applied_index: 0,
        }
    }

    /// Applies `command` at the instant `now`.
    pub fn apply_at(&mut self, command: &ClusterCommand, now: i64)
        ensures
            final(self)@ == apply_spec(old(self)@, command@, now),
    {
        match command {
            ClusterCommand::RegisterNode(status) => {
                self.nodes.insert(status.node_id.clone(), status.clone());
            },
            ClusterCommand::UpdateNodeHealth { node_id, health, metrics } => {
                let updated = match self.nodes.get(node_id.as_str()) {
                    Some(node) => {
                        let mut n = node.clone();
                        n.health = health.clone();
                        n.cpu_usage = metrics.cpu_usage;
                        n.memory_usage = metrics.memory_usage;
                        n.disk_usage = metrics.disk_usage;
                        n.last_heartbeat = now;
                        Some(n)
                    },
                    None => None,
                };
                if let Some(n) = updated {
                    self.nodes.insert(node_id.clone(), n);
                }
            },
            ClusterCommand::RemoveNode { node_id } => {
                self.nodes.remove(node_id.as_str());
            },
            ClusterCommand::PutTask(task) => {
                let backward = match self.tasks.get(task.id.as_str()) {
                    Some(held) => task.status.rank() < held.status.rank(),
                    None => false,
                };
                if !backward {
                    self.tasks.insert(task.id.clone(), task.clone());
                }
            },
            ClusterCommand::UpdateTaskStatus { task_id, status, result } => {
                let updated = match self.tasks.get(task_id.as_str()) {
                    Some(task) => {
                        if status.rank() >= task.status.rank() {
                            let mut t = task.clone();
                            t.status = status.clone();
                            t.result = clone_opt_string(result);
                            t.updated_at = now;
                            Some(t)
                        } else {
                            None
                        }
                    },
                    None => None,
                };
                if let Some(t) = updated {
                    self.tasks.insert(task_id.clone(), t);
                }
            },
            ClusterCommand::PutAttachment(attachment) => {
                self.attachments.insert(attachment.id.clone(), attachment.clone());
            },
            ClusterCommand::RemoveAttachment { attachment_id } => {
                self.attachments.remove(attachment_id.as_str());
            },
            ClusterCommand::PutGoal(goal) => {
                self.goals.insert(goal.id.clone(), goal.clone());
            },
            ClusterCommand::RemoveGoal { goal_id } => {
                self.goals.remove(goal_id.as_str());
            },
        }
    }

    /// Applies `command` at the current instant, which the state machine
    /// reads itself.
    pub fn apply(&mut self, command: &ClusterCommand)
        ensures
            exists|now: i64| now >= 0 && final(self)@ == #[trigger] apply_spec(old(self)@, command@, now),
    {
        let now = now_millis();
        self.apply_at(command, now);
    }

    /// The state as a snapshot for readers, with the leader and term given.
    pub fn to_cluster_view(&self, leader_id: Option<NodeId>, term: u64) -> (r: ClusterView)
        ensures
            r@.nodes == values(self@.nodes),
            r@.tasks == values(self@.tasks),
            r@.attachments == values(self@.attachments),
            r@.goals == values(self@.goals),
            r@.leader_id == opt_view(leader_id),
            r@.term == term,
    {
        ClusterView {
            nodes: self.nodes.values_vec(),
            tasks: self.tasks.values_vec(),
            attachments: self.attachments.values_vec(),
            goals: self.goals.values_vec(),
            leader_id,
            term,
        }
    }
}

impl Clone for HiveState {
    fn clone(&self) -> (r: Self)
        ensures
            r@ == self@,
    {
        HiveState {
            nodes: self.nodes.duplicate(),
            tasks: self.tasks.duplicate(),
            attachments: self.attachments.duplicate(),
            goals: self.goals.duplicate(),
            last_applied_index: self.last_applied_index,
        }
    }
}

impl Default for HiveState {
    fn default() -> (r: Self)
        ensures
            r@ == empty_state(),
    {
        HiveState::new()
    }
}

} // verus!
