//! The decisions of the three control loops: what the heartbeat says, which
//! tasks this node runs, and how a proposed action passes through the
//! tracker.

use vstd::prelude::*;
use vstd::bytes::{spec_u64_from_le_bytes, u64_from_le_bytes};
use vstd::string::StringSliceAdditionalSpecFns;
use crate::text::{
    clone_strings, elem_views, lemma_filter_none, lemma_filter_step, opt_view, str_eq, views,
};
use crate::clock::now_millis;
use crate::ident::fresh_id;
use crate::errors::ErrorKind;
use crate::executor::ExecuteError;
use crate::store::has_key;
use crate::tracker::{
    completed_spec, executing_spec, failed_spec, is_similar_action, progress_spec, rejected_spec,
    released_spec, retry_owed, similar, track_spec, ActionTracker, TrackedAction,
    TrackedActionView, TrackerView,
};
use crate::types::{
    BrainAction, BrainActionView, ClusterCommand, ClusterCommandView, ClusterView, NodeHealth,
    NodeHealthView, NodeMetrics, NodeStatus, NodeStatusView, Task, TaskView,
};

verus! {

/// The task-runner loop looks for work every two seconds.
pub const TASK_RUNNER_INTERVAL_SECS: u64 = 2;

/// The leader of the consensus group sends a heartbeat every 500
/// milliseconds.
pub const LEADER_HEARTBEAT_MS: u64 = 500;

/// An election starts after a silence of at least 1500 milliseconds.
pub const ELECTION_TIMEOUT_MIN_MS: u64 = 1500;

/// An election starts after a silence of at most 3000 milliseconds.
pub const ELECTION_TIMEOUT_MAX_MS: u64 = 3000;

/// At most the first eight of `bytes`, filled up to eight with zeros.
pub open spec fn first_eight(bytes: Seq<u8>) -> Seq<u8> {
    Seq::new(8, |i: int| if i < bytes.len() { bytes[i] } else { 0u8 })
}

/// The number by which the consensus layer knows a node: the first eight
/// bytes of its identifier, the least significant first. It is the same
/// whenever it is derived, as the replay of the log requires.
pub open spec fn numeric_id(node_id: Seq<char>) -> u64 {
    spec_u64_from_le_bytes(first_eight(vstd::utf8::encode_utf8(node_id)))
}

/// Derives the number by which the consensus layer knows the node
/// `node_id`.
pub fn raft_node_id(node_id: &str) -> (r: u64)
    ensures
        r == numeric_id(node_id@),
{
    let bytes = node_id.as_bytes();
    let mut arr: Vec<u8> = Vec::new();
    let mut i: usize = 0;
    while i < 8
        invariant
            i <= 8,
            arr@.len() == i,
            bytes@ == node_id.spec_bytes(),
            forall|j: int| 0 <= j < i ==> arr@[j] == first_eight(bytes@)[j],
        decreases 8 - i,
    {
        if i < bytes.len() {
            arr.push(bytes[i]);
        } else {
            arr.push(0);
        }
        i += 1;
    }
    assert(arr@ =~= first_eight(bytes@));
    u64_from_le_bytes(arr.as_slice())
}

/// A node as it registers itself: healthy, with a heartbeat of `now` and no
/// utilisation measured yet.
pub open spec fn self_status(
    node_id: Seq<char>,
    hostname: Seq<char>,
    tags: Seq<Seq<char>>,
    now: i64,
) -> ClusterCommandView {
    ClusterCommandView::RegisterNode(
        NodeStatusView {
            node_id,
            hostname,
            tags,
            health: NodeHealthView::Healthy,
            last_heartbeat: now,
            cpu_usage: 0,
            memory_usage: 0,
            disk_usage: 0,
        },
    )
}

/// The command by which a node registers itself at `now`.
pub fn register_command(node_id: &str, hostname: &str, tags: &Vec<String>, now: i64) -> (r:
    ClusterCommand)
    ensures
        r@ == self_status(node_id@, hostname@, views(tags@), now),
{
    ClusterCommand::RegisterNode(
        NodeStatus {
            node_id: String::from_str(node_id),
            hostname: String::from_str(hostname),
            tags: clone_strings(tags),
            health: NodeHealth::Healthy,
            last_heartbeat: now,
            cpu_usage: 0,
            memory_usage: 0,
            disk_usage: 0,
        },
    )
}

/// The command by which a node registers itself now.
pub fn register_now(node_id: &str, hostname: &str, tags: &Vec<String>) -> (r: ClusterCommand)
    ensures
        exists|now: i64| r@ == #[trigger] self_status(node_id@, hostname@, views(tags@), now),
{
    let now = now_millis();
    register_command(node_id, hostname, tags, now)
}

/// The heartbeat of a node: it is healthy, and these are its figures.
pub fn heartbeat_command(node_id: &str, metrics: NodeMetrics) -> (r: ClusterCommand)
    ensures
        r@ == (ClusterCommandView::UpdateNodeHealth {
            node_id: node_id@,
            health: NodeHealthView::Healthy,
            metrics,
        }),
{
    ClusterCommand::UpdateNodeHealth {
        node_id: String::from_str(node_id),
        health: NodeHealth::Healthy,
        metrics,
    }
}

/// The tasks that the node `node_id` has to run: those that target it and
/// are pending.
pub open spec fn runnable_on(node_id: Seq<char>) -> spec_fn(TaskView) -> bool {
    |t: TaskView| t.target_node == node_id && t.status is Pending
}

/// The tasks of `view` that this node has to run, in order.
pub fn tasks_to_run(view: &ClusterView, node_id: &str) -> (r: Vec<Task>)
    ensures
        elem_views(r@) == view@.tasks.filter(runnable_on(node_id@)),
{
    let ghost ts = view@.tasks;
    let mut out: Vec<Task> = Vec::new();
    let mut i: usize = 0;
    proof {
        lemma_filter_none(ts, runnable_on(node_id@));
        assert(elem_views(out@) =~= Seq::empty());
    }
    while i < view.tasks.len()
        invariant
            i <= view.tasks@.len(),
            ts == view@.tasks,
            elem_views(out@) == ts.take(i as int).filter(runnable_on(node_id@)),
        decreases view.tasks.len() - i,
    {
        proof {
            lemma_filter_step(ts, runnable_on(node_id@), i as int);
            assert(ts[i as int] == view.tasks@[i as int]@);
        }
        let t = &view.tasks[i];
        let ghost prev = out@;
        if str_eq(t.target_node.as_str(), node_id) && t.status.is_pending() {
            out.push(t.clone());
            assert(elem_views(out@) =~= elem_views(prev).push(ts[i as int]));
        }
        i += 1;
    }
    proof {
        lemma_filter_none(ts, runnable_on(node_id@));
    }
    out
}

/// Deliberation is due on the leader alone, and only while there are goals.
pub fn planning_due(is_leader: bool, view: &ClusterView) -> (r: bool)
    ensures
        r == (is_leader && view@.goals.len() > 0),
{
    is_leader && view.goals.len() > 0
}

/// Which deliberator a node runs.
#[derive(Debug, Clone, Copy, PartialEq, Eq, Structural)]
pub enum BrainChoice {
    NoOp,
    Oracle,
}

/// The oracle is asked only where it is enabled and a key for it is at
/// hand.
pub fn choose_brain(llm_enabled: bool, api_key: &str) -> (r: BrainChoice)
    ensures
        r == (if llm_enabled && api_key@.len() > 0 {
            BrainChoice::Oracle
        } else {
            BrainChoice::NoOp
        }),
{
    if llm_enabled && !api_key.is_empty() {
        BrainChoice::Oracle
    } else {
        BrainChoice::NoOp
    }
}

/// The goal that an action reports on, if it reports on one.
pub fn extract_goal_id(action: &BrainAction) -> (r: Option<String>)
    ensures
        opt_view(r) == (match action@ {
            BrainActionView::UpdateGoalProgress { goal_id, .. } => Some(goal_id),
            _ => None,
        }),
{
    match action {
        BrainAction::UpdateGoalProgress { goal_id, .. } => Some(goal_id.clone()),
        _ => None,
    }
}

/// Some action of `failures` is similar to `action`.
pub open spec fn failed_before(action: BrainActionView, failures: Seq<TrackedActionView>) -> bool {
    exists|i: int| 0 <= i < failures.len() && similar((#[trigger] failures[i]).action, action)
}

/// Whether an action similar to `action` is among the recent failures.
pub fn is_recently_failed(action: &BrainAction, recent_failures: &Vec<TrackedAction>) -> (r: bool)
    ensures
        r == failed_before(action@, elem_views(recent_failures@)),
{
    let mut i: usize = 0;
    while i < recent_failures.len()
        invariant
            i <= recent_failures@.len(),
            forall|j: int|
                0 <= j < i ==> !similar(
                    (#[trigger] elem_views(recent_failures@)[j]).action,
                    action@,
                ),
        decreases recent_failures.len() - i,
    {
        assert(elem_views(recent_failures@)[i as int] == recent_failures@[i as int]@);
        if is_similar_action(&recent_failures[i].action, action) {
            return true;
        }
        i += 1;
    }
    false
}

/// A proposed action is passed over while a similar one is in flight, or
/// after a similar one failed recently.
pub fn should_skip(
    tracker: &ActionTracker,
    action: &BrainAction,
    recent_failures: &Vec<TrackedAction>,
) -> (r: bool)
    ensures
        r == (tracker@.has_similar(action@) || failed_before(
            action@,
            elem_views(recent_failures@),
        )),
{
    tracker.has_similar_pending(action) || is_recently_failed(action, recent_failures)
}

/// How the execution of an action ended.
#[derive(Debug)]
pub enum Outcome {
    /// The action was carried out.
    Done,
    /// The policy rejected the action.
    Rejected { message: String },
    /// This node is not the leader, so the action could not be written.
    NotLeader { message: String },
    /// The commit of the action failed.
    Failed { message: String },
}

pub enum OutcomeView {
    Done,
    Rejected { message: Seq<char> },
    NotLeader { message: Seq<char> },
    Failed { message: Seq<char> },
}

impl View for Outcome {
    type V = OutcomeView;

    open spec fn view(&self) -> OutcomeView {
        match self {
            Outcome::Done => OutcomeView::Done,
            Outcome::Rejected { message } => OutcomeView::Rejected { message: message@ },
            Outcome::NotLeader { message } => OutcomeView::NotLeader { message: message@ },
            Outcome::Failed { message } => OutcomeView::Failed { message: message@ },
        }
    }
}

impl OutcomeView {
    /// The message of the error, where the outcome is one.
    pub open spec fn failure(self) -> Option<Seq<char>> {
        match self {
            OutcomeView::Done => None,
            OutcomeView::Rejected { message } => Some(message),
            OutcomeView::NotLeader { message } => Some(message),
            OutcomeView::Failed { message } => Some(message),
        }
    }
}

impl Outcome {
    /// The kind of the error, where the outcome is one.
    pub fn kind(&self) -> (r: Option<ErrorKind>)
        ensures
            r == (match self@ {
                OutcomeView::Done => None,
                OutcomeView::Rejected { .. } => Some(ErrorKind::Validation),
                OutcomeView::NotLeader { .. } => Some(ErrorKind::NotLeader),
                OutcomeView::Failed { .. } => Some(ErrorKind::Consensus),
            }),
    {
        match self {
            Outcome::Done => None,
            Outcome::Rejected { .. } => Some(ErrorKind::Validation),
            Outcome::NotLeader { .. } => Some(ErrorKind::NotLeader),
            Outcome::Failed { .. } => Some(ErrorKind::Consensus),
        }
    }
}

/// What the end of an execution means for the ledger: an action carried out
/// is done; one that the policy refused is rejected; one whose write found
/// no leader has found no leader; and every other failure of the write is a
/// failed commit. The message of the error goes with it.
pub open spec fn outcome_spec(result: Result<(), ExecuteError>) -> OutcomeView {
    match result {
        Ok(_) => OutcomeView::Done,
        Err(e) => match e@.kind() {
            ErrorKind::Validation => OutcomeView::Rejected { message: e@.message() },
            ErrorKind::NotLeader => OutcomeView::NotLeader { message: e@.message() },
            _ => OutcomeView::Failed { message: e@.message() },
        },
    }
}

/// Says what the end of an execution means for the ledger.
pub fn outcome_of(result: Result<(), ExecuteError>) -> (r: Outcome)
    ensures
        r@ == outcome_spec(result),
{
    match result {
        Ok(_) => Outcome::Done,
        Err(e) => {
            let message = e.message();
            match e.kind() {
                ErrorKind::Validation => Outcome::Rejected { message },
                ErrorKind::NotLeader => Outcome::NotLeader { message },
                _ => Outcome::Failed { message },
            }
        },
    }
}

/// The ledger after the execution of the action `id` ended at `now`. An
/// action carried out is completed. A rejected one fails for good, without
/// another attempt. One that found no leader waits, and no attempt is
/// counted. For a failed commit an attempt is counted. Where the action
/// reports on a goal, the goal's progress notes the end, with the message of
/// the error as its note.
pub open spec fn settled(
    t: TrackerView,
    id: Seq<char>,
    goal_id: Option<Seq<char>>,
    outcome: OutcomeView,
    now: i64,
) -> TrackerView {
    let marked = match outcome {
        OutcomeView::Done => completed_spec(t, id, None, now),
        OutcomeView::Rejected { message } => rejected_spec(t, id, Some(message), now),
        OutcomeView::NotLeader { .. } => released_spec(t, id),
        OutcomeView::Failed { message } => failed_spec(t, id, Some(message), now),
    };
    match goal_id {
        Some(g) => progress_spec(marked, g, outcome is Done, outcome.failure(), now),
        None => marked,
    }
}

/// Whether the action `id` is to be tried again after `outcome`: not after
/// it was carried out or rejected; after it found no leader, if it is in
/// flight; after a failed commit, while it has attempts left.
pub open spec fn tried_again(t: TrackerView, id: Seq<char>, outcome: OutcomeView) -> bool {
    match outcome {
        OutcomeView::Done => false,
        OutcomeView::Rejected { .. } => false,
        OutcomeView::NotLeader { .. } => has_key(t.actions, id),
        OutcomeView::Failed { .. } => retry_owed(t, id),
    }
}

/// Records in the ledger how the execution of the action `id` ended at
/// `now`, and says whether the action is to be tried again.
pub fn settle_at(
    tracker: &mut ActionTracker,
    id: &str,
    goal_id: Option<String>,
    outcome: Outcome,
    now: i64,
) -> (r: bool)
    ensures
        final(tracker)@ == settled(old(tracker)@, id@, opt_view(goal_id), outcome@, now),
        r == tried_again(old(tracker)@, id@, outcome@),
{
    match outcome {
        Outcome::Done => {
            tracker.mark_completed_at(id, None, now);
            if let Some(g) = goal_id {
                tracker.update_goal_progress_at(g.as_str(), true, None, now);
            }
            false
        },
        Outcome::Rejected { message } => {
            tracker.mark_rejected_at(id, Some(message.clone()), now);
            if let Some(g) = goal_id {
                tracker.update_goal_progress_at(g.as_str(), false, Some(message), now);
            }
            false
        },
        Outcome::NotLeader { message } => {
            let again = tracker.release(id);
            if let Some(g) = goal_id {
                tracker.update_goal_progress_at(g.as_str(), false, Some(message), now);
            }
            again
        },
        Outcome::Failed { message } => {
            let again = tracker.mark_failed_at(id, Some(message.clone()), now);
            if let Some(g) = goal_id {
                tracker.update_goal_progress_at(g.as_str(), false, Some(message), now);
            }
            again
        },
    }
}

/// Records in the ledger how the execution of the action `id` ended now, and
/// says whether the action is to be tried again.
pub fn settle(tracker: &mut ActionTracker, id: &str, goal_id: Option<String>, outcome: Outcome)
    -> (r: bool)
    ensures
        exists|now: i64|
            final(tracker)@ == #[trigger] settled(
                old(tracker)@,
                id@,
                opt_view(goal_id),
                outcome@,
                now,
            ),
        r == tried_again(old(tracker)@, id@, outcome@),
{
    let now = now_millis();
    settle_at(tracker, id, goal_id, outcome, now)
}

/// `after` is `before` with `action` entered under `id` and marked as
/// executing, both at one instant.
pub open spec fn taken_up(
    before: TrackerView,
    after: TrackerView,
    id: Seq<char>,
    action: BrainActionView,
) -> bool {
    exists|now: i64|
        after == executing_spec(#[trigger] track_spec(before, id, action, now), id, now)
}

/// Enters `action` into the ledger as executing, unless it is to be passed
/// over, and returns the identifier it got.
pub fn take_up(
    tracker: &mut ActionTracker,
    action: &BrainAction,
    recent_failures: &Vec<TrackedAction>,
) -> (r: Option<String>)
    ensures
        r is None == (old(tracker)@.has_similar(action@) || failed_before(
            action@,
            elem_views(recent_failures@),
        )),
        r is None ==> final(tracker)@ == old(tracker)@,
        r matches Some(id) ==> id@.len() == 36 && taken_up(
            old(tracker)@,
            final(tracker)@,
            id@,
            action@,
        ),
{
    if should_skip(tracker, action, recent_failures) {
        return None;
    }
    let ghost before = tracker@;
    let id = fresh_id();
    let now = now_millis();
    tracker.track_with(id.clone(), action.clone(), now);
    tracker.mark_executing_at(id.as_str(), now);
    proof {
        assert(tracker@ == executing_spec(track_spec(before, id@, action@, now), id@, now));
        assert(taken_up(before, tracker@, id@, action@));
    }
    Some(id)
}

} // verus!
