//! The action tracker: a node-local ledger of proposed actions that finds
//! duplicates, counts retries, times out what hangs and keeps a bounded
//! history.

use vstd::prelude::*;
use crate::clock::now_millis;
use crate::ident::fresh_id;
use crate::store::{
    del, distinct_keys, has_key, index_of, lemma_del, lemma_del_entries, lemma_del_put, lemma_put,
    lemma_put_put, lookup, put, values, Duplicate, KeyedStore,
};
use crate::text::{
    clone_opt_string, clone_strings, elem_views, lemma_filter_none, lemma_filter_step, opt_view,
    str_eq, views,
};
use crate::types::{BrainAction, BrainActionView};

verus! {

/// Where a tracked action stands.
#[derive(Debug, Clone, Copy, PartialEq, Eq, Structural)]
pub enum ActionStatus {
    Proposed,
    Executing,
    Completed,
    Failed,
    Cancelled,
}

/// How a tracked action ended.
#[derive(Debug)]
pub struct ActionResult {
    pub success: bool,
    pub message: Option<String>,
    pub completed_at: i64,
}

pub struct ActionResultView {
    pub success: bool,
    pub message: Option<Seq<char>>,
    pub completed_at: i64,
}

impl View for ActionResult {
    type V = ActionResultView;

    open spec fn view(&self) -> ActionResultView {
        ActionResultView {
            success: self.success,
            message: opt_view(self.message),
            completed_at: self.completed_at,
        }
    }
}

impl Clone for ActionResult {
    fn clone(&self) -> (r: Self)
        ensures
            r@ == self@,
    {
        ActionResult {
            success: self.success,
            message: clone_opt_string(&self.message),
            completed_at: self.completed_at,
        }
    }
}

/// The view of an optional result.
pub open spec fn result_view(o: Option<ActionResult>) -> Option<ActionResultView> {
    match o {
        Some(r) => Some(r@),
        None => None,
    }
}

/// A proposed action and what became of it.
#[derive(Debug)]
pub struct TrackedAction {
    pub id: String,
    pub action: BrainAction,
    pub proposed_at: i64,
    /// When the execution under way began; nothing while the action waits.
    pub started_at: Option<i64>,
    pub status: ActionStatus,
    pub result: Option<ActionResult>,
    pub retry_count: u32,
}

pub struct TrackedActionView {
    pub id: Seq<char>,
    pub action: BrainActionView,
    pub proposed_at: i64,
    pub started_at: Option<i64>,
    pub status: ActionStatus,
    pub result: Option<ActionResultView>,
    pub retry_count: u32,
}

impl View for TrackedAction {
    type V = TrackedActionView;

    open spec fn view(&self) -> TrackedActionView {
        TrackedActionView {
            id: self.id@,
            action: self.action@,
            proposed_at: self.proposed_at,
            started_at: self.started_at,
            status: self.status,
            result: result_view(self.result),
            retry_count: self.retry_count,
        }
    }
}

impl Clone for TrackedAction {
    fn clone(&self) -> (r: Self)
        ensures
            r@ == self@,
    {
        TrackedAction {
            id: self.id.clone(),
            action: self.action.clone(),
            proposed_at: self.proposed_at,
            started_at: self.started_at,
            status: self.status,
            result: match &self.result {
                Some(x) => Some(x.clone()),
                None => None,
            },
            retry_count: self.retry_count,
        }
    }
}

impl Duplicate for TrackedAction {
    fn duplicate(&self) -> (r: Self) {
        self.clone()
    }
}

/// What is known of the work done for a goal.
#[derive(Debug)]
pub struct GoalProgress {
    pub goal_id: String,
    pub last_planned: i64,
    pub actions_proposed: u32,
    pub actions_completed: u32,
    pub actions_failed: u32,
    pub estimated_progress: u8,
    pub notes: Vec<String>,
}

pub struct GoalProgressView {
    pub goal_id: Seq<char>,
    pub last_planned: i64,
    pub actions_proposed: u32,
    pub actions_completed: u32,
    pub actions_failed: u32,
    pub estimated_progress: u8,
    pub notes: Seq<Seq<char>>,
}

impl View for GoalProgress {
    type V = GoalProgressView;

    open spec fn view(&self) -> GoalProgressView {
        GoalProgressView {
            goal_id: self.goal_id@,
            last_planned: self.last_planned,
            actions_proposed: self.actions_proposed,
            actions_completed: self.actions_completed,
            actions_failed: self.actions_failed,
            estimated_progress: self.estimated_progress,
            notes: views(self.notes@),
        }
    }
}

impl Clone for GoalProgress {
    fn clone(&self) -> (r: Self)
        ensures
            r@ == self@,
    {
        GoalProgress {
            goal_id: self.goal_id.clone(),
            last_planned: self.last_planned,
            actions_proposed: self.actions_proposed,
            actions_completed: self.actions_completed,
            actions_failed: self.actions_failed,
            estimated_progress: self.estimated_progress,
            notes: clone_strings(&self.notes),
        }
    }
}

impl Duplicate for GoalProgress {
    fn duplicate(&self) -> (r: Self) {
        self.clone()
    }
}

/// Counts of what the tracker holds.
#[derive(Debug, Clone, Copy, PartialEq, Eq)]
pub struct TrackerStats {
    pub pending: usize,
    pub executing: usize,
    pub completed: usize,
    pub failed: usize,
    pub history_size: usize,
}

/// Two actions are similar when they are of the same kind and agree on what
/// identifies an action of that kind: the node and the kind of task for a
/// task to schedule, the task for a rebalance or a cancellation, the node for
/// a degradation. Actions of the other kinds are similar to nothing.
pub open spec fn similar(a: BrainActionView, b: BrainActionView) -> bool {
    match (a, b) {
        (
            BrainActionView::ScheduleTask { task: t1, target_node: n1, .. },
            BrainActionView::ScheduleTask { task: t2, target_node: n2, .. },
        ) => n1 == n2 && t1.tag() == t2.tag(),
        (
            BrainActionView::RebalanceTask { task_id: t1, .. },
            BrainActionView::RebalanceTask { task_id: t2, .. },
        ) => t1 == t2,
        (
            BrainActionView::CancelTask { task_id: t1 },
            BrainActionView::CancelTask { task_id: t2 },
        ) => t1 == t2,
        (
            BrainActionView::MarkNodeDegraded { node_id: n1, .. },
            BrainActionView::MarkNodeDegraded { node_id: n2, .. },
        ) => n1 == n2,
        _ => false,
    }
}

/// The kinds of action for which similarity is defined.
pub open spec fn has_identity(a: BrainActionView) -> bool {
    a is ScheduleTask || a is RebalanceTask || a is CancelTask || a is MarkNodeDegraded
}

/// Similarity does not depend on the order of its arguments.
pub proof fn lemma_similar_symmetric(a: BrainActionView, b: BrainActionView)
    ensures
        similar(a, b) == similar(b, a),
{
}

/// An action of a kind with an identity is similar to itself; an action of
/// another kind is not.
pub proof fn lemma_similar_reflexive(a: BrainActionView)
    ensures
        similar(a, a) == has_identity(a),
{
}

/// Whether two actions are similar.
pub fn is_similar_action(a: &BrainAction, b: &BrainAction) -> (r: bool)
    ensures
        r == similar(a@, b@),
{
    match (a, b) {
        (
            BrainAction::ScheduleTask { task: t1, target_node: n1, .. },
            BrainAction::ScheduleTask { task: t2, target_node: n2, .. },
        ) => str_eq(n1.as_str(), n2.as_str()) && t1.tag() == t2.tag(),
        (
            BrainAction::RebalanceTask { task_id: t1, .. },
            BrainAction::RebalanceTask { task_id: t2, .. },
        ) => str_eq(t1.as_str(), t2.as_str()),
        (BrainAction::CancelTask { task_id: t1 }, BrainAction::CancelTask { task_id: t2 }) => {
            str_eq(t1.as_str(), t2.as_str())
        },
        (
            BrainAction::MarkNodeDegraded { node_id: n1, .. },
            BrainAction::MarkNodeDegraded { node_id: n2, .. },
        ) => str_eq(n1.as_str(), n2.as_str()),
        _ => false,
    }
}

/// The ledger as a value: the actions in flight, the progress notes of the
/// goals, the history of what ended, and the three limits.
pub struct TrackerView {
    pub actions: Seq<(Seq<char>, TrackedActionView)>,
    pub goal_progress: Seq<(Seq<char>, GoalProgressView)>,
    pub history: Seq<TrackedActionView>,
    pub max_history: usize,
    pub max_retries: u32,
    pub action_timeout: i64,
}

impl TrackerView {
    /// No identifier is tracked twice, the history is within its bound, at
    /// least one attempt is granted, and every action in flight has attempts
    /// left.
    pub open spec fn wf(self) -> bool {
        &&& distinct_keys(self.actions)
        &&& distinct_keys(self.goal_progress)
        &&& self.history.len() <= self.max_history
        &&& self.max_retries >= 1
        &&& forall|i: int|
            0 <= i < self.actions.len() ==> (#[trigger] self.actions[i]).1.retry_count
                < self.max_retries
    }

    /// Some action in flight is similar to `action`.
    pub open spec fn has_similar(self, action: BrainActionView) -> bool {
        exists|i: int|
            0 <= i < self.actions.len() && similar((#[trigger] self.actions[i]).1.action, action)
    }
}

/// The ledger before anything entered it: a thousand entries of history
/// are kept, three attempts are granted, and an action may execute for five
/// minutes.
pub open spec fn empty_ledger() -> TrackerView {
    TrackerView {
        actions: Seq::empty(),
        goal_progress: Seq::empty(),
        history: Seq::empty(),
        max_history: 1000,
        max_retries: 3,
        action_timeout: 300_000,
    }
}

/// An action as it is when it enters the ledger.
pub open spec fn proposed(id: Seq<char>, action: BrainActionView, now: i64) -> TrackedActionView {
    TrackedActionView {
        id,
        action,
        proposed_at: now,
        started_at: None,
        status: ActionStatus::Proposed,
        result: None,
        retry_count: 0,
    }
}

/// `h` with `a` at its end, cut from the front to at most `max` entries.
pub open spec fn bounded_push<T>(h: Seq<T>, a: T, max: usize) -> Seq<T> {
    let all = h.push(a);
    if all.len() > max {
        all.skip(all.len() - max)
    } else {
        all
    }
}

/// The ledger after `action` entered it under `id` at `now`.
pub open spec fn track_spec(t: TrackerView, id: Seq<char>, action: BrainActionView, now: i64)
    -> TrackerView {
    TrackerView { actions: put(t.actions, id, proposed(id, action, now)), ..t }
}

/// An action as it waits: proposed, with no execution under way.
pub open spec fn waiting(a: TrackedActionView) -> TrackedActionView {
    TrackedActionView { status: ActionStatus::Proposed, started_at: None, ..a }
}

/// An action as it is while the execution that began at `now` is under way.
pub open spec fn running(a: TrackedActionView, now: i64) -> TrackedActionView {
    TrackedActionView { status: ActionStatus::Executing, started_at: Some(now), ..a }
}

/// The ledger after the action `id`, if it is in flight, started to execute
/// at `now`.
pub open spec fn executing_spec(t: TrackerView, id: Seq<char>, now: i64) -> TrackerView {
    match lookup(t.actions, id) {
        Some(a) => TrackerView { actions: put(t.actions, id, running(a, now)), ..t },
        None => t,
    }
}

/// An action as it enters the history.
pub open spec fn ended(
    a: TrackedActionView,
    status: ActionStatus,
    success: bool,
    message: Option<Seq<char>>,
    now: i64,
) -> TrackedActionView {
    TrackedActionView {
        status,
        result: Some(ActionResultView { success, message, completed_at: now }),
        ..a
    }
}

/// The ledger after the action `id`, if it is in flight, completed at `now`.
pub open spec fn completed_spec(
    t: TrackerView,
    id: Seq<char>,
    message: Option<Seq<char>>,
    now: i64,
) -> TrackerView {
    match lookup(t.actions, id) {
        Some(a) => TrackerView {
            actions: del(t.actions, id),
            history: bounded_push(
                t.history,
                ended(a, ActionStatus::Completed, true, message, now),
                t.max_history,
            ),
            ..t
        },
        None => t,
    }
}

/// Whether a failure of the action `id` leaves it an attempt.
pub open spec fn retry_owed(t: TrackerView, id: Seq<char>) -> bool {
    match lookup(t.actions, id) {
        Some(a) => a.retry_count + 1 < t.max_retries,
        None => false,
    }
}

/// The ledger after the action `id`, if it is in flight, failed at `now`:
/// back to proposed while attempts are left, into the history as failed
/// with the last one.
pub open spec fn failed_spec(t: TrackerView, id: Seq<char>, message: Option<Seq<char>>, now: i64)
    -> TrackerView {
    match lookup(t.actions, id) {
        Some(a) => {
            let counted = TrackedActionView { retry_count: (a.retry_count + 1) as u32, ..a };
            if a.retry_count + 1 < t.max_retries {
                TrackerView {
                    actions: put(t.actions, id, waiting(counted)),
                    ..t
                }
            } else {
                TrackerView {
                    actions: del(t.actions, id),
                    history: bounded_push(
                        t.history,
                        ended(counted, ActionStatus::Failed, false, message, now),
                        t.max_history,
                    ),
                    ..t
                }
            }
        },
        None => t,
    }
}

/// The ledger after the action `id`, if it is in flight, was rejected at
/// `now`: it enters the history as failed at once, whatever attempts it had
/// left, and no attempt is counted.
pub open spec fn rejected_spec(
    t: TrackerView,
    id: Seq<char>,
    message: Option<Seq<char>>,
    now: i64,
) -> TrackerView {
    match lookup(t.actions, id) {
        Some(a) => TrackerView {
            actions: del(t.actions, id),
            history: bounded_push(
                t.history,
                ended(a, ActionStatus::Failed, false, message, now),
                t.max_history,
            ),
            ..t
        },
        None => t,
    }
}

/// The ledger after the action `id`, if it is in flight, was put back to
/// wait: it is proposed again, and no attempt is counted.
pub open spec fn released_spec(t: TrackerView, id: Seq<char>) -> TrackerView {
    match lookup(t.actions, id) {
        Some(a) => TrackerView {
            actions: put(t.actions, id, waiting(a)),
            ..t
        },
        None => t,
    }
}

/// An action is stale once it has been executing for longer than the
/// timeout: its execution began more than the timeout before `now`.
pub open spec fn is_stale(a: TrackedActionView, now: i64, timeout: i64) -> bool {
    a.status == ActionStatus::Executing && (match a.started_at {
        Some(begun) => now - begun > timeout,
        None => false,
    })
}

/// What the sweep of stale actions leaves of `actions` and makes of
/// `history`: each stale action, in the order of the table, leaves the table
/// and enters the history as failed with the reason "timeout".
pub open spec fn sweep(
    actions: Seq<(Seq<char>, TrackedActionView)>,
    history: Seq<TrackedActionView>,
    max: usize,
    now: i64,
    timeout: i64,
) -> (Seq<(Seq<char>, TrackedActionView)>, Seq<TrackedActionView>)
    decreases actions.len(),
{
    if actions.len() == 0 {
        (actions, history)
    } else if is_stale(actions[0].1, now, timeout) {
        sweep(
            actions.drop_first(),
            bounded_push(
                history,
                ended(actions[0].1, ActionStatus::Failed, false, Some("timeout"@), now),
                max,
            ),
            max,
            now,
            timeout,
        )
    } else {
        let rest = sweep(actions.drop_first(), history, max, now, timeout);
        (seq![actions[0]] + rest.0, rest.1)
    }
}

/// The ledger after the sweep of stale actions at `now`.
pub open spec fn cleanup_spec(t: TrackerView, now: i64) -> TrackerView {
    let swept = sweep(t.actions, t.history, t.max_history, now, t.action_timeout);
    TrackerView { actions: swept.0, history: swept.1, ..t }
}

/// One more than `n`, but never more than a counter can hold.
pub open spec fn bump(n: u32) -> u32 {
    if n < u32::MAX {
        (n + 1) as u32
    } else {
        n
    }
}

/// The share of completed actions among the proposed ones, in percent,
/// rounded down.
pub open spec fn percent(completed: u32, proposed: u32) -> u8 {
    let total: int = if proposed == 0 {
        1
    } else {
        proposed as int
    };
    let p = completed as int * 100 / total;
    if p > 255 {
        255u8
    } else {
        p as u8
    }
}

/// A note with the time of day at which it was taken in front of it.
pub open spec fn stamped(note: Seq<char>, now: i64) -> Seq<char> {
    seq!['['] + crate::clock::time_of_day(now as int) + seq![']', ' '] + note
}

/// The notes with one more, stamped, at their end; of more than fifty the
/// oldest is dropped.
pub open spec fn bounded_notes(notes: Seq<Seq<char>>, note: Option<Seq<char>>, now: i64) -> Seq<
    Seq<char>,
> {
    match note {
        Some(n) => {
            let all = notes.push(stamped(n, now));
            if all.len() > 50 {
                all.drop_first()
            } else {
                all
            }
        },
        None => notes,
    }
}

/// The progress of a goal after one more action for it ended.
pub open spec fn progress_after(
    old: Option<GoalProgressView>,
    goal_id: Seq<char>,
    completed: bool,
    note: Option<Seq<char>>,
    now: i64,
) -> GoalProgressView {
    let base = match old {
        Some(p) => p,
        None => GoalProgressView {
            goal_id,
            last_planned: now,
            actions_proposed: 0,
            actions_completed: 0,
            actions_failed: 0,
            estimated_progress: 0,
            notes: Seq::empty(),
        },
    };
    let proposed = bump(base.actions_proposed);
    let done = if completed {
        bump(base.actions_completed)
    } else {
        base.actions_completed
    };
    let failed = if completed {
        base.actions_failed
    } else {
        bump(base.actions_failed)
    };
    GoalProgressView {
        goal_id: base.goal_id,
        last_planned: now,
        actions_proposed: proposed,
        actions_completed: done,
        actions_failed: failed,
        estimated_progress: percent(done, proposed),
        notes: bounded_notes(base.notes, note, now),
    }
}

/// The ledger after one more action for the goal `goal_id` ended at `now`.
pub open spec fn progress_spec(
    t: TrackerView,
    goal_id: Seq<char>,
    completed: bool,
    note: Option<Seq<char>>,
    now: i64,
) -> TrackerView {
    TrackerView {
        goal_progress: put(
            t.goal_progress,
            goal_id,
            progress_after(lookup(t.goal_progress, goal_id), goal_id, completed, note, now),
        ),
        ..t
    }
}

/// The actions that wait to be executed.
pub open spec fn is_proposed() -> spec_fn(TrackedActionView) -> bool {
    |a: TrackedActionView| a.status == ActionStatus::Proposed
}

/// The actions that are being executed.
pub open spec fn is_executing() -> spec_fn(TrackedActionView) -> bool {
    |a: TrackedActionView| a.status == ActionStatus::Executing
}

/// The actions that completed.
pub open spec fn is_completed() -> spec_fn(TrackedActionView) -> bool {
    |a: TrackedActionView| a.status == ActionStatus::Completed
}

/// The actions that failed for good.
pub open spec fn is_failed() -> spec_fn(TrackedActionView) -> bool {
    |a: TrackedActionView| a.status == ActionStatus::Failed
}

/// At most the first `limit` entries of `s`.
pub open spec fn first_n<T>(s: Seq<T>, limit: usize) -> Seq<T> {
    if s.len() <= limit {
        s
    } else {
        s.take(limit as int)
    }
}

/// The counts of a ledger.
pub open spec fn stats_spec(t: TrackerView) -> TrackerStats {
    TrackerStats {
        pending: values(t.actions).filter(is_proposed()).len() as usize,
        executing: values(t.actions).filter(is_executing()).len() as usize,
        completed: t.history.filter(is_completed()).len() as usize,
        failed: t.history.filter(is_failed()).len() as usize,
        history_size: t.history.len() as usize,
    }
}

/// A bounded push never leaves more than the bound.
pub proof fn lemma_bounded_push_len<T>(h: Seq<T>, a: T, max: usize)
    ensures
        bounded_push(h, a, max).len() <= max,
        bounded_push(h, a, max).len() <= h.len() + 1,
{
}

proof fn lemma_put_keeps_attempts(
    s: Seq<(Seq<char>, TrackedActionView)>,
    k: Seq<char>,
    v: TrackedActionView,
    max: u32,
)
    requires
        forall|i: int| 0 <= i < s.len() ==> (#[trigger] s[i]).1.retry_count < max,
        v.retry_count < max,
    ensures
        forall|i: int|
            0 <= i < put(s, k, v).len() ==> (#[trigger] put(s, k, v)[i]).1.retry_count < max,
{
    let t = put(s, k, v);
    assert forall|i: int| 0 <= i < t.len() implies (#[trigger] t[i]).1.retry_count < max by {
        if has_key(s, k) {
            if i != index_of(s, k) {
                assert(t[i] == s[i]);
            }
        } else {
            if i < s.len() {
                assert(t[i] == s[i]);
            }
        }
    }
}

proof fn lemma_remove_keeps_attempts(s: Seq<(Seq<char>, TrackedActionView)>, p: int, max: u32)
    requires
        forall|i: int| 0 <= i < s.len() ==> (#[trigger] s[i]).1.retry_count < max,
        0 <= p < s.len(),
    ensures
        forall|i: int|
            0 <= i < s.remove(p).len() ==> (#[trigger] s.remove(p)[i]).1.retry_count < max,
{
    let t = s.remove(p);
    assert forall|i: int| 0 <= i < t.len() implies (#[trigger] t[i]).1.retry_count < max by {
        if i < p {
            assert(t[i] == s[i]);
        } else {
            assert(t[i] == s[i + 1]);
        }
    }
}

fn push_bounded(history: &mut Vec<TrackedAction>, a: TrackedAction, max: usize)
    ensures
        elem_views(final(history)@) == bounded_push(elem_views(old(history)@), a@, max),
{
    let ghost all = elem_views(history@).push(a@);
    history.push(a);
    assert(elem_views(history@) =~= all);
    while history.len() > max
        invariant
            history@.len() <= all.len(),
            elem_views(history@) == all.skip(all.len() - history@.len()),
            all.len() > max ==> history@.len() >= max,
            all.len() <= max ==> history@.len() == all.len(),
        decreases history@.len(),
    {
        let ghost prev = history@;
        history.remove(0);
        proof {
            let k = all.len() - prev.len();
            assert forall|j: int| 0 <= j < history@.len() implies elem_views(history@)[j]
                == all.skip(k + 1)[j] by {
                assert(history@[j] == prev[j + 1]);
                assert(elem_views(prev)[j + 1] == all.skip(k)[j + 1]);
            }
            assert(elem_views(history@) =~= all.skip(k + 1));
        }
    }
    assert(all.skip(0) =~= all);
}

/// The ledger of proposed actions.
pub struct ActionTracker {
    actions: KeyedStore<TrackedAction>,
    goal_progress: KeyedStore<GoalProgress>,
    action_history: Vec<TrackedAction>,
    max_history: usize,
    max_retries: u32,
    action_timeout: i64,
}

impl View for ActionTracker {
    type V = TrackerView;

    closed spec fn view(&self) -> TrackerView {
        TrackerView {
            actions: self.actions@,
            goal_progress: self.goal_progress@,
            history: elem_views(self.action_history@),
            max_history: self.max_history,
            max_retries: self.max_retries,
            action_timeout: self.action_timeout,
        }
    }
}

impl ActionTracker {
    #[verifier::type_invariant]
    spec fn inv(&self) -> bool {
        self@.wf()
    }

    /// An empty ledger that keeps a thousand entries of history, grants
    /// three attempts and lets an action execute for five minutes.
    pub fn new() -> (r: Self)
        ensures
            r@ == empty_ledger(),
            r@.wf(),
    {
        let r = ActionTracker {
            actions: KeyedStore::new(),
            goal_progress: KeyedStore::new(),
            action_history: Vec::new(),
            max_history: 1000,
            max_retries: 3,
            action_timeout: 300_000,
        };
        assert(r@.history =~= Seq::empty());
        r
    }

    /// Enters `action` under `id` as proposed at `now`.
    pub fn track_with(&mut self, id: String, action: BrainAction, now: i64)
        ensures
            final(self)@ == track_spec(old(self)@, id@, action@, now),
            final(self)@.wf(),
    {
        proof {
            use_type_invariant(&*self);
        }
        let ghost before = self@;
        let entry = TrackedAction {
            id: id.clone(),
            action,
            proposed_at: now,
            started_at: None,
            status: ActionStatus::Proposed,
            result: None,
            retry_count: 0,
        };
        proof {
            lemma_put(before.actions, id@, entry@);
            lemma_put_keeps_attempts(before.actions, id@, entry@, before.max_retries);
        }
        let mut actions: KeyedStore<TrackedAction> = KeyedStore::new();
        std::mem::swap(&mut self.actions, &mut actions);
        actions.insert(id, entry);
        std::mem::swap(&mut self.actions, &mut actions);
    }

    /// Enters `action` as proposed now, under a fresh identifier, and
    /// returns that identifier.
    pub fn track_action(&mut self, action: BrainAction) -> (r: String)
        ensures
            r@.len() == 36,
            exists|now: i64| final(self)@ == #[trigger] track_spec(old(self)@, r@, action@, now),
            final(self)@.wf(),
    {
        let id = fresh_id();
        let now = now_millis();
        self.track_with(id.clone(), action, now);
        id
    }

    /// Marks the action `id` as executing since now.
    pub fn mark_executing(&mut self, id: &str)
        ensures
            exists|now: i64| final(self)@ == #[trigger] executing_spec(old(self)@, id@, now),
            final(self)@.wf(),
    {
        let now = now_millis();
        self.mark_executing_at(id, now);
    }

    /// Marks the action `id` as executing since `now`.
    pub fn mark_executing_at(&mut self, id: &str, now: i64)
        ensures
            final(self)@ == executing_spec(old(self)@, id@, now),
            final(self)@.wf(),
    {
        proof {
            use_type_invariant(&*self);
        }
        let ghost before = self@;
        let updated = match self.actions.get(id) {
            Some(a) => {
                let mut c = a.clone();
                c.status = ActionStatus::Executing;
                c.started_at = Some(now);
                Some(c)
            },
            None => None,
        };
        if let Some(c) = updated {
            proof {
                lemma_put(before.actions, id@, c@);
                lemma_put_keeps_attempts(before.actions, id@, c@, before.max_retries);
                assert(before.actions[index_of(before.actions, id@)].1.retry_count
                    < before.max_retries);
            }
            let mut actions: KeyedStore<TrackedAction> = KeyedStore::new();
            std::mem::swap(&mut self.actions, &mut actions);
            actions.insert(String::from_str(id), c);
            std::mem::swap(&mut self.actions, &mut actions);
        }
    }

    /// Moves the action `id`, if it is in flight, into the history as
    /// completed at `now`.
    pub fn mark_completed_at(&mut self, id: &str, message: Option<String>, now: i64)
        ensures
            final(self)@ == completed_spec(old(self)@, id@, opt_view(message), now),
            final(self)@.wf(),
    {
        proof {
            use_type_invariant(&*self);
        }
        let ghost before = self@;
        proof {
            lemma_del(before.actions, id@);
        }
        let found = self.actions.position(id);
        if let Some(i) = found {
            proof {
                lemma_remove_keeps_attempts(before.actions, i as int, before.max_retries);
            }
            let mut actions: KeyedStore<TrackedAction> = KeyedStore::new();
            std::mem::swap(&mut self.actions, &mut actions);
            let pair = actions.remove_at(i);
            std::mem::swap(&mut self.actions, &mut actions);
            let mut completed = pair.1;
            completed.status = ActionStatus::Completed;
            completed.result = Some(ActionResult { success: true, message, completed_at: now });
            proof {
                lemma_bounded_push_len(before.history, completed@, before.max_history);
            }
            let mut history: Vec<TrackedAction> = Vec::new();
            std::mem::swap(&mut self.action_history, &mut history);
            push_bounded(&mut history, completed, self.max_history);
            std::mem::swap(&mut self.action_history, &mut history);
        }
    }

    /// Moves the action `id`, if it is in flight, into the history as
    /// completed now.
    pub fn mark_completed(&mut self, id: &str, message: Option<String>)
        ensures
            exists|now: i64|
                final(self)@ == #[trigger] completed_spec(old(self)@, id@, opt_view(message), now),
            final(self)@.wf(),
    {
        let now = now_millis();
        self.mark_completed_at(id, message, now);
    }

    /// Moves the action `id`, if it is in flight, into the history as
    /// failed at `now`, without another attempt.
    pub fn mark_rejected_at(&mut self, id: &str, message: Option<String>, now: i64)
        ensures
            final(self)@ == rejected_spec(old(self)@, id@, opt_view(message), now),
            final(self)@.wf(),
    {
        proof {
            use_type_invariant(&*self);
        }
        let ghost before = self@;
        proof {
            lemma_del(before.actions, id@);
        }
        let found = self.actions.position(id);
        if let Some(i) = found {
            proof {
                lemma_remove_keeps_attempts(before.actions, i as int, before.max_retries);
            }
            let mut actions: KeyedStore<TrackedAction> = KeyedStore::new();
            std::mem::swap(&mut self.actions, &mut actions);
            let pair = actions.remove_at(i);
            std::mem::swap(&mut self.actions, &mut actions);
            let mut failed = pair.1;
            failed.status = ActionStatus::Failed;
            failed.result = Some(ActionResult { success: false, message, completed_at: now });
            proof {
                lemma_bounded_push_len(before.history, failed@, before.max_history);
            }
            let mut history: Vec<TrackedAction> = Vec::new();
            std::mem::swap(&mut self.action_history, &mut history);
            push_bounded(&mut history, failed, self.max_history);
            std::mem::swap(&mut self.action_history, &mut history);
        }
    }

    /// Puts the action `id`, if it is in flight, back to wait, and says
    /// whether it is in flight.
    pub fn release(&mut self, id: &str) -> (r: bool)
        ensures
            final(self)@ == released_spec(old(self)@, id@),
            r == has_key(old(self)@.actions, id@),
            final(self)@.wf(),
    {
        proof {
            use_type_invariant(&*self);
        }
        let ghost before = self@;
        let updated = match self.actions.get(id) {
            Some(a) => {
                let mut c = a.clone();
                c.status = ActionStatus::Proposed;
                c.started_at = None;
                Some(c)
            },
            None => None,
        };
        match updated {
            Some(c) => {
                proof {
                    lemma_put(before.actions, id@, c@);
                    lemma_put_keeps_attempts(before.actions, id@, c@, before.max_retries);
                    assert(before.actions[index_of(before.actions, id@)].1.retry_count
                        < before.max_retries);
                }
                let mut actions: KeyedStore<TrackedAction> = KeyedStore::new();
                std::mem::swap(&mut self.actions, &mut actions);
                actions.insert(String::from_str(id), c);
                std::mem::swap(&mut self.actions, &mut actions);
                true
            },
            None => false,
        }
    }

    /// Counts a failure of the action `id` at `now` and says whether it is
    /// to be tried again.
    pub fn mark_failed_at(&mut self, id: &str, message: Option<String>, now: i64) -> (r: bool)
        ensures
            final(self)@ == failed_spec(old(self)@, id@, opt_view(message), now),
            r == retry_owed(old(self)@, id@),
            final(self)@.wf(),
    {
        proof {
            use_type_invariant(&*self);
        }
        let ghost before = self@;
        proof {
            lemma_del(before.actions, id@);
        }
        let found = self.actions.position(id);
        match found {
            Some(i) => {
                assert(before.actions[i as int].1.retry_count < before.max_retries);
                let mut counted = self.actions.value_at(i).clone();
                counted.retry_count = counted.retry_count + 1;
                if counted.retry_count >= self.max_retries {
                    proof {
                        lemma_remove_keeps_attempts(before.actions, i as int, before.max_retries);
                    }
                    let mut actions: KeyedStore<TrackedAction> = KeyedStore::new();
                    std::mem::swap(&mut self.actions, &mut actions);
                    actions.remove_at(i);
                    std::mem::swap(&mut self.actions, &mut actions);
                    counted.status = ActionStatus::Failed;
                    counted.result = Some(
                        ActionResult { success: false, message, completed_at: now },
                    );
                    proof {
                        lemma_bounded_push_len(before.history, counted@, before.max_history);
                    }
                    let mut history: Vec<TrackedAction> = Vec::new();
                    std::mem::swap(&mut self.action_history, &mut history);
                    push_bounded(&mut history, counted, self.max_history);
                    std::mem::swap(&mut self.action_history, &mut history);
                    false
                } else {
                    counted.status = ActionStatus::Proposed;
                    counted.started_at = None;
                    proof {
                        lemma_put(before.actions, id@, counted@);
                        lemma_put_keeps_attempts(
                            before.actions,
                            id@,
                            counted@,
                            before.max_retries,
                        );
                    }
                    let mut actions: KeyedStore<TrackedAction> = KeyedStore::new();
                    std::mem::swap(&mut self.actions, &mut actions);
                    actions.insert(String::from_str(id), counted);
                    std::mem::swap(&mut self.actions, &mut actions);
                    true
                }
            },
            None => false,
        }
    }

    /// Counts a failure of the action `id` now and says whether it is to be
    /// tried again.
    pub fn mark_failed(&mut self, id: &str, message: Option<String>) -> (r: bool)
        ensures
            exists|now: i64|
                final(self)@ == #[trigger] failed_spec(old(self)@, id@, opt_view(message), now),
            r == retry_owed(old(self)@, id@),
            final(self)@.wf(),
    {
        let now = now_millis();
        self.mark_failed_at(id, message, now)
    }
}

impl Default for ActionTracker {
    fn default() -> (r: Self)
        ensures
            r@ == empty_ledger(),
            r@.wf(),
    {
        ActionTracker::new()
    }
}

impl ActionTracker {
    /// Moves every action that has been executing for longer than the
    /// timeout, as of `now`, into the history as failed.
    pub fn cleanup_stale_at(&mut self, now: i64)
        ensures
            final(self)@ == cleanup_spec(old(self)@, now),
            final(self)@.wf(),
    {
        proof {
            use_type_invariant(&*self);
        }
        let ghost before = self@;
        let max = self.max_history;
        let timeout = self.action_timeout;
        let ghost bound = self.max_retries;
        let mut actions: KeyedStore<TrackedAction> = KeyedStore::new();
        std::mem::swap(&mut self.actions, &mut actions);
        let mut history: Vec<TrackedAction> = Vec::new();
        std::mem::swap(&mut self.action_history, &mut history);
        let mut i: usize = 0;
        proof {
            assert(actions@.take(0) =~= Seq::empty());
            assert(actions@.skip(0) =~= actions@);
            let sw = sweep(actions@, elem_views(history@), max, now, timeout);
            assert(actions@.take(0) + sw.0 =~= sw.0);
        }
        while i < actions.len()
            invariant
                i <= actions@.len(),
                distinct_keys(actions@),
                elem_views(history@).len() <= max,
                forall|j: int|
                    0 <= j < actions@.len() ==> (#[trigger] actions@[j]).1.retry_count < bound,
                sweep(before.actions, before.history, max, now, timeout).0 == actions@.take(
                    i as int,
                ) + sweep(actions@.skip(i as int), elem_views(history@), max, now, timeout).0,
                sweep(before.actions, before.history, max, now, timeout).1 == sweep(
                    actions@.skip(i as int),
                    elem_views(history@),
                    max,
                    now,
                    timeout,
                ).1,
            decreases actions@.len() - i,
        {
            let ghost cur = actions@;
            let ghost hist = elem_views(history@);
            let ghost tail = cur.skip(i as int);
            proof {
                assert(tail.len() > 0);
                assert(tail[0] == cur[i as int]);
                assert(tail.drop_first() =~= cur.skip(i + 1));
            }
            let a = actions.value_at(i);
            let stale = match (a.status, a.started_at) {
                (ActionStatus::Executing, Some(begun)) => (now as i128) - (begun as i128) > (
                timeout as i128),
                _ => false,
            };
            assert(stale == is_stale(cur[i as int].1, now, timeout));
            if stale {
                proof {
                    lemma_remove_keeps_attempts(cur, i as int, bound);
                }
                let pair = actions.remove_at(i);
                let mut failed = pair.1;
                failed.status = ActionStatus::Failed;
                failed.result = Some(
                    ActionResult {
                        success: false,
                        message: Some(String::from_str("timeout")),
                        completed_at: now,
                    },
                );
                proof {
                    lemma_bounded_push_len(hist, failed@, max);
                    assert(failed@ == ended(
                        cur[i as int].1,
                        ActionStatus::Failed,
                        false,
                        Some("timeout"@),
                        now,
                    ));
                }
                push_bounded(&mut history, failed, max);
                proof {
                    assert(actions@.take(i as int) =~= cur.take(i as int));
                    assert(actions@.skip(i as int) =~= cur.skip(i + 1));
                }
            } else {
                proof {
                    let rest = sweep(cur.skip(i + 1), hist, max, now, timeout);
                    assert(cur.take(i + 1) + rest.0 =~= cur.take(i as int) + (seq![cur[i as int]]
                        + rest.0));
                }
                i += 1;
            }
        }
        proof {
            assert(actions@.skip(i as int) =~= Seq::empty());
            assert(actions@.take(i as int) =~= actions@);
            assert(actions@ + Seq::empty() =~= actions@);
        }
        std::mem::swap(&mut self.action_history, &mut history);
        std::mem::swap(&mut self.actions, &mut actions);
    }

    /// Moves every action that has been executing for longer than the
    /// timeout into the history as failed.
    pub fn cleanup_stale(&mut self)
        ensures
            exists|now: i64| final(self)@ == #[trigger] cleanup_spec(old(self)@, now),
            final(self)@.wf(),
    {
        let now = now_millis();
        self.cleanup_stale_at(now);
    }

    /// Whether an action in flight is similar to `action`.
    pub fn has_similar_pending(&self, action: &BrainAction) -> (r: bool)
        ensures
            r == self@.has_similar(action@),
    {
        let n = self.actions.len();
        let mut i: usize = 0;
        while i < n
            invariant
                i <= n,
                n == self@.actions.len(),
                forall|j: int|
                    0 <= j < i ==> !similar((#[trigger] self@.actions[j]).1.action, action@),
            decreases n - i,
        {
            if is_similar_action(&self.actions.value_at(i).action, action) {
                assert(similar(self@.actions[i as int].1.action, action@));
                return true;
            }
            i += 1;
        }
        false
    }
}

impl ActionTracker {
    /// Records that one more action for the goal `goal_id` ended at `now`,
    /// completed or not, with an optional note.
    pub fn update_goal_progress_at(
        &mut self,
        goal_id: &str,
        completed: bool,
        notes: Option<String>,
        now: i64,
    )
        ensures
            final(self)@ == progress_spec(old(self)@, goal_id@, completed, opt_view(notes), now),
            final(self)@.wf(),
    {
        proof {
            use_type_invariant(&*self);
        }
        let ghost before = self@;
        let mut entry = match self.goal_progress.get(goal_id) {
            Some(p) => p.clone(),
            None => GoalProgress {
                goal_id: String::from_str(goal_id),
                last_planned: now,
                actions_proposed: 0,
                actions_completed: 0,
                actions_failed: 0,
                estimated_progress: 0,
                notes: Vec::new(),
            },
        };
        let ghost base = entry@;
        proof {
            if lookup(before.goal_progress, goal_id@) is None {
                assert(base.notes =~= Seq::empty());
            }
        }
        entry.last_planned = now;
        if entry.actions_proposed < u32::MAX {
            entry.actions_proposed = entry.actions_proposed + 1;
        }
        if completed {
            if entry.actions_completed < u32::MAX {
                entry.actions_completed = entry.actions_completed + 1;
            }
        } else {
            if entry.actions_failed < u32::MAX {
                entry.actions_failed = entry.actions_failed + 1;
            }
        }
        if let Some(note) = notes {
            let mut line = String::from_str("[");
            let clock = crate::clock::time_of_day_text(now);
            line.append(clock.as_str());
            line.append("] ");
            line.append(note.as_str());
            proof {
                reveal_strlit("[");
                reveal_strlit("] ");
                assert(line@ =~= stamped(note@, now));
            }
            let ghost prev = entry.notes@;
            entry.notes.push(line);
            assert(views(entry.notes@) =~= views(prev).push(stamped(note@, now)));
            if entry.notes.len() > 50 {
                let ghost full = entry.notes@;
                entry.notes.remove(0);
                assert(views(entry.notes@) =~= views(full).drop_first());
            }
        }
        let total: u64 = if entry.actions_proposed == 0 {
            1
        } else {
            entry.actions_proposed as u64
        };
        let share: u64 = (entry.actions_completed as u64) * 100 / total;
        entry.estimated_progress = if share > 255 {
            255
        } else {
            share as u8
        };
        proof {
            assert(entry@ == progress_after(
                lookup(before.goal_progress, goal_id@),
                goal_id@,
                completed,
                opt_view(notes),
                now,
            ));
            lemma_put(before.goal_progress, goal_id@, entry@);
        }
        let mut table: KeyedStore<GoalProgress> = KeyedStore::new();
        std::mem::swap(&mut self.goal_progress, &mut table);
        table.insert(String::from_str(goal_id), entry);
        std::mem::swap(&mut self.goal_progress, &mut table);
    }

    /// Records that one more action for the goal `goal_id` ended now.
    pub fn update_goal_progress(&mut self, goal_id: &str, completed: bool, notes: Option<String>)
        ensures
            exists|now: i64|
                final(self)@ == #[trigger] progress_spec(
                    old(self)@,
                    goal_id@,
                    completed,
                    opt_view(notes),
                    now,
                ),
            final(self)@.wf(),
    {
        let now = now_millis();
        self.update_goal_progress_at(goal_id, completed, notes, now);
    }

    /// What is known of the work for the goal `goal_id`.
    pub fn get_goal_progress(&self, goal_id: &str) -> (r: Option<GoalProgress>)
        ensures
            match r {
                Some(p) => lookup(self@.goal_progress, goal_id@) == Some(p@),
                None => lookup(self@.goal_progress, goal_id@) is None,
            },
    {
        match self.goal_progress.get(goal_id) {
            Some(p) => Some(p.clone()),
            None => None,
        }
    }

    /// The actions that wait to be executed, in the order of the ledger.
    pub fn get_pending_actions(&self) -> (r: Vec<TrackedAction>)
        ensures
            elem_views(r@) == values(self@.actions).filter(is_proposed()),
    {
        let ghost vals = values(self@.actions);
        let n = self.actions.len();
        let mut out: Vec<TrackedAction> = Vec::new();
        let mut i: usize = 0;
        proof {
            lemma_filter_none(vals, is_proposed());
            assert(elem_views(out@) =~= Seq::empty());
        }
        while i < n
            invariant
                i <= n,
                n == vals.len(),
                vals == values(self@.actions),
                elem_views(out@) == vals.take(i as int).filter(is_proposed()),
            decreases n - i,
        {
            proof {
                lemma_filter_step(vals, is_proposed(), i as int);
            }
            let a = self.actions.value_at(i);
            let ghost prev = out@;
            match a.status {
                ActionStatus::Proposed => {
                    out.push(a.clone());
                    assert(elem_views(out@) =~= elem_views(prev).push(vals[i as int]));
                },
                _ => {},
            }
            i += 1;
        }
        proof {
            lemma_filter_none(vals, is_proposed());
        }
        out
    }

    /// The counts of the ledger.
    pub fn get_stats(&self) -> (r: TrackerStats)
        ensures
            r == stats_spec(self@),
    {
        let ghost vals = values(self@.actions);
        let ghost hist = self@.history;
        let n = self.actions.len();
        let mut pending: usize = 0;
        let mut executing: usize = 0;
        let mut i: usize = 0;
        proof {
            lemma_filter_none(vals, is_proposed());
            lemma_filter_none(vals, is_executing());
        }
        while i < n
            invariant
                i <= n,
                n == vals.len(),
                vals == values(self@.actions),
                pending <= i,
                executing <= i,
                pending == vals.take(i as int).filter(is_proposed()).len(),
                executing == vals.take(i as int).filter(is_executing()).len(),
            decreases n - i,
        {
            proof {
                lemma_filter_step(vals, is_proposed(), i as int);
                lemma_filter_step(vals, is_executing(), i as int);
            }
            match self.actions.value_at(i).status {
                ActionStatus::Proposed => {
                    pending += 1;
                },
                ActionStatus::Executing => {
                    executing += 1;
                },
                _ => {},
            }
            i += 1;
        }
        let m = self.action_history.len();
        let mut completed: usize = 0;
        let mut failed: usize = 0;
        let mut k: usize = 0;
        proof {
            lemma_filter_none(hist, is_completed());
            lemma_filter_none(hist, is_failed());
        }
        while k < m
            invariant
                k <= m,
                m == hist.len(),
                m == self.action_history@.len(),
                hist == elem_views(self.action_history@),
                completed <= k,
                failed <= k,
                completed == hist.take(k as int).filter(is_completed()).len(),
                failed == hist.take(k as int).filter(is_failed()).len(),
            decreases m - k,
        {
            proof {
                lemma_filter_step(hist, is_completed(), k as int);
                lemma_filter_step(hist, is_failed(), k as int);
            }
            match self.action_history[k].status {
                ActionStatus::Completed => {
                    completed += 1;
                },
                ActionStatus::Failed => {
                    failed += 1;
                },
                _ => {},
            }
            k += 1;
        }
        TrackerStats { pending, executing, completed, failed, history_size: m }
    }

    /// The last `limit` entries of the history, newest first.
    pub fn get_recent_actions(&self, limit: usize) -> (r: Vec<TrackedAction>)
        ensures
            elem_views(r@) == first_n(self@.history.reverse(), limit),
    {
        let ghost rev = self@.history.reverse();
        let m = self.action_history.len();
        let mut out: Vec<TrackedAction> = Vec::new();
        let mut k: usize = 0;
        while k < m && k < limit
            invariant
                k <= m,
                k <= limit,
                m == self.action_history@.len(),
                rev == elem_views(self.action_history@).reverse(),
                out@.len() == k,
                forall|j: int| 0 <= j < k ==> (#[trigger] out@[j])@ == rev[j],
            decreases m - k,
        {
            out.push(self.action_history[m - 1 - k].clone());
            k += 1;
        }
        assert(elem_views(out@) =~= first_n(rev, limit));
        out
    }

    /// The last `limit` failures in the history, newest first.
    pub fn get_recent_failures(&self, limit: usize) -> (r: Vec<TrackedAction>)
        ensures
            elem_views(r@) == first_n(self@.history.reverse().filter(is_failed()), limit),
    {
        let ghost rev = self@.history.reverse();
        let m = self.action_history.len();
        let mut out: Vec<TrackedAction> = Vec::new();
        let mut k: usize = 0;
        proof {
            lemma_filter_none(rev, is_failed());
            assert(elem_views(out@) =~= Seq::empty());
        }
        while k < m
            invariant
                k <= m,
                m == self.action_history@.len(),
                rev == elem_views(self.action_history@).reverse(),
                elem_views(out@) == first_n(rev.take(k as int).filter(is_failed()), limit),
            decreases m - k,
        {
            proof {
                lemma_filter_step(rev, is_failed(), k as int);
            }
            let a = &self.action_history[m - 1 - k];
            assert(a@ == rev[k as int]);
            let ghost prev = out@;
            let ghost seen = rev.take(k as int).filter(is_failed());
            match a.status {
                ActionStatus::Failed => {
                    if out.len() < limit {
                        out.push(a.clone());
                        assert(elem_views(out@) =~= elem_views(prev).push(a@));
                    } else {
                        assert(seen.push(a@).take(limit as int) =~= first_n(seen, limit));
                    }
                },
                _ => {},
            }
            k += 1;
        }
        proof {
            lemma_filter_none(rev, is_failed());
        }
        out
    }
}

/// The ledger after the failures `calls` of the action `id`, each given by
/// its message and its instant, in order.
pub open spec fn fail_all(t: TrackerView, id: Seq<char>, calls: Seq<(Option<Seq<char>>, i64)>)
    -> TrackerView
    decreases calls.len(),
{
    if calls.len() == 0 {
        t
    } else {
        failed_spec(fail_all(t, id, calls.drop_last()), id, calls.last().0, calls.last().1)
    }
}

/// An action after `n` failures that left it attempts.
pub open spec fn retried(a: TrackedActionView, n: nat) -> TrackedActionView {
    if n == 0 {
        a
    } else {
        TrackedActionView { retry_count: (a.retry_count + n) as u32, ..waiting(a) }
    }
}

proof fn lemma_failures_with_attempts_left(
    t: TrackerView,
    id: Seq<char>,
    calls: Seq<(Option<Seq<char>>, i64)>,
)
    requires
        t.wf(),
        has_key(t.actions, id),
        lookup(t.actions, id)->0.retry_count + calls.len() < t.max_retries,
    ensures
        fail_all(t, id, calls) == (TrackerView {
            actions: put(t.actions, id, retried(lookup(t.actions, id)->0, calls.len())),
            ..t
        }),
    decreases calls.len(),
{
    let a = lookup(t.actions, id)->0;
    lemma_put(t.actions, id, a);
    if calls.len() == 0 {
        let p = index_of(t.actions, id);
        assert(t.actions.update(p, (id, a)) =~= t.actions) by {
            assert(t.actions[p].0 == id);
        }
    } else {
        let before = calls.drop_last();
        lemma_failures_with_attempts_left(t, id, before);
        let mid = fail_all(t, id, before);
        let b = retried(a, before.len());
        lemma_put(t.actions, id, b);
        assert(lookup(mid.actions, id) == Some(b));
        lemma_put_put(
            t.actions,
            id,
            b,
            waiting(TrackedActionView { retry_count: (b.retry_count + 1) as u32, ..b }),
        );
    }
}

proof fn lemma_last_failure(t: TrackerView, id: Seq<char>, calls: Seq<(Option<Seq<char>>, i64)>)
    requires
        t.wf(),
        has_key(t.actions, id),
        lookup(t.actions, id)->0.retry_count + calls.len() == t.max_retries,
    ensures
        calls.len() >= 1,
        fail_all(t, id, calls) == (TrackerView {
            actions: del(t.actions, id),
            history: bounded_push(
                t.history,
                ended(
                    TrackedActionView {
                        retry_count: t.max_retries,
                        ..retried(lookup(t.actions, id)->0, (calls.len() - 1) as nat)
                    },
                    ActionStatus::Failed,
                    false,
                    calls.last().0,
                    calls.last().1,
                ),
                t.max_history,
            ),
            ..t
        }),
{
    let a = lookup(t.actions, id)->0;
    let p = index_of(t.actions, id);
    assert(t.actions[p].1.retry_count < t.max_retries);
    let before = calls.drop_last();
    lemma_failures_with_attempts_left(t, id, before);
    let b = retried(a, before.len());
    lemma_put(t.actions, id, b);
    lemma_del_put(t.actions, id, b);
}

/// After as many failures in a row as attempts were left to it, an action
/// is out of the ledger and at the end of the history as failed, with every
/// attempt counted and otherwise as the failures before the last left it;
/// and nothing in flight is similar to it any more, unless another action in
/// flight was.
pub proof fn lemma_retry_bound(
    t: TrackerView,
    id: Seq<char>,
    calls: Seq<(Option<Seq<char>>, i64)>,
)
    requires
        t.wf(),
        has_key(t.actions, id),
        lookup(t.actions, id)->0.retry_count + calls.len() == t.max_retries,
    ensures
        calls.len() >= 1,
        !has_key(fail_all(t, id, calls).actions, id),
        fail_all(t, id, calls).actions == del(t.actions, id),
        fail_all(t, id, calls).history == bounded_push(
            t.history,
            ended(
                TrackedActionView {
                    retry_count: t.max_retries,
                    ..retried(lookup(t.actions, id)->0, (calls.len() - 1) as nat)
                },
                ActionStatus::Failed,
                false,
                calls.last().0,
                calls.last().1,
            ),
            t.max_history,
        ),
        fail_all(t, id, calls).wf(),
        (forall|i: int|
            0 <= i < t.actions.len() && (#[trigger] t.actions[i]).0 != id ==> !similar(
                t.actions[i].1.action,
                lookup(t.actions, id)->0.action,
            )) ==> !fail_all(t, id, calls).has_similar(lookup(t.actions, id)->0.action),
{
    let a = lookup(t.actions, id)->0;
    let end = fail_all(t, id, calls);
    lemma_last_failure(t, id, calls);
    lemma_del(t.actions, id);
    lemma_del_entries(t.actions, id);
    assert(end.history.len() <= t.max_history);
    assert forall|i: int| 0 <= i < end.actions.len() implies (#[trigger] end.actions[i]).1.retry_count
        < end.max_retries by {
        let e = end.actions[i];
        assert(t.actions.contains(e));
        let j = choose|j: int| 0 <= j < t.actions.len() && t.actions[j] == e;
        assert(t.actions[j].1.retry_count < t.max_retries);
    }
    assert(end.wf());
    if forall|i: int|
        0 <= i < t.actions.len() && (#[trigger] t.actions[i]).0 != id ==> !similar(
            t.actions[i].1.action,
            a.action,
        ) {
        if end.has_similar(a.action) {
            let i = choose|i: int|
                0 <= i < end.actions.len() && similar(
                    (#[trigger] end.actions[i]).1.action,
                    a.action,
                );
            let e = end.actions[i];
            assert(t.actions.contains(e));
            let j = choose|j: int| 0 <= j < t.actions.len() && t.actions[j] == e;
            assert(t.actions[j].0 != id);
            assert(false);
        }
    }
}

proof fn lemma_sweep_keeps_wf(
    actions: Seq<(Seq<char>, TrackedActionView)>,
    history: Seq<TrackedActionView>,
    max: usize,
    now: i64,
    timeout: i64,
    bound: u32,
)
    requires
        distinct_keys(actions),
        history.len() <= max,
        forall|i: int| 0 <= i < actions.len() ==> (#[trigger] actions[i]).1.retry_count < bound,
    ensures
        sweep(actions, history, max, now, timeout).1.len() <= max,
        distinct_keys(sweep(actions, history, max, now, timeout).0),
        forall|i: int|
            0 <= i < sweep(actions, history, max, now, timeout).0.len() ==> actions.contains(
                #[trigger] sweep(actions, history, max, now, timeout).0[i],
            ),
    decreases actions.len(),
{
    if actions.len() > 0 {
        let rest = actions.drop_first();
        assert forall|i: int, j: int| 0 <= i < j < rest.len() implies rest[i].0 != rest[j].0 by {
            assert(actions[i + 1].0 != actions[j + 1].0);
        }
        assert forall|i: int| 0 <= i < rest.len() implies (#[trigger] rest[i]).1.retry_count
            < bound by {
            assert(rest[i] == actions[i + 1]);
        }
        let h = if is_stale(actions[0].1, now, timeout) {
            bounded_push(
                history,
                ended(actions[0].1, ActionStatus::Failed, false, Some("timeout"@), now),
                max,
            )
        } else {
            history
        };
        lemma_sweep_keeps_wf(rest, h, max, now, timeout, bound);
        let kept = sweep(rest, h, max, now, timeout).0;
        let out = sweep(actions, history, max, now, timeout).0;
        assert forall|i: int| 0 <= i < kept.len() implies actions.contains(
            #[trigger] kept[i],
        ) && kept[i].0 != actions[0].0 by {
            assert(rest.contains(kept[i]));
            let j = choose|j: int| 0 <= j < rest.len() && rest[j] == kept[i];
            assert(actions[j + 1] == kept[i]);
            assert(actions[0].0 != actions[j + 1].0);
        }
        if !is_stale(actions[0].1, now, timeout) {
            assert(out == seq![actions[0]] + kept);
            assert forall|i: int| 0 <= i < out.len() implies actions.contains(
                #[trigger] out[i],
            ) by {
                if i == 0 {
                    assert(actions[0] == out[0]);
                } else {
                    assert(out[i] == kept[i - 1]);
                }
            }
            assert forall|i: int, j: int| 0 <= i < j < out.len() implies out[i].0 != out[j].0 by {
                assert(out[j] == kept[j - 1]);
                if i > 0 {
                    assert(out[i] == kept[i - 1]);
                }
            }
        }
    }
}

/// Whatever is done to the ledger, it stays well formed: no identifier is
/// there twice, every action in flight has attempts left, and the history
/// stays within its bound, the oldest entries leaving first.
pub proof fn lemma_ledger_stays_well_formed(
    t: TrackerView,
    id: Seq<char>,
    action: BrainActionView,
    message: Option<Seq<char>>,
    completed: bool,
    now: i64,
)
    requires
        t.wf(),
    ensures
        track_spec(t, id, action, now).wf(),
        executing_spec(t, id, now).wf(),
        completed_spec(t, id, message, now).wf(),
        failed_spec(t, id, message, now).wf(),
        rejected_spec(t, id, message, now).wf(),
        released_spec(t, id).wf(),
        cleanup_spec(t, now).wf(),
        progress_spec(t, id, completed, message, now).wf(),
{
    lemma_put(t.actions, id, proposed(id, action, now));
    lemma_put_keeps_attempts(t.actions, id, proposed(id, action, now), t.max_retries);
    lemma_del(t.actions, id);
    lemma_del_entries(t.actions, id);
    assert forall|i: int| 0 <= i < del(t.actions, id).len() implies (#[trigger] del(
        t.actions,
        id,
    )[i]).1.retry_count < t.max_retries by {
        let e = del(t.actions, id)[i];
        assert(t.actions.contains(e));
        let j = choose|j: int| 0 <= j < t.actions.len() && t.actions[j] == e;
        assert(t.actions[j].1.retry_count < t.max_retries);
    }
    if let Some(a) = lookup(t.actions, id) {
        assert(t.actions[index_of(t.actions, id)].1.retry_count < t.max_retries);
        lemma_put(t.actions, id, running(a, now));
        lemma_put_keeps_attempts(t.actions, id, running(a, now), t.max_retries);
        lemma_put(t.actions, id, waiting(a));
        lemma_put_keeps_attempts(t.actions, id, waiting(a), t.max_retries);
        if a.retry_count + 1 < t.max_retries {
            let again = waiting(
                TrackedActionView { retry_count: (a.retry_count + 1) as u32, ..a },
            );
            lemma_put(t.actions, id, again);
            lemma_put_keeps_attempts(t.actions, id, again, t.max_retries);
        }
    }
    lemma_sweep_keeps_wf(
        t.actions,
        t.history,
        t.max_history,
        now,
        t.action_timeout,
        t.max_retries,
    );
    let swept = sweep(t.actions, t.history, t.max_history, now, t.action_timeout).0;
    assert forall|i: int| 0 <= i < swept.len() implies (#[trigger] swept[i]).1.retry_count
        < t.max_retries by {
        assert(t.actions.contains(swept[i]));
        let j = choose|j: int| 0 <= j < t.actions.len() && t.actions[j] == swept[i];
        assert(t.actions[j].1.retry_count < t.max_retries);
    }
    lemma_put(
        t.goal_progress,
        id,
        progress_after(lookup(t.goal_progress, id), id, completed, message, now),
    );
}

} // verus!
