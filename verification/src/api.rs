//! What the HTTP surface creates: tasks and goals as operators submit them.

use vstd::prelude::*;
use crate::clock::now_millis;
use crate::ident::fresh_id;
use crate::text::views;
use crate::types::{
    Goal, GoalView, Task, TaskPayload, TaskPayloadView, TaskStatus, TaskStatusView, TaskView,
};

verus! {

/// The priority of what is submitted without one.
pub const DEFAULT_PRIORITY: u8 = 5;

/// The priority given, or the default.
pub open spec fn priority_or_default(priority: Option<u8>) -> u8 {
    match priority {
        Some(p) => p,
        None => DEFAULT_PRIORITY,
    }
}

/// A task as it is when it is submitted: pending, without a result,
/// created and updated at `now`.
pub open spec fn submitted(
    id: Seq<char>,
    now: i64,
    target_node: Seq<char>,
    payload: TaskPayloadView,
    priority: Option<u8>,
) -> TaskView {
    TaskView {
        id,
        target_node,
        payload,
        status: TaskStatusView::Pending,
        priority: priority_or_default(priority),
        created_at: now,
        updated_at: now,
        result: None,
    }
}

/// The task that a submission creates under `id` at `now`.
pub fn submitted_task_with(
    id: String,
    now: i64,
    target_node: String,
    payload: TaskPayload,
    priority: Option<u8>,
) -> (r: Task)
    ensures
        r@ == submitted(id@, now, target_node@, payload@, priority),
{
    Task {
        id,
        target_node,
        payload,
        status: TaskStatus::Pending,
        priority: match priority {
            Some(p) => p,
            None => DEFAULT_PRIORITY,
        },
        created_at: now,
        updated_at: now,
        result: None,
    }
}

/// The task that a submission creates, under a fresh identifier and now.
pub fn submitted_task(target_node: String, payload: TaskPayload, priority: Option<u8>) -> (r: Task)
    ensures
        r@.id.len() == 36,
        r@ == submitted(r@.id, r@.created_at, target_node@, payload@, priority),
{
    let id = fresh_id();
    let now = now_millis();
    submitted_task_with(id, now, target_node, payload, priority)
}

/// A goal as it is when it is added: active, created at `now`, without
/// constraints unless some are given.
pub open spec fn added(
    id: Seq<char>,
    now: i64,
    description: Seq<char>,
    constraints: Option<Seq<Seq<char>>>,
    priority: Option<u8>,
) -> GoalView {
    GoalView {
        id,
        description,
        constraints: match constraints {
            Some(c) => c,
            None => Seq::empty(),
        },
        priority: priority_or_default(priority),
        active: true,
        created_at: now,
    }
}

/// The views of optional constraints.
pub open spec fn constraint_views(constraints: Option<Vec<String>>) -> Option<Seq<Seq<char>>> {
    match constraints {
        Some(c) => Some(views(c@)),
        None => None,
    }
}

/// The goal that a request adds under `id` at `now`.
pub fn added_goal_with(
    id: String,
    now: i64,
    description: String,
    constraints: Option<Vec<String>>,
    priority: Option<u8>,
) -> (r: Goal)
    ensures
        r@ == added(id@, now, description@, constraint_views(constraints), priority),
{
    let constraints = match constraints {
        Some(c) => c,
        None => {
            let none: Vec<String> = Vec::new();
            assert(views(none@) =~= Seq::<Seq<char>>::empty());
            none
        },
    };
    Goal {
        id,
        description,
        constraints,
        priority: match priority {
            Some(p) => p,
            None => DEFAULT_PRIORITY,
        },
        active: true,
        created_at: now,
    }
}

/// The goal that a request adds, under a fresh identifier and now.
pub fn added_goal(description: String, constraints: Option<Vec<String>>, priority: Option<u8>)
    -> (r: Goal)
    ensures
        r@.id.len() == 36,
        r@ == added(r@.id, r@.created_at, description@, constraint_views(constraints), priority),
{
    let id = fresh_id();
    let now = now_millis();
    added_goal_with(id, now, description, constraints, priority)
}

} // verus!
