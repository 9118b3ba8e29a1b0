//! Goals: which fields an update changes, the updates a goal refuses, and how a goal's
//! current instance is found or made.

use vstd::prelude::*;
use crate::error::{error_detail, AppError};
use crate::text::owned;

verus! {

/// The fields of a goal that an update may change. The anchor is RFC 3339 text.
#[derive(Debug, Clone)]
pub struct GoalFields {
    pub name: String,
    pub description: Option<String>,
    pub is_non_recurring: bool,
    pub recurrence_type: Option<String>,
    pub recurrence_interval: Option<i32>,
    pub recurrence_anchor: Option<String>,
    pub recurrence_meta: Option<serde_json::Value>,
}

/// An update of a goal: each field to set, if any.
#[derive(Debug, Clone)]
pub struct GoalPatch {
    pub name: Option<String>,
    pub description: Option<Option<String>>,
    pub is_non_recurring: Option<bool>,
    pub recurrence_type: Option<Option<String>>,
    pub recurrence_interval: Option<Option<i32>>,
    pub recurrence_anchor: Option<Option<String>>,
    pub recurrence_meta: Option<Option<serde_json::Value>>,
}

/// The message when an update would turn a goal from recurring to one-off or back.
pub open spec fn type_change_message() -> Seq<char> {
    "cannot change isNonRecurring field - goal type cannot be converted between recurring and non-recurring"@
}

/// The message when an update sets recurrence fields on a one-off goal.
pub open spec fn one_off_recurrence_message() -> Seq<char> {
    "cannot set recurrence fields for non-recurring goals"@
}

/// A goal after an update, or the message of the `BadRequest` that refuses it. The goal's
/// type cannot change; a one-off goal takes no recurrence fields; otherwise each field the
/// update sets is replaced and the others kept.
pub open spec fn goal_patched(g: GoalFields, p: GoalPatch) -> Result<GoalFields, Seq<char>> {
    if p.is_non_recurring matches Some(b) && b != g.is_non_recurring {
        Err(type_change_message())
    } else if g.is_non_recurring && (p.recurrence_type is Some || p.recurrence_interval is Some || p.recurrence_anchor is Some) {
        Err(one_off_recurrence_message())
    } else {
        Ok(GoalFields {
            name: match p.name { Some(v) => v, None => g.name },
            description: match p.description { Some(v) => v, None => g.description },
            is_non_recurring: g.is_non_recurring,
            recurrence_type: match p.recurrence_type { Some(v) => v, None => g.recurrence_type },
            recurrence_interval: match p.recurrence_interval { Some(v) => v, None => g.recurrence_interval },
            recurrence_anchor: match p.recurrence_anchor { Some(v) => v, None => g.recurrence_anchor },
            recurrence_meta: match p.recurrence_meta { Some(v) => v, None => g.recurrence_meta },
        })
    }
}

/// Applies an update to a goal's fields.
pub fn apply_goal_patch(current: GoalFields, patch: GoalPatch) -> (r: Result<GoalFields, AppError>)
    ensures
        match goal_patched(current, patch) {
            Ok(g) => r == Ok::<GoalFields, AppError>(g),
            Err(m) => r matches Err(e) && e is BadRequest && error_detail(e) == m,
        },
{
    if let Some(b) = patch.is_non_recurring {
        if b != current.is_non_recurring {
            return Err(AppError::BadRequest(owned(
                "cannot change isNonRecurring field - goal type cannot be converted between recurring and non-recurring",
            )));
        }
    }
    if current.is_non_recurring && (patch.recurrence_type.is_some() || patch.recurrence_interval.is_some()
        || patch.recurrence_anchor.is_some()) {
        return Err(AppError::BadRequest(owned("cannot set recurrence fields for non-recurring goals")));
    }
    let mut g = current;
    if let Some(v) = patch.name {
        g.name = v;
    }
    if let Some(v) = patch.description {
        g.description = v;
    }
    if let Some(v) = patch.recurrence_type {
        g.recurrence_type = v;
    }
    if let Some(v) = patch.recurrence_interval {
        g.recurrence_interval = v;
    }
    if let Some(v) = patch.recurrence_anchor {
        g.recurrence_anchor = v;
    }
    if let Some(v) = patch.recurrence_meta {
        g.recurrence_meta = v;
    }
    Ok(g)
}

/// An update never changes a goal's type, and a one-off goal never gains a recurrence through
/// one.
pub proof fn law_goal_type_is_fixed(g: GoalFields, p: GoalPatch)
    ensures
        goal_patched(g, p) matches Ok(h) ==> h.is_non_recurring == g.is_non_recurring,
        g.is_non_recurring ==> (goal_patched(g, p) matches Ok(h) ==> h.recurrence_type == g.recurrence_type
            && h.recurrence_interval == g.recurrence_interval && h.recurrence_anchor == g.recurrence_anchor),
{
}

/// How the current instance of a goal is had.
#[derive(Debug, Clone, Copy, PartialEq, Eq, Structural)]
pub enum InstancePlan {
    /// The goal's latest instance is the current one.
    ReuseLatest,
    /// A new instance opens now and has no end: the only instance of a one-off goal.
    OpenEnded,
    /// A new instance covers the recurrence period that holds now.
    NewPeriod,
}

/// The current instance of a goal, from whether the goal is one-off, whether it has an
/// instance yet, and whether the period of its latest instance has run out. A one-off goal
/// keeps the one instance it has; a recurring goal opens a new period once the last one has
/// run out. `None`: a recurring goal with no instance whose period has not run out.
pub open spec fn instance_plan(is_non_recurring: bool, has_latest: bool, period_elapsed: bool) -> Option<InstancePlan> {
    if is_non_recurring {
        if has_latest { Some(InstancePlan::ReuseLatest) } else { Some(InstancePlan::OpenEnded) }
    } else if period_elapsed {
        Some(InstancePlan::NewPeriod)
    } else if has_latest {
        Some(InstancePlan::ReuseLatest)
    } else {
        None
    }
}

/// Decides how to get the current instance of a goal. The caller has read the goal and its
/// latest instance, and knows whether a new recurrence period is due.
pub fn plan_current_instance(is_non_recurring: bool, has_latest: bool, period_elapsed: bool) -> (r: Result<InstancePlan, AppError>)
    ensures
        match instance_plan(is_non_recurring, has_latest, period_elapsed) {
            Some(p) => r == Ok::<InstancePlan, AppError>(p),
            None => r matches Err(e) && e is Internal && error_detail(e) == "No instance found and failed to create one"@,
        },
{
    if is_non_recurring {
        if has_latest { Ok(InstancePlan::ReuseLatest) } else { Ok(InstancePlan::OpenEnded) }
    } else if period_elapsed {
        Ok(InstancePlan::NewPeriod)
    } else if has_latest {
        Ok(InstancePlan::ReuseLatest)
    } else {
        let msg = "No instance found and failed to create one";
        proof {
            reveal_strlit("No instance found and failed to create one");
        }
        Err(AppError::Internal(owned(msg)))
    }
}

/// The first instance of a new goal: open-ended for a one-off goal, the current recurrence
/// period otherwise.
pub fn first_instance_plan(is_non_recurring: bool) -> (r: InstancePlan)
    ensures
        r == (if is_non_recurring { InstancePlan::OpenEnded } else { InstancePlan::NewPeriod }),
{
    if is_non_recurring { InstancePlan::OpenEnded } else { InstancePlan::NewPeriod }
}

/// Once a one-off goal has an instance, that instance stays its current one; a goal that has
/// an instance always gets a current one.
pub proof fn law_one_off_goal_keeps_its_instance(period_elapsed: bool)
    ensures
        instance_plan(true, true, period_elapsed) == Some(InstancePlan::ReuseLatest),
        instance_plan(true, false, period_elapsed) == Some(InstancePlan::OpenEnded),
        forall|one_off: bool| #[trigger] instance_plan(one_off, true, period_elapsed) is Some,
{
}

/// An accepted update sets what it gives and keeps the rest: each field the update gives is
/// replaced by the given value, and each field it leaves out is kept.
pub proof fn law_goal_patch_sets_given_fields(g: GoalFields, p: GoalPatch)
    ensures
        goal_patched(g, p) matches Ok(h) ==> {
            &&& (p.name matches Some(v) ==> h.name == v)
            &&& (p.name is None ==> h.name == g.name)
            &&& (p.description matches Some(v) ==> h.description == v)
            &&& (p.description is None ==> h.description == g.description)
            &&& (p.recurrence_type matches Some(v) ==> h.recurrence_type == v)
            &&& (p.recurrence_type is None ==> h.recurrence_type == g.recurrence_type)
            &&& (p.recurrence_interval matches Some(v) ==> h.recurrence_interval == v)
            &&& (p.recurrence_interval is None ==> h.recurrence_interval == g.recurrence_interval)
            &&& (p.recurrence_anchor matches Some(v) ==> h.recurrence_anchor == v)
            &&& (p.recurrence_anchor is None ==> h.recurrence_anchor == g.recurrence_anchor)
            &&& (p.recurrence_meta matches Some(v) ==> h.recurrence_meta == v)
            &&& (p.recurrence_meta is None ==> h.recurrence_meta == g.recurrence_meta)
        },
        (p.is_non_recurring is None || p.is_non_recurring == Some(g.is_non_recurring))
            && (!g.is_non_recurring || (p.recurrence_type is None && p.recurrence_interval is None && p.recurrence_anchor is None))
            ==> goal_patched(g, p) is Ok,
{
}

} // verus!
