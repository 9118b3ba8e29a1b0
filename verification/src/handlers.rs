//! Requests and responses of the HTTP API, and the checks its handlers make before they touch
//! the database.

use vstd::prelude::*;
use std::collections::HashMap;
use crate::error::{error_detail, AppError};
use crate::text::{owned, push_str};

verus! {

/// A request to save a bookmark.
#[derive(Debug, Clone)]
pub struct CreateBookmarkRequest {
    pub url: String,
    pub tag_ids: Option<Vec<String>>,
}

/// A request to create a subtask.
#[derive(Debug, Clone)]
pub struct CreateSubTaskRequest {
    pub title: String,
}

/// A request to change a subtask.
#[derive(Debug, Clone)]
pub struct UpdateSubTaskRequest {
    pub title: Option<String>,
    pub is_completed: Option<bool>,
}

/// A request to put a task's subtasks in a new order.
#[derive(Debug, Clone)]
pub struct ReorderSubTasksRequest {
    pub sub_task_ids: Vec<String>,
}

/// A request to attach a goal to a task.
#[derive(Debug, Clone)]
pub struct AddGoalToTaskRequest {
    pub goal_id: String,
}

/// The query of a setting lookup.
#[derive(Debug, Clone)]
pub struct GetSettingQuery {
    pub key: String,
}

/// A setting and its value, if it has one.
#[derive(Debug, Clone)]
pub struct SettingResponse {
    pub key: String,
    pub value: Option<String>,
}

/// A request to store a setting.
#[derive(Debug, Clone)]
pub struct SetSettingRequest {
    pub key: String,
    pub value: String,
}

/// All settings, by key.
pub struct AllSettingsResponse(pub HashMap<String, String>);

impl From<HashMap<String, String>> for AllSettingsResponse {
    fn from(map: HashMap<String, String>) -> (r: Self)
        ensures
            r.0@ == map@,
    {
        AllSettingsResponse(map)
    }
}

impl vstd::std_specs::convert::FromSpecImpl<HashMap<String, String>> for AllSettingsResponse {
    open spec fn obeys_from_spec() -> bool {
        true
    }

    open spec fn from_spec(map: HashMap<String, String>) -> Self {
        AllSettingsResponse(map)
    }
}

impl From<AllSettingsResponse> for HashMap<String, String> {
    fn from(response: AllSettingsResponse) -> (r: Self)
        ensures
            r@ == response.0@,
    {
        response.0
    }
}

impl vstd::std_specs::convert::FromSpecImpl<AllSettingsResponse> for HashMap<String, String> {
    open spec fn obeys_from_spec() -> bool {
        true
    }

    open spec fn from_spec(response: AllSettingsResponse) -> Self {
        response.0
    }
}

/// A setting request needs a key: `BadRequest("Setting key is required")` when it is empty.
pub fn require_setting_key(key: &str) -> (r: Result<(), AppError>)
    ensures
        r is Ok <==> key@.len() > 0,
        r matches Err(e) ==> e is BadRequest && error_detail(e) == "Setting key is required"@,
{
    if key.as_bytes().len() == 0 {
        proof {
            assert(key@.len() == 0) by {
                vstd::utf8::encode_utf8_decode_utf8(key@);
            }
        }
        return Err(AppError::BadRequest(owned("Setting key is required")));
    }
    proof {
        if key@.len() == 0 {
            assert(key@ =~= Seq::<char>::empty());
        }
    }
    Ok(())
}

/// A task or subtask needs a title: `BadRequest("Title is required")` when it is empty.
pub fn require_title(title: &str) -> (r: Result<(), AppError>)
    ensures
        r is Ok <==> title@.len() > 0,
        r matches Err(e) ==> e is BadRequest && error_detail(e) == "Title is required"@,
{
    if title.as_bytes().len() == 0 {
        proof {
            vstd::utf8::encode_utf8_decode_utf8(title@);
        }
        return Err(AppError::BadRequest(owned("Title is required")));
    }
    proof {
        if title@.len() == 0 {
            assert(title@ =~= Seq::<char>::empty());
        }
    }
    Ok(())
}

/// The outcome of checking a new goal: whether it is non-recurring, or the message of the
/// `BadRequest` it gets. A goal needs a name; a recurring goal (the default) needs a
/// non-empty recurrence type, an interval and an anchor; a non-recurring goal has none of
/// them.
pub open spec fn goal_check(name: Seq<char>, is_non_recurring: Option<bool>, recurrence_type: Option<Seq<char>>, has_interval: bool, has_anchor: bool) -> Result<bool, Seq<char>> {
    let non_recurring = is_non_recurring == Some(true);
    if name.len() == 0 {
        Err("Name is required"@)
    } else if !non_recurring && (recurrence_type is None || recurrence_type == Some(Seq::<char>::empty())) {
        Err("recurrenceType is required for recurring goals"@)
    } else if !non_recurring && !has_interval {
        Err("recurrenceInterval is required for recurring goals"@)
    } else if !non_recurring && !has_anchor {
        Err("recurrenceAnchor is required for recurring goals"@)
    } else if non_recurring && (recurrence_type is Some || has_interval || has_anchor) {
        Err("recurrence fields must be null for non-recurring goals"@)
    } else {
        Ok(non_recurring)
    }
}

fn is_empty_str(s: &str) -> (r: bool)
    ensures
        r == (s@.len() == 0),
        r == (s@ == Seq::<char>::empty()),
{
    proof {
        vstd::utf8::encode_utf8_decode_utf8(s@);
        if s@.len() == 0 {
            assert(s@ =~= Seq::<char>::empty());
        }
    }
    s.as_bytes().len() == 0
}

/// Checks a new goal's name and recurrence fields; returns whether the goal is non-recurring.
pub fn validate_new_goal(name: &str, is_non_recurring: Option<bool>, recurrence_type: Option<&str>, has_interval: bool, has_anchor: bool) -> (r: Result<bool, AppError>)
    ensures
        match goal_check(name@, is_non_recurring, match recurrence_type { Some(t) => Some(t@), None => None }, has_interval, has_anchor) {
            Ok(b) => r == Ok::<bool, AppError>(b),
            Err(m) => r matches Err(e) && e is BadRequest && error_detail(e) == m,
        },
{
    proof {
        assert(Seq::<char>::empty().len() == 0);
    }
    if is_empty_str(name) {
        return Err(AppError::BadRequest(owned("Name is required")));
    }
    let non_recurring = match is_non_recurring {
        Some(b) => b,
        None => false,
    };
    if !non_recurring {
        let type_missing = match recurrence_type {
            None => true,
            Some(t) => is_empty_str(t),
        };
        if type_missing {
            return Err(AppError::BadRequest(owned("recurrenceType is required for recurring goals")));
        }
        if !has_interval {
            return Err(AppError::BadRequest(owned("recurrenceInterval is required for recurring goals")));
        }
        if !has_anchor {
            return Err(AppError::BadRequest(owned("recurrenceAnchor is required for recurring goals")));
        }
    } else if recurrence_type.is_some() || has_interval || has_anchor {
        return Err(AppError::BadRequest(owned("recurrence fields must be null for non-recurring goals")));
    }
    Ok(non_recurring)
}

/// The activity an update records.
#[derive(Debug, Clone, Copy, PartialEq, Eq, Structural)]
pub enum UpdateActivity {
    /// The item was just completed.
    Complete,
    /// Any other change.
    Update,
}

/// The activity recorded for an update: a completion when the item was not completed and the
/// update completes it, an ordinary update otherwise.
pub fn update_activity(was_completed: bool, is_completed: Option<bool>) -> (r: UpdateActivity)
    ensures
        r == (if !was_completed && is_completed == Some(true) { UpdateActivity::Complete } else { UpdateActivity::Update }),
{
    match is_completed {
        Some(true) => if !was_completed {
            UpdateActivity::Complete
        } else {
            UpdateActivity::Update
        },
        _ => UpdateActivity::Update,
    }
}

/// The `NotFound` error for an item of a kind (`Task task_1 not found`).
pub fn not_found(kind: &str, id: &str) -> (r: AppError)
    ensures
        r is NotFound,
        error_detail(r) == kind@ + " "@ + id@ + " not found"@,
{
    let mut m = owned(kind);
    push_str(&mut m, " ");
    push_str(&mut m, id);
    push_str(&mut m, " not found");
    AppError::NotFound(m)
}

} // verus!
