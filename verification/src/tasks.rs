//! Task lists: page sizes, the composite cursor of the inbox and overdue lists, and the order
//! of subtasks.

use vstd::prelude::*;
use vstd::utf8::encode_utf8;
use crate::cursor::{composite_key, cursor_key, cursor_of, decode_composite, encode_composite, keys_free_of_bar};
use crate::error::{error_detail, AppError};
use crate::fields::{split_spec, str_views, string_views};
use crate::text::owned;

verus! {

/// The number of tasks a page holds: the requested limit, 50 by default, at most 1000.
pub open spec fn task_page_limit(limit: Option<u32>) -> u32 {
    let l = match limit {
        Some(l) => l,
        None => 50u32,
    };
    if l < 1000 {
        l
    } else {
        1000u32
    }
}

/// The number of tasks a page holds.
pub fn page_limit(limit: Option<u32>) -> (r: u32)
    ensures
        r == task_page_limit(limit),
{
    let l: u32 = match limit {
        Some(l) => l,
        None => 50,
    };
    if l < 1000 {
        l
    } else {
        1000
    }
}

/// A list is returned whole, unpaged, when neither a limit nor a cursor is given.
pub fn is_unpaged(limit: Option<u32>, cursor: &Option<String>) -> (r: bool)
    ensures
        r == (limit is None && cursor is None),
{
    limit.is_none() && cursor.is_none()
}

/// The composite key of a due date and an id.
pub open spec fn due_id_key(due: Seq<char>, id: Seq<char>) -> Seq<char> {
    composite_key(seq![due, id])
}

/// Neither key holds a bar.
pub open spec fn due_id_free(due: Seq<char>, id: Seq<char>) -> bool {
    keys_free_of_bar(seq![due, id])
}

/// The position a task-list cursor stands for: the due date (empty for none) and the id of
/// the last task of the previous page. A cursor that does not hold exactly two keys is a
/// `BadRequest`.
pub fn parse_task_cursor(cursor: &str) -> (r: Result<(String, String), AppError>)
    ensures
        r is Ok <==> (cursor_key(cursor@) matches Some(k) && split_spec(k, seq!['|']).len() == 2),
        r matches Ok((due, id)) ==> (cursor_key(cursor@) matches Some(k) && split_spec(k, seq!['|']) == seq![due@, id@]),
        r matches Err(e) ==> e is BadRequest,
        forall|due: Seq<char>, id: Seq<char>|
            #![trigger cursor_of(due_id_key(due, id))]
            due_id_free(due, id) && cursor_of(due_id_key(due, id)) == cursor@
                ==> (r matches Ok((d, i)) && d@ == due && i@ == id),
{
    let keys = decode_composite(cursor)?;
    if keys.len() != 2 {
        return Err(AppError::BadRequest(owned("Invalid cursor format for tasks")));
    }
    let due = keys[0].clone();
    let id = keys[1].clone();
    proof {
        assert(string_views(keys@) =~= seq![due@, id@]);
        assert forall|d: Seq<char>, i: Seq<char>|
            #![trigger cursor_of(due_id_key(d, i))]
            due_id_free(d, i) && cursor_of(due_id_key(d, i)) == cursor@
                implies due@ == d && id@ == i by {
            assert(cursor_of(composite_key(seq![d, i])) == cursor@);
            assert(seq![d, i].len() >= 1);
            assert(string_views(keys@) == seq![d, i]);
            assert(string_views(keys@)[0] == d);
            assert(string_views(keys@)[1] == i);
        }
    }
    Ok((due, id))
}

/// The cursor of the next task page: the due date of the page's last task (empty when it has
/// none) and its id.
pub fn task_cursor(due_date: &str, id: &str) -> (r: String)
    requires
        encode_utf8(due_id_key(due_date@, id@)).len() <= usize::MAX / 2,
    ensures
        r@ == cursor_of(due_id_key(due_date@, id@)),
{
    let keys: [&str; 2] = [due_date, id];
    assert(str_views(keys@) =~= seq![due_date@, id@]);
    encode_composite(&keys)
}

/// A page is read with one row more than it holds; more pages follow when that row came.
pub fn cut_page<T>(rows: Vec<T>, limit: usize) -> (r: (Vec<T>, bool))
    ensures
        r.1 == (rows@.len() > limit),
        r.0@ == (if rows@.len() > limit { rows@.take(limit as int) } else { rows@ }),
{
    let mut rows = rows;
    if rows.len() > limit {
        rows.truncate(limit);
        (rows, true)
    } else {
        (rows, false)
    }
}

/// The position of a new subtask: after the last one, or first (0) when there is none
/// (`max_order` is -1 then).
pub fn next_order_index(max_order: i32) -> (r: i32)
    requires
        max_order < i32::MAX,
    ensures
        r == max_order + 1,
{
    max_order + 1
}

/// The positions a reorder gives: each subtask id with its index in the requested order, as
/// an `i32`.
pub fn reorder_plan(subtask_ids: &Vec<String>) -> (r: Vec<(String, i32)>)
    ensures
        r@.len() == subtask_ids@.len(),
        forall|k: int| 0 <= k < r@.len() ==> (#[trigger] r@[k]).0 == subtask_ids@[k] && r@[k].1 == k as i32,
{
    let mut r: Vec<(String, i32)> = Vec::new();
    let mut i: usize = 0;
    while i < subtask_ids.len()
        invariant
            i <= subtask_ids@.len(),
            r@.len() == i,
            forall|k: int| 0 <= k < i ==> (#[trigger] r@[k]).0 == subtask_ids@[k] && r@[k].1 == k as i32,
        decreases subtask_ids@.len() - i,
    {
        let position: i32 = #[verifier::truncate] (i as i32);
        r.push((subtask_ids[i].clone(), position));
        i = i + 1;
    }
    r
}

// ---------------------------------------------------------------- updates

/// The fields of a task that an update may change. Due dates are RFC 3339 text.
#[derive(Debug, Clone)]
pub struct TaskFields {
    pub title: String,
    pub description: Option<String>,
    pub due_date: Option<String>,
    pub is_completed: bool,
    pub goal_id: Option<String>,
    pub goal_instance_id: Option<String>,
}

/// An update of a task: each field to set, if any. Setting the goal also sets the goal
/// instance (cleared when none is given).
#[derive(Debug, Clone)]
pub struct TaskPatch {
    pub title: Option<String>,
    pub description: Option<Option<String>>,
    pub due_date: Option<Option<String>>,
    pub is_completed: Option<bool>,
    pub goal_id: Option<Option<String>>,
    pub goal_instance_id: Option<Option<String>>,
}

/// The task after an update: each field the update sets replaced, the others kept.
pub open spec fn patched(t: TaskFields, p: TaskPatch) -> TaskFields {
    TaskFields {
        title: match p.title { Some(v) => v, None => t.title },
        description: match p.description { Some(v) => v, None => t.description },
        due_date: match p.due_date { Some(v) => v, None => t.due_date },
        is_completed: match p.is_completed { Some(v) => v, None => t.is_completed },
        goal_id: match p.goal_id { Some(v) => v, None => t.goal_id },
        goal_instance_id: match p.goal_id {
            Some(_) => match p.goal_instance_id { Some(Some(g)) => Some(g), _ => None },
            None => t.goal_instance_id,
        },
    }
}

/// Applies an update to a task's fields.
pub fn apply_task_patch(current: TaskFields, patch: TaskPatch) -> (r: TaskFields)
    ensures
        r == patched(current, patch),
{
    let mut t = current;
    if let Some(v) = patch.title {
        t.title = v;
    }
    if let Some(v) = patch.description {
        t.description = v;
    }
    if let Some(v) = patch.due_date {
        t.due_date = v;
    }
    if let Some(v) = patch.is_completed {
        t.is_completed = v;
    }
    if let Some(g) = patch.goal_id {
        t.goal_id = g;
        t.goal_instance_id = match patch.goal_instance_id {
            Some(Some(i)) => Some(i),
            _ => None,
        };
    }
    t
}

/// An update that sets nothing leaves the task as it was.
pub proof fn law_empty_patch_changes_nothing(t: TaskFields)
    ensures
        patched(t, TaskPatch { title: None, description: None, due_date: None, is_completed: None, goal_id: None, goal_instance_id: None }) == t,
{
}

/// Applying the same update twice is the same as applying it once.
pub proof fn law_patch_idempotent(t: TaskFields, p: TaskPatch)
    ensures
        patched(patched(t, p), p) == patched(t, p),
{
}

/// Last write wins on the client's copy: an update made from a copy older than the stored
/// row is refused with a `BadRequest` naming the kind and the stored update time.
pub fn check_update_conflict(kind: &str, client_updated_at: Option<i64>, current_updated_at: i64, current_text: &str) -> (r: Result<(), AppError>)
    ensures
        r is Err <==> (client_updated_at matches Some(c) && c < current_updated_at),
        r matches Err(e) ==> e is BadRequest && error_detail(e) == "Conflict: "@ + kind@ + " was modified by another device. Current updated_at: "@ + current_text@,
{
    if let Some(c) = client_updated_at {
        if c < current_updated_at {
            let mut m = owned("Conflict: ");
            crate::text::push_str(&mut m, kind);
            crate::text::push_str(&mut m, " was modified by another device. Current updated_at: ");
            crate::text::push_str(&mut m, current_text);
            return Err(AppError::BadRequest(m));
        }
    }
    Ok(())
}

/// An update sets what it gives and keeps the rest: each field the update gives is replaced by
/// the given value, whatever the task held before (a completed task can be marked not done
/// again), and each field it leaves out is kept. Setting the goal sets the goal instance to the
/// one given with it, or clears it.
pub proof fn law_patch_sets_given_fields(t: TaskFields, p: TaskPatch)
    ensures
        p.title matches Some(v) ==> patched(t, p).title == v,
        p.title is None ==> patched(t, p).title == t.title,
        p.description matches Some(v) ==> patched(t, p).description == v,
        p.description is None ==> patched(t, p).description == t.description,
        p.due_date matches Some(v) ==> patched(t, p).due_date == v,
        p.due_date is None ==> patched(t, p).due_date == t.due_date,
        p.is_completed matches Some(v) ==> patched(t, p).is_completed == v,
        p.is_completed is None ==> patched(t, p).is_completed == t.is_completed,
        p.goal_id matches Some(v) ==> patched(t, p).goal_id == v,
        p.goal_id is None ==> patched(t, p).goal_id == t.goal_id && patched(t, p).goal_instance_id == t.goal_instance_id,
        p.goal_id is Some ==> patched(t, p).goal_instance_id == (match p.goal_instance_id {
            Some(Some(g)) => Some(g),
            _ => None::<String>,
        }),
{
}

/// A task page holds what was asked for, up to a thousand tasks, and fifty when nothing was
/// asked.
pub proof fn law_page_limit(limit: Option<u32>)
    ensures
        task_page_limit(limit) <= 1000,
        limit is None ==> task_page_limit(limit) == 50,
        limit matches Some(l) ==> (l <= 1000 ==> task_page_limit(limit) == l),
        limit matches Some(l) ==> (l > 1000 ==> task_page_limit(limit) == 1000),
{
}

} // verus!
