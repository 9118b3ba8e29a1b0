//! Links between resources: whether a new link is inserted, an old one revived, or the
//! request refused because the link is already there.

use vstd::prelude::*;
use crate::error::{error_detail, AppError};
use crate::text::{owned, push_str};

verus! {

/// What creating a link does to the links table.
#[derive(Debug, Clone, Copy, PartialEq, Eq, Structural)]
pub enum LinkPlan {
    /// No link joins the two resources yet: a new row is inserted.
    Insert,
    /// A deleted link joins them: it is brought back with the new text.
    Revive,
}

/// The message of the `BadRequest` for a link that already joins the two resources.
pub open spec fn duplicate_link_message(source_type: Seq<char>, source_id: Seq<char>, target_type: Seq<char>, target_id: Seq<char>) -> Seq<char> {
    "Link already exists from "@ + source_type + ":"@ + source_id + " to "@ + target_type + ":"@ + target_id
}

/// Decides what creating a link from `source_type:source_id` to `target_type:target_id`
/// does. `existing` is whether a row for that pair is there and, if so, whether it is
/// deleted. A live link is refused; a deleted one is revived; otherwise one is inserted.
pub fn plan_link(existing: Option<bool>, source_type: &str, source_id: &str, target_type: &str, target_id: &str) -> (r: Result<LinkPlan, AppError>)
    ensures
        existing is None ==> r == Ok::<LinkPlan, AppError>(LinkPlan::Insert),
        existing == Some(true) ==> r == Ok::<LinkPlan, AppError>(LinkPlan::Revive),
        existing == Some(false) ==> (r matches Err(e) && e is BadRequest
            && error_detail(e) == duplicate_link_message(source_type@, source_id@, target_type@, target_id@)),
{
    match existing {
        None => Ok(LinkPlan::Insert),
        Some(true) => Ok(LinkPlan::Revive),
        Some(false) => {
            let mut m = owned("Link already exists from ");
            push_str(&mut m, source_type);
            push_str(&mut m, ":");
            push_str(&mut m, source_id);
            push_str(&mut m, " to ");
            push_str(&mut m, target_type);
            push_str(&mut m, ":");
            push_str(&mut m, target_id);
            Err(AppError::BadRequest(m))
        },
    }
}

} // verus!
