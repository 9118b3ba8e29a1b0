//! Tagging a resource: every tag asked for must exist.

use vstd::prelude::*;
use crate::error::{error_detail, AppError};
use crate::fields::{contains_string, string_views};
use crate::text::{owned, push_str};

verus! {

/// Checks the tags of a tagging request against those the database found. All found: `Ok`;
/// otherwise `NotFound` for the first requested tag that is missing (`Tag tag_9 not found`).
pub fn check_tags_found(requested: &Vec<String>, found: &Vec<String>) -> (r: Result<(), AppError>)
    ensures
        r is Ok <==> forall|i: int| 0 <= i < requested@.len() ==> string_views(found@).contains(#[trigger] requested@[i]@),
        r matches Err(e) ==> exists|i: int|
            #![trigger requested@[i]]
            0 <= i < requested@.len()
            && !string_views(found@).contains(requested@[i]@)
            && (forall|j: int| 0 <= j < i ==> string_views(found@).contains(#[trigger] requested@[j]@))
            && e is NotFound
            && error_detail(e) == "Tag "@ + requested@[i]@ + " not found"@,
{
    let mut i: usize = 0;
    while i < requested.len()
        invariant
            i <= requested@.len(),
            forall|j: int| 0 <= j < i ==> string_views(found@).contains(#[trigger] requested@[j]@),
        decreases requested@.len() - i,
    {
        let id = requested[i].as_str();
        if !contains_string(found, id) {
            let mut m = owned("Tag ");
            push_str(&mut m, id);
            push_str(&mut m, " not found");
            let e = AppError::NotFound(m);
            assert(error_detail(e) == "Tag "@ + requested@[i as int]@ + " not found"@);
            return Err(e);
        }
        i = i + 1;
    }
    Ok(())
}

} // verus!
