//! Applying a page of pulled changes: each change is applied, deferred until its parent row
//! arrives, or stops the page; the pull cursor moves on only when no change failed.

use vstd::prelude::*;
use crate::error::{error_detail, error_prefix, AppError};
use crate::sync_types::PullCursor;
use crate::text::{owned, push_str};

verus! {

/// How applying one pulled change went.
#[derive(Debug, Clone)]
pub enum ApplyOutcome {
    /// The change was applied, or skipped as no newer than the local row.
    Applied,
    /// The row refers to a parent that has not arrived yet: the change waits for a later page.
    MissingParent,
    /// The change could not be applied.
    Failed(AppError),
}

/// The message of the error that stops a page at a change that failed.
pub open spec fn apply_failure_message(entity: Seq<char>, id: Seq<char>, e: AppError) -> Seq<char> {
    "failed to apply change "@ + entity + " "@ + id + ": "@ + error_prefix(e) + error_detail(e)
}

/// How many of the outcomes deferred their change.
pub open spec fn deferred_count(s: Seq<ApplyOutcome>) -> nat
    decreases s.len(),
{
    if s.len() == 0 {
        0
    } else {
        deferred_count(s.drop_last()) + if s.last() is MissingParent { 1nat } else { 0nat }
    }
}

/// Whether none of the outcomes is a failure.
pub open spec fn none_failed(s: Seq<ApplyOutcome>) -> bool {
    forall|i: int| 0 <= i < s.len() ==> !(#[trigger] s[i] is Failed)
}

/// A page of pulled changes being applied in order. It records each change's outcome and
/// stops taking outcomes at the first failure.
pub struct PullBatch {
    deferred: u64,
    failure: Option<AppError>,
    outcomes: Ghost<Seq<ApplyOutcome>>,
}

impl PullBatch {
    /// The outcomes recorded so far, in order.
    pub closed spec fn outcomes(&self) -> Seq<ApplyOutcome> {
        self.outcomes@
    }

    /// The error that stopped the page, if a change failed.
    pub closed spec fn failure(&self) -> Option<AppError> {
        self.failure
    }

    /// How many changes were deferred.
    pub closed spec fn deferred(&self) -> nat {
        self.deferred as nat
    }

    /// The page is consistent: it failed exactly when a failure was recorded, and it counts
    /// the deferred changes.
    pub open spec fn consistent(&self) -> bool {
        &&& (self.failure() is None <==> none_failed(self.outcomes()))
        &&& self.deferred() == deferred_count(self.outcomes())
    }

    /// A page with nothing applied yet.
    pub fn new() -> (r: Self)
        ensures
            r.outcomes() == Seq::<ApplyOutcome>::empty(),
            r.failure() is None,
            r.deferred() == 0,
            r.consistent(),
    {
        PullBatch { deferred: 0, failure: None, outcomes: Ghost(Seq::empty()) }
    }

    /// Whether a change of the page has failed (then no further change is applied).
    pub fn is_failed(&self) -> (r: bool)
        ensures
            r == self.failure() is Some,
    {
        self.failure.is_some()
    }

    /// Records how applying the change `entity`/`id` went. A failure stops the page with a
    /// `Sync` error naming the change and the cause.
    pub fn record(&mut self, entity: &str, id: &str, outcome: ApplyOutcome)
        requires
            old(self).failure() is None,
            old(self).consistent(),
            old(self).deferred() < u64::MAX,
        ensures
            final(self).outcomes() == old(self).outcomes().push(outcome),
            final(self).consistent(),
            match outcome {
                ApplyOutcome::Applied => final(self).failure() is None && final(self).deferred() == old(self).deferred(),
                ApplyOutcome::MissingParent => final(self).failure() is None && final(self).deferred() == old(self).deferred() + 1,
                ApplyOutcome::Failed(e) => final(self).deferred() == old(self).deferred()
                    && (final(self).failure() matches Some(f) && f is Sync
                    && error_detail(f) == apply_failure_message(entity@, id@, e)),
            },
    {
        let ghost before = self.outcomes@;
        proof {
            let after = before.push(outcome);
            assert(after.drop_last() =~= before);
            assert forall|i: int| 0 <= i < before.len() implies #[trigger] after[i] == before[i] by {}
        }
        match outcome {
            ApplyOutcome::Applied => {
                self.outcomes = Ghost(before.push(ApplyOutcome::Applied));
            },
            ApplyOutcome::MissingParent => {
                self.deferred = self.deferred + 1;
                self.outcomes = Ghost(before.push(ApplyOutcome::MissingParent));
            },
            ApplyOutcome::Failed(e) => {
                let mut m = owned("failed to apply change ");
                push_str(&mut m, entity);
                push_str(&mut m, " ");
                push_str(&mut m, id);
                push_str(&mut m, ": ");
                let cause = e.message();
                push_str(&mut m, cause.as_str());
                self.failure = Some(AppError::Sync(m));
                self.outcomes = Ghost(before.push(ApplyOutcome::Failed(e)));
                proof {
                    let after = self.outcomes@;
                    assert(after[after.len() - 1] is Failed);
                }
            },
        }
    }

    /// Ends the page: the number of deferred changes and the cursor to store (the page's next
    /// cursor), or the error that stopped the page, in which case no cursor is stored.
    pub fn finish(self, next_cursor: Option<PullCursor>) -> (r: Result<(u64, Option<PullCursor>), AppError>)
        requires
            self.consistent(),
        ensures
            r is Ok <==> none_failed(self.outcomes()),
            r matches Ok((d, c)) ==> d == deferred_count(self.outcomes()) && c == next_cursor,
            r matches Err(e) ==> self.failure() == Some(e),
    {
        match self.failure {
            Some(e) => Err(e),
            None => Ok((self.deferred, next_cursor)),
        }
    }
}

/// The pull cursor moves on only when every change of the page was applied or deferred: a
/// page in which a change failed stores no cursor.
pub proof fn law_cursor_moves_only_after_success(b: PullBatch, i: int)
    requires
        b.consistent(),
        0 <= i < b.outcomes().len(),
        b.outcomes()[i] is Failed,
    ensures
        b.failure() is Some,
{
}

} // verus!
