//! Dependency-aware ordering of sync changes.
//!
//! Changes travel as an append-only stream, which does not guarantee that a row appears
//! before the rows whose foreign keys point at it. Sorting by tier fixes that, and keeps the
//! stream order within a tier.

use vstd::prelude::*;
use crate::sync_types::{ChangeEnvelope, ChangeOp};
use crate::text::str_eq;

verus! {

broadcast use vstd::seq_lib::group_seq_properties;

/// The dependency tier of an upserted entity: parents come in lower tiers.
pub open spec fn entity_rank(entity: Seq<char>) -> u8 {
    if entity == "entries"@ || entity == "tags"@ || entity == "goals"@ || entity == "canvases"@
        || entity == "bookmarks"@ || entity == "media_items"@ || entity == "activities"@
        || entity == "resource_links"@ || entity == "weekly_ai_summaries"@ {
        0
    } else if entity == "goal_instances"@ || entity == "audio_transcriptions"@ || entity
        == "journal_entry_insights"@ {
        10
    } else if entity == "tasks"@ {
        20
    } else if entity == "entry_tags"@ || entity == "goal_tags"@ || entity == "goal_instance_tags"@
        || entity == "task_tags"@ || entity == "bookmark_tags"@ || entity == "subtasks"@ || entity
        == "journal_entry_suggestions"@ {
        30
    } else {
        25
    }
}

/// The tier of a change. Deletes are soft updates that need no parent; they come after all
/// upserts so that an older upsert cannot revive a row after its later delete.
pub open spec fn change_rank(c: ChangeEnvelope) -> u8 {
    if c.op == ChangeOp::Delete {
        100
    } else {
        entity_rank(c.entity@)
    }
}

/// The changes of tier `r`.
pub open spec fn in_tier(r: u8) -> spec_fn(ChangeEnvelope) -> bool {
    |c: ChangeEnvelope| change_rank(c) == r
}

/// The changes grouped by tier in increasing order, keeping their order within a tier.
pub open spec fn dependency_order(s: Seq<ChangeEnvelope>) -> Seq<ChangeEnvelope> {
    s.filter(in_tier(0)) + s.filter(in_tier(10)) + s.filter(in_tier(20)) + s.filter(in_tier(25))
        + s.filter(in_tier(30)) + s.filter(in_tier(100))
}

/// The tier of an upserted entity.
pub fn entity_rank_of(entity: &str) -> (r: u8)
    ensures
        r == entity_rank(entity@),
{
    if str_eq(entity, "entries") || str_eq(entity, "tags") || str_eq(entity, "goals") || str_eq(
        entity,
        "canvases",
    ) || str_eq(entity, "bookmarks") || str_eq(entity, "media_items") || str_eq(
        entity,
        "activities",
    ) || str_eq(entity, "resource_links") || str_eq(entity, "weekly_ai_summaries") {
        0
    } else if str_eq(entity, "goal_instances") || str_eq(entity, "audio_transcriptions") || str_eq(
        entity,
        "journal_entry_insights",
    ) {
        10
    } else if str_eq(entity, "tasks") {
        20
    } else if str_eq(entity, "entry_tags") || str_eq(entity, "goal_tags") || str_eq(
        entity,
        "goal_instance_tags",
    ) || str_eq(entity, "task_tags") || str_eq(entity, "bookmark_tags") || str_eq(
        entity,
        "subtasks",
    ) || str_eq(entity, "journal_entry_suggestions") {
        30
    } else {
        25
    }
}

/// The tier of a change.
pub fn dependency_rank(change: &ChangeEnvelope) -> (r: u8)
    ensures
        r == change_rank(*change),
{
    match change.op {
        ChangeOp::Delete => 100,
        ChangeOp::Upsert => entity_rank_of(change.entity.as_str()),
    }
}

proof fn lemma_tier_values(c: ChangeEnvelope)
    ensures
        change_rank(c) == 0 || change_rank(c) == 10 || change_rank(c) == 20 || change_rank(c) == 25
            || change_rank(c) == 30 || change_rank(c) == 100,
{
}

/// Sorts changes so that referenced rows are applied before the rows that depend on them,
/// keeping the original order within each tier.
pub fn sort_for_dependencies(changes: &mut Vec<ChangeEnvelope>)
    ensures
        final(changes)@ == dependency_order(old(changes)@),
{
    let ghost orig = changes@;
    let mut rest: Vec<ChangeEnvelope> = Vec::new();
    std::mem::swap(changes, &mut rest);
    let mut t0: Vec<ChangeEnvelope> = Vec::new();
    let mut t10: Vec<ChangeEnvelope> = Vec::new();
    let mut t20: Vec<ChangeEnvelope> = Vec::new();
    let mut t25: Vec<ChangeEnvelope> = Vec::new();
    let mut t30: Vec<ChangeEnvelope> = Vec::new();
    let mut t100: Vec<ChangeEnvelope> = Vec::new();
    let ghost mut i: int = 0;
    proof {
        assert(orig.take(0) =~= Seq::<ChangeEnvelope>::empty());
        reveal(Seq::filter);
    }
    while rest.len() > 0
        invariant
            0 <= i <= orig.len(),
            rest@ == orig.skip(i),
            t0@ == orig.take(i).filter(in_tier(0)),
            t10@ == orig.take(i).filter(in_tier(10)),
            t20@ == orig.take(i).filter(in_tier(20)),
            t25@ == orig.take(i).filter(in_tier(25)),
            t30@ == orig.take(i).filter(in_tier(30)),
            t100@ == orig.take(i).filter(in_tier(100)),
        decreases rest.len(),
    {
        let c = rest.remove(0);
        proof {
            assert(c == orig[i]);
            assert(orig.take(i + 1) =~= orig.take(i).push(c));
            orig.take(i).lemma_filter_push(c, in_tier(0));
            orig.take(i).lemma_filter_push(c, in_tier(10));
            orig.take(i).lemma_filter_push(c, in_tier(20));
            orig.take(i).lemma_filter_push(c, in_tier(25));
            orig.take(i).lemma_filter_push(c, in_tier(30));
            orig.take(i).lemma_filter_push(c, in_tier(100));
            assert(orig.skip(i).remove(0) =~= orig.skip(i + 1));
            lemma_tier_values(c);
        }
        let r = dependency_rank(&c);
        if r == 0 {
            t0.push(c);
        } else if r == 10 {
            t10.push(c);
        } else if r == 20 {
            t20.push(c);
        } else if r == 25 {
            t25.push(c);
        } else if r == 30 {
            t30.push(c);
        } else {
            t100.push(c);
        }
        proof {
            i = i + 1;
        }
    }
    proof {
        assert(orig.take(i) =~= orig);
    }
    t0.append(&mut t10);
    t0.append(&mut t20);
    t0.append(&mut t25);
    t0.append(&mut t30);
    t0.append(&mut t100);
    *changes = t0;
}

/// Every change of the dependency order has a tier no lower than the changes before it.
pub proof fn law_dependency_order_is_sorted(s: Seq<ChangeEnvelope>)
    ensures
        forall|i: int, j: int|
            0 <= i < j < dependency_order(s).len() ==> change_rank(dependency_order(s)[i])
                <= change_rank(dependency_order(s)[j]),
{
    let f0 = s.filter(in_tier(0));
    let f10 = s.filter(in_tier(10));
    let f20 = s.filter(in_tier(20));
    let f25 = s.filter(in_tier(25));
    let f30 = s.filter(in_tier(30));
    let f100 = s.filter(in_tier(100));
    assert forall|k: int| 0 <= k < f0.len() implies change_rank(#[trigger] f0[k]) == 0 by {
        s.lemma_filter_pred(in_tier(0), k);
    }
    assert forall|k: int| 0 <= k < f10.len() implies change_rank(#[trigger] f10[k]) == 10 by {
        s.lemma_filter_pred(in_tier(10), k);
    }
    assert forall|k: int| 0 <= k < f20.len() implies change_rank(#[trigger] f20[k]) == 20 by {
        s.lemma_filter_pred(in_tier(20), k);
    }
    assert forall|k: int| 0 <= k < f25.len() implies change_rank(#[trigger] f25[k]) == 25 by {
        s.lemma_filter_pred(in_tier(25), k);
    }
    assert forall|k: int| 0 <= k < f30.len() implies change_rank(#[trigger] f30[k]) == 30 by {
        s.lemma_filter_pred(in_tier(30), k);
    }
    assert forall|k: int| 0 <= k < f100.len() implies change_rank(#[trigger] f100[k]) == 100 by {
        s.lemma_filter_pred(in_tier(100), k);
    }
    let o = dependency_order(s);
    let a = f0.len();
    let b = a + f10.len();
    let c = b + f20.len();
    let d = c + f25.len();
    let e = d + f30.len();
    assert forall|k: int| 0 <= k < o.len() implies #[trigger] change_rank(o[k]) == (if k < a {
        0u8
    } else if k < b {
        10u8
    } else if k < c {
        20u8
    } else if k < d {
        25u8
    } else if k < e {
        30u8
    } else {
        100u8
    }) by {
        if k < a {
            assert(o[k] == f0[k]);
        } else if k < b {
            assert(o[k] == f10[k - a]);
        } else if k < c {
            assert(o[k] == f20[k - b]);
        } else if k < d {
            assert(o[k] == f25[k - c]);
        } else if k < e {
            assert(o[k] == f30[k - d]);
        } else {
            assert(o[k] == f100[k - e]);
        }
    }
}

proof fn lemma_insert_split(a: Seq<ChangeEnvelope>, b: Seq<ChangeEnvelope>, x: ChangeEnvelope)
    ensures
        (a.push(x) + b).to_multiset() == (a + b).to_multiset().insert(x),
{
    assert(a.push(x) + b =~= (a + b).insert(a.len() as int, x));
    vstd::seq_lib::to_multiset_insert(a + b, a.len() as int, x);
}

#[verifier::rlimit(40)]
proof fn lemma_order_counts(s: Seq<ChangeEnvelope>)
    ensures
        dependency_order(s).to_multiset() == s.to_multiset(),
    decreases s.len(),
{
    reveal(Seq::filter);
    if s.len() == 0 {
        assert(dependency_order(s) =~= s);
    } else {
        let init = s.drop_last();
        let x = s.last();
        lemma_order_counts(init);
        assert(init.push(x) =~= s);
        vstd::seq_lib::to_multiset_build(init, x);
        init.lemma_filter_push(x, in_tier(0));
        init.lemma_filter_push(x, in_tier(10));
        init.lemma_filter_push(x, in_tier(20));
        init.lemma_filter_push(x, in_tier(25));
        init.lemma_filter_push(x, in_tier(30));
        init.lemma_filter_push(x, in_tier(100));
        lemma_tier_values(x);
        let g0 = init.filter(in_tier(0));
        let g10 = init.filter(in_tier(10));
        let g20 = init.filter(in_tier(20));
        let g25 = init.filter(in_tier(25));
        let g30 = init.filter(in_tier(30));
        let g100 = init.filter(in_tier(100));
        let r = change_rank(x);
        let a;
        let b;
        if r == 0 {
            a = g0;
            b = g10 + g20 + g25 + g30 + g100;
        } else if r == 10 {
            a = g0 + g10;
            b = g20 + g25 + g30 + g100;
        } else if r == 20 {
            a = g0 + g10 + g20;
            b = g25 + g30 + g100;
        } else if r == 25 {
            a = g0 + g10 + g20 + g25;
            b = g30 + g100;
        } else if r == 30 {
            a = g0 + g10 + g20 + g25 + g30;
            b = g100;
        } else {
            a = g0 + g10 + g20 + g25 + g30 + g100;
            b = Seq::<ChangeEnvelope>::empty();
        }
        assert(dependency_order(s) =~= a.push(x) + b);
        assert(dependency_order(init) =~= a + b);
        lemma_insert_split(a, b, x);
    }
}

/// The dependency order holds exactly the changes it was given: a reordering, nothing
/// dropped and nothing added.
pub proof fn law_dependency_order_is_permutation(s: Seq<ChangeEnvelope>)
    ensures
        dependency_order(s).to_multiset() == s.to_multiset(),
{
    lemma_order_counts(s);
}

/// The foreign keys of the synced tables: a row of `child` refers to a row of `parent`
/// (subtasks to their task, join rows to both sides, instances to their goal, and so on).
pub open spec fn references(child: Seq<char>, parent: Seq<char>) -> bool {
    ||| child == "goal_instances"@ && parent == "goals"@
    ||| child == "audio_transcriptions"@ && parent == "media_items"@
    ||| child == "journal_entry_insights"@ && parent == "entries"@
    ||| child == "tasks"@ && (parent == "goals"@ || parent == "goal_instances"@)
    ||| child == "subtasks"@ && parent == "tasks"@
    ||| child == "entry_tags"@ && (parent == "entries"@ || parent == "tags"@)
    ||| child == "goal_tags"@ && (parent == "goals"@ || parent == "tags"@)
    ||| child == "goal_instance_tags"@ && (parent == "goal_instances"@ || parent == "tags"@)
    ||| child == "task_tags"@ && (parent == "tasks"@ || parent == "tags"@)
    ||| child == "bookmark_tags"@ && (parent == "bookmarks"@ || parent == "tags"@)
    ||| child == "journal_entry_suggestions"@ && (parent == "entries"@ || parent == "journal_entry_insights"@)
}

proof fn lemma_parent_ranks_lower(child: Seq<char>, parent: Seq<char>)
    requires
        references(child, parent),
    ensures
        entity_rank(parent) < entity_rank(child),
{
    assert(entity_rank("entries"@) == 0);
    assert(entity_rank("tags"@) == 0);
    assert(entity_rank("goals"@) == 0);
    assert(entity_rank("bookmarks"@) == 0);
    assert(entity_rank("media_items"@) == 0);
    assert("goal_instances"@ != "entries"@) by {
        reveal_strlit("goal_instances");
        reveal_strlit("entries");
        assert("goal_instances"@.len() != "entries"@.len());
    }
    assert("goal_instances"@ != "tags"@) by {
        reveal_strlit("goal_instances");
        reveal_strlit("tags");
        assert("goal_instances"@.len() != "tags"@.len());
    }
    assert("goal_instances"@ != "goals"@) by {
        reveal_strlit("goal_instances");
        reveal_strlit("goals");
        assert("goal_instances"@.len() != "goals"@.len());
    }
    assert("goal_instances"@ != "canvases"@) by {
        reveal_strlit("goal_instances");
        reveal_strlit("canvases");
        assert("goal_instances"@.len() != "canvases"@.len());
    }
    assert("goal_instances"@ != "bookmarks"@) by {
        reveal_strlit("goal_instances");
        reveal_strlit("bookmarks");
        assert("goal_instances"@.len() != "bookmarks"@.len());
    }
    assert("goal_instances"@ != "media_items"@) by {
        reveal_strlit("goal_instances");
        reveal_strlit("media_items");
        assert("goal_instances"@.len() != "media_items"@.len());
    }
    assert("goal_instances"@ != "activities"@) by {
        reveal_strlit("goal_instances");
        reveal_strlit("activities");
        assert("goal_instances"@.len() != "activities"@.len());
    }
    assert("goal_instances"@ != "resource_links"@) by {
        reveal_strlit("goal_instances");
        reveal_strlit("resource_links");
        assert("goal_instances"@[0] != "resource_links"@[0]);
    }
    assert("goal_instances"@ != "weekly_ai_summaries"@) by {
        reveal_strlit("goal_instances");
        reveal_strlit("weekly_ai_summaries");
        assert("goal_instances"@.len() != "weekly_ai_summaries"@.len());
    }
    assert(entity_rank("goal_instances"@) == 10);
    assert("audio_transcriptions"@ != "entries"@) by {
        reveal_strlit("audio_transcriptions");
        reveal_strlit("entries");
        assert("audio_transcriptions"@.len() != "entries"@.len());
    }
    assert("audio_transcriptions"@ != "tags"@) by {
        reveal_strlit("audio_transcriptions");
        reveal_strlit("tags");
        assert("audio_transcriptions"@.len() != "tags"@.len());
    }
    assert("audio_transcriptions"@ != "goals"@) by {
        reveal_strlit("audio_transcriptions");
        reveal_strlit("goals");
        assert("audio_transcriptions"@.len() != "goals"@.len());
    }
    assert("audio_transcriptions"@ != "canvases"@) by {
        reveal_strlit("audio_transcriptions");
        reveal_strlit("canvases");
        assert("audio_transcriptions"@.len() != "canvases"@.len());
    }
    assert("audio_transcriptions"@ != "bookmarks"@) by {
        reveal_strlit("audio_transcriptions");
        reveal_strlit("bookmarks");
        assert("audio_transcriptions"@.len() != "bookmarks"@.len());
    }
    assert("audio_transcriptions"@ != "media_items"@) by {
        reveal_strlit("audio_transcriptions");
        reveal_strlit("media_items");
        assert("audio_transcriptions"@.len() != "media_items"@.len());
    }
    assert("audio_transcriptions"@ != "activities"@) by {
        reveal_strlit("audio_transcriptions");
        reveal_strlit("activities");
        assert("audio_transcriptions"@.len() != "activities"@.len());
    }
    assert("audio_transcriptions"@ != "resource_links"@) by {
        reveal_strlit("audio_transcriptions");
        reveal_strlit("resource_links");
        assert("audio_transcriptions"@.len() != "resource_links"@.len());
    }
    assert("audio_transcriptions"@ != "weekly_ai_summaries"@) by {
        reveal_strlit("audio_transcriptions");
        reveal_strlit("weekly_ai_summaries");
        assert("audio_transcriptions"@.len() != "weekly_ai_summaries"@.len());
    }
    assert(entity_rank("audio_transcriptions"@) == 10);
    assert("journal_entry_insights"@ != "entries"@) by {
        reveal_strlit("journal_entry_insights");
        reveal_strlit("entries");
        assert("journal_entry_insights"@.len() != "entries"@.len());
    }
    assert("journal_entry_insights"@ != "tags"@) by {
        reveal_strlit("journal_entry_insights");
        reveal_strlit("tags");
        assert("journal_entry_insights"@.len() != "tags"@.len());
    }
    assert("journal_entry_insights"@ != "goals"@) by {
        reveal_strlit("journal_entry_insights");
        reveal_strlit("goals");
        assert("journal_entry_insights"@.len() != "goals"@.len());
    }
    assert("journal_entry_insights"@ != "canvases"@) by {
        reveal_strlit("journal_entry_insights");
        reveal_strlit("canvases");
        assert("journal_entry_insights"@.len() != "canvases"@.len());
    }
    assert("journal_entry_insights"@ != "bookmarks"@) by {
        reveal_strlit("journal_entry_insights");
        reveal_strlit("bookmarks");
        assert("journal_entry_insights"@.len() != "bookmarks"@.len());
    }
    assert("journal_entry_insights"@ != "media_items"@) by {
        reveal_strlit("journal_entry_insights");
        reveal_strlit("media_items");
        assert("journal_entry_insights"@.len() != "media_items"@.len());
    }
    assert("journal_entry_insights"@ != "activities"@) by {
        reveal_strlit("journal_entry_insights");
        reveal_strlit("activities");
        assert("journal_entry_insights"@.len() != "activities"@.len());
    }
    assert("journal_entry_insights"@ != "resource_links"@) by {
        reveal_strlit("journal_entry_insights");
        reveal_strlit("resource_links");
        assert("journal_entry_insights"@.len() != "resource_links"@.len());
    }
    assert("journal_entry_insights"@ != "weekly_ai_summaries"@) by {
        reveal_strlit("journal_entry_insights");
        reveal_strlit("weekly_ai_summaries");
        assert("journal_entry_insights"@.len() != "weekly_ai_summaries"@.len());
    }
    assert(entity_rank("journal_entry_insights"@) == 10);
    assert("tasks"@ != "entries"@) by {
        reveal_strlit("tasks");
        reveal_strlit("entries");
        assert("tasks"@.len() != "entries"@.len());
    }
    assert("tasks"@ != "tags"@) by {
        reveal_strlit("tasks");
        reveal_strlit("tags");
        assert("tasks"@.len() != "tags"@.len());
    }
    assert("tasks"@ != "goals"@) by {
        reveal_strlit("tasks");
        reveal_strlit("goals");
        assert("tasks"@[0] != "goals"@[0]);
    }
    assert("tasks"@ != "canvases"@) by {
        reveal_strlit("tasks");
        reveal_strlit("canvases");
        assert("tasks"@.len() != "canvases"@.len());
    }
    assert("tasks"@ != "bookmarks"@) by {
        reveal_strlit("tasks");
        reveal_strlit("bookmarks");
        assert("tasks"@.len() != "bookmarks"@.len());
    }
    assert("tasks"@ != "media_items"@) by {
        reveal_strlit("tasks");
        reveal_strlit("media_items");
        assert("tasks"@.len() != "media_items"@.len());
    }
    assert("tasks"@ != "activities"@) by {
        reveal_strlit("tasks");
        reveal_strlit("activities");
        assert("tasks"@.len() != "activities"@.len());
    }
    assert("tasks"@ != "resource_links"@) by {
        reveal_strlit("tasks");
        reveal_strlit("resource_links");
        assert("tasks"@.len() != "resource_links"@.len());
    }
    assert("tasks"@ != "weekly_ai_summaries"@) by {
        reveal_strlit("tasks");
        reveal_strlit("weekly_ai_summaries");
        assert("tasks"@.len() != "weekly_ai_summaries"@.len());
    }
    assert("tasks"@ != "goal_instances"@) by {
        reveal_strlit("tasks");
        reveal_strlit("goal_instances");
        assert("tasks"@.len() != "goal_instances"@.len());
    }
    assert("tasks"@ != "audio_transcriptions"@) by {
        reveal_strlit("tasks");
        reveal_strlit("audio_transcriptions");
        assert("tasks"@.len() != "audio_transcriptions"@.len());
    }
    assert("tasks"@ != "journal_entry_insights"@) by {
        reveal_strlit("tasks");
        reveal_strlit("journal_entry_insights");
        assert("tasks"@.len() != "journal_entry_insights"@.len());
    }
    assert(entity_rank("tasks"@) == 20);
    assert("entry_tags"@ != "entries"@) by {
        reveal_strlit("entry_tags");
        reveal_strlit("entries");
        assert("entry_tags"@.len() != "entries"@.len());
    }
    assert("entry_tags"@ != "tags"@) by {
        reveal_strlit("entry_tags");
        reveal_strlit("tags");
        assert("entry_tags"@.len() != "tags"@.len());
    }
    assert("entry_tags"@ != "goals"@) by {
        reveal_strlit("entry_tags");
        reveal_strlit("goals");
        assert("entry_tags"@.len() != "goals"@.len());
    }
    assert("entry_tags"@ != "canvases"@) by {
        reveal_strlit("entry_tags");
        reveal_strlit("canvases");
        assert("entry_tags"@.len() != "canvases"@.len());
    }
    assert("entry_tags"@ != "bookmarks"@) by {
        reveal_strlit("entry_tags");
        reveal_strlit("bookmarks");
        assert("entry_tags"@.len() != "bookmarks"@.len());
    }
    assert("entry_tags"@ != "media_items"@) by {
        reveal_strlit("entry_tags");
        reveal_strlit("media_items");
        assert("entry_tags"@.len() != "media_items"@.len());
    }
    assert("entry_tags"@ != "activities"@) by {
        reveal_strlit("entry_tags");
        reveal_strlit("activities");
        assert("entry_tags"@[0] != "activities"@[0]);
    }
    assert("entry_tags"@ != "resource_links"@) by {
        reveal_strlit("entry_tags");
        reveal_strlit("resource_links");
        assert("entry_tags"@.len() != "resource_links"@.len());
    }
    assert("entry_tags"@ != "weekly_ai_summaries"@) by {
        reveal_strlit("entry_tags");
        reveal_strlit("weekly_ai_summaries");
        assert("entry_tags"@.len() != "weekly_ai_summaries"@.len());
    }
    assert("entry_tags"@ != "goal_instances"@) by {
        reveal_strlit("entry_tags");
        reveal_strlit("goal_instances");
        assert("entry_tags"@.len() != "goal_instances"@.len());
    }
    assert("entry_tags"@ != "audio_transcriptions"@) by {
        reveal_strlit("entry_tags");
        reveal_strlit("audio_transcriptions");
        assert("entry_tags"@.len() != "audio_transcriptions"@.len());
    }
    assert("entry_tags"@ != "journal_entry_insights"@) by {
        reveal_strlit("entry_tags");
        reveal_strlit("journal_entry_insights");
        assert("entry_tags"@.len() != "journal_entry_insights"@.len());
    }
    assert("entry_tags"@ != "tasks"@) by {
        reveal_strlit("entry_tags");
        reveal_strlit("tasks");
        assert("entry_tags"@.len() != "tasks"@.len());
    }
    assert(entity_rank("entry_tags"@) == 30);
    assert("goal_tags"@ != "entries"@) by {
        reveal_strlit("goal_tags");
        reveal_strlit("entries");
        assert("goal_tags"@.len() != "entries"@.len());
    }
    assert("goal_tags"@ != "tags"@) by {
        reveal_strlit("goal_tags");
        reveal_strlit("tags");
        assert("goal_tags"@.len() != "tags"@.len());
    }
    assert("goal_tags"@ != "goals"@) by {
        reveal_strlit("goal_tags");
        reveal_strlit("goals");
        assert("goal_tags"@.len() != "goals"@.len());
    }
    assert("goal_tags"@ != "canvases"@) by {
        reveal_strlit("goal_tags");
        reveal_strlit("canvases");
        assert("goal_tags"@.len() != "canvases"@.len());
    }
    assert("goal_tags"@ != "bookmarks"@) by {
        reveal_strlit("goal_tags");
        reveal_strlit("bookmarks");
        assert("goal_tags"@[0] != "bookmarks"@[0]);
    }
    assert("goal_tags"@ != "media_items"@) by {
        reveal_strlit("goal_tags");
        reveal_strlit("media_items");
        assert("goal_tags"@.len() != "media_items"@.len());
    }
    assert("goal_tags"@ != "activities"@) by {
        reveal_strlit("goal_tags");
        reveal_strlit("activities");
        assert("goal_tags"@.len() != "activities"@.len());
    }
    assert("goal_tags"@ != "resource_links"@) by {
        reveal_strlit("goal_tags");
        reveal_strlit("resource_links");
        assert("goal_tags"@.len() != "resource_links"@.len());
    }
    assert("goal_tags"@ != "weekly_ai_summaries"@) by {
        reveal_strlit("goal_tags");
        reveal_strlit("weekly_ai_summaries");
        assert("goal_tags"@.len() != "weekly_ai_summaries"@.len());
    }
    assert("goal_tags"@ != "goal_instances"@) by {
        reveal_strlit("goal_tags");
        reveal_strlit("goal_instances");
        assert("goal_tags"@.len() != "goal_instances"@.len());
    }
    assert("goal_tags"@ != "audio_transcriptions"@) by {
        reveal_strlit("goal_tags");
        reveal_strlit("audio_transcriptions");
        assert("goal_tags"@.len() != "audio_transcriptions"@.len());
    }
    assert("goal_tags"@ != "journal_entry_insights"@) by {
        reveal_strlit("goal_tags");
        reveal_strlit("journal_entry_insights");
        assert("goal_tags"@.len() != "journal_entry_insights"@.len());
    }
    assert("goal_tags"@ != "tasks"@) by {
        reveal_strlit("goal_tags");
        reveal_strlit("tasks");
        assert("goal_tags"@.len() != "tasks"@.len());
    }
    assert(entity_rank("goal_tags"@) == 30);
    assert("goal_instance_tags"@ != "entries"@) by {
        reveal_strlit("goal_instance_tags");
        reveal_strlit("entries");
        assert("goal_instance_tags"@.len() != "entries"@.len());
    }
    assert("goal_instance_tags"@ != "tags"@) by {
        reveal_strlit("goal_instance_tags");
        reveal_strlit("tags");
        assert("goal_instance_tags"@.len() != "tags"@.len());
    }
    assert("goal_instance_tags"@ != "goals"@) by {
        reveal_strlit("goal_instance_tags");
        reveal_strlit("goals");
        assert("goal_instance_tags"@.len() != "goals"@.len());
    }
    assert("goal_instance_tags"@ != "canvases"@) by {
        reveal_strlit("goal_instance_tags");
        reveal_strlit("canvases");
        assert("goal_instance_tags"@.len() != "canvases"@.len());
    }
    assert("goal_instance_tags"@ != "bookmarks"@) by {
        reveal_strlit("goal_instance_tags");
        reveal_strlit("bookmarks");
        assert("goal_instance_tags"@.len() != "bookmarks"@.len());
    }
    assert("goal_instance_tags"@ != "media_items"@) by {
        reveal_strlit("goal_instance_tags");
        reveal_strlit("media_items");
        assert("goal_instance_tags"@.len() != "media_items"@.len());
    }
    assert("goal_instance_tags"@ != "activities"@) by {
        reveal_strlit("goal_instance_tags");
        reveal_strlit("activities");
        assert("goal_instance_tags"@.len() != "activities"@.len());
    }
    assert("goal_instance_tags"@ != "resource_links"@) by {
        reveal_strlit("goal_instance_tags");
        reveal_strlit("resource_links");
        assert("goal_instance_tags"@.len() != "resource_links"@.len());
    }
    assert("goal_instance_tags"@ != "weekly_ai_summaries"@) by {
        reveal_strlit("goal_instance_tags");
        reveal_strlit("weekly_ai_summaries");
        assert("goal_instance_tags"@.len() != "weekly_ai_summaries"@.len());
    }
    assert("goal_instance_tags"@ != "goal_instances"@) by {
        reveal_strlit("goal_instance_tags");
        reveal_strlit("goal_instances");
        assert("goal_instance_tags"@.len() != "goal_instances"@.len());
    }
    assert("goal_instance_tags"@ != "audio_transcriptions"@) by {
        reveal_strlit("goal_instance_tags");
        reveal_strlit("audio_transcriptions");
        assert("goal_instance_tags"@.len() != "audio_transcriptions"@.len());
    }
    assert("goal_instance_tags"@ != "journal_entry_insights"@) by {
        reveal_strlit("goal_instance_tags");
        reveal_strlit("journal_entry_insights");
        assert("goal_instance_tags"@.len() != "journal_entry_insights"@.len());
    }
    assert("goal_instance_tags"@ != "tasks"@) by {
        reveal_strlit("goal_instance_tags");
        reveal_strlit("tasks");
        assert("goal_instance_tags"@.len() != "tasks"@.len());
    }
    assert(entity_rank("goal_instance_tags"@) == 30);
    assert("task_tags"@ != "entries"@) by {
        reveal_strlit("task_tags");
        reveal_strlit("entries");
        assert("task_tags"@.len() != "entries"@.len());
    }
    assert("task_tags"@ != "tags"@) by {
        reveal_strlit("task_tags");
        reveal_strlit("tags");
        assert("task_tags"@.len() != "tags"@.len());
    }
    assert("task_tags"@ != "goals"@) by {
        reveal_strlit("task_tags");
        reveal_strlit("goals");
        assert("task_tags"@.len() != "goals"@.len());
    }
    assert("task_tags"@ != "canvases"@) by {
        reveal_strlit("task_tags");
        reveal_strlit("canvases");
        assert("task_tags"@.len() != "canvases"@.len());
    }
    assert("task_tags"@ != "bookmarks"@) by {
        reveal_strlit("task_tags");
        reveal_strlit("bookmarks");
        assert("task_tags"@[0] != "bookmarks"@[0]);
    }
    assert("task_tags"@ != "media_items"@) by {
        reveal_strlit("task_tags");
        reveal_strlit("media_items");
        assert("task_tags"@.len() != "media_items"@.len());
    }
    assert("task_tags"@ != "activities"@) by {
        reveal_strlit("task_tags");
        reveal_strlit("activities");
        assert("task_tags"@.len() != "activities"@.len());
    }
    assert("task_tags"@ != "resource_links"@) by {
        reveal_strlit("task_tags");
        reveal_strlit("resource_links");
        assert("task_tags"@.len() != "resource_links"@.len());
    }
    assert("task_tags"@ != "weekly_ai_summaries"@) by {
        reveal_strlit("task_tags");
        reveal_strlit("weekly_ai_summaries");
        assert("task_tags"@.len() != "weekly_ai_summaries"@.len());
    }
    assert("task_tags"@ != "goal_instances"@) by {
        reveal_strlit("task_tags");
        reveal_strlit("goal_instances");
        assert("task_tags"@.len() != "goal_instances"@.len());
    }
    assert("task_tags"@ != "audio_transcriptions"@) by {
        reveal_strlit("task_tags");
        reveal_strlit("audio_transcriptions");
        assert("task_tags"@.len() != "audio_transcriptions"@.len());
    }
    assert("task_tags"@ != "journal_entry_insights"@) by {
        reveal_strlit("task_tags");
        reveal_strlit("journal_entry_insights");
        assert("task_tags"@.len() != "journal_entry_insights"@.len());
    }
    assert("task_tags"@ != "tasks"@) by {
        reveal_strlit("task_tags");
        reveal_strlit("tasks");
        assert("task_tags"@.len() != "tasks"@.len());
    }
    assert(entity_rank("task_tags"@) == 30);
    assert("bookmark_tags"@ != "entries"@) by {
        reveal_strlit("bookmark_tags");
        reveal_strlit("entries");
        assert("bookmark_tags"@.len() != "entries"@.len());
    }
    assert("bookmark_tags"@ != "tags"@) by {
        reveal_strlit("bookmark_tags");
        reveal_strlit("tags");
        assert("bookmark_tags"@.len() != "tags"@.len());
    }
    assert("bookmark_tags"@ != "goals"@) by {
        reveal_strlit("bookmark_tags");
        reveal_strlit("goals");
        assert("bookmark_tags"@.len() != "goals"@.len());
    }
    assert("bookmark_tags"@ != "canvases"@) by {
        reveal_strlit("bookmark_tags");
        reveal_strlit("canvases");
        assert("bookmark_tags"@.len() != "canvases"@.len());
    }
    assert("bookmark_tags"@ != "bookmarks"@) by {
        reveal_strlit("bookmark_tags");
        reveal_strlit("bookmarks");
        assert("bookmark_tags"@.len() != "bookmarks"@.len());
    }
    assert("bookmark_tags"@ != "media_items"@) by {
        reveal_strlit("bookmark_tags");
        reveal_strlit("media_items");
        assert("bookmark_tags"@.len() != "media_items"@.len());
    }
    assert("bookmark_tags"@ != "activities"@) by {
        reveal_strlit("bookmark_tags");
        reveal_strlit("activities");
        assert("bookmark_tags"@.len() != "activities"@.len());
    }
    assert("bookmark_tags"@ != "resource_links"@) by {
        reveal_strlit("bookmark_tags");
        reveal_strlit("resource_links");
        assert("bookmark_tags"@.len() != "resource_links"@.len());
    }
    assert("bookmark_tags"@ != "weekly_ai_summaries"@) by {
        reveal_strlit("bookmark_tags");
        reveal_strlit("weekly_ai_summaries");
        assert("bookmark_tags"@.len() != "weekly_ai_summaries"@.len());
    }
    assert("bookmark_tags"@ != "goal_instances"@) by {
        reveal_strlit("bookmark_tags");
        reveal_strlit("goal_instances");
        assert("bookmark_tags"@.len() != "goal_instances"@.len());
    }
    assert("bookmark_tags"@ != "audio_transcriptions"@) by {
        reveal_strlit("bookmark_tags");
        reveal_strlit("audio_transcriptions");
        assert("bookmark_tags"@.len() != "audio_transcriptions"@.len());
    }
    assert("bookmark_tags"@ != "journal_entry_insights"@) by {
        reveal_strlit("bookmark_tags");
        reveal_strlit("journal_entry_insights");
        assert("bookmark_tags"@.len() != "journal_entry_insights"@.len());
    }
    assert("bookmark_tags"@ != "tasks"@) by {
        reveal_strlit("bookmark_tags");
        reveal_strlit("tasks");
        assert("bookmark_tags"@.len() != "tasks"@.len());
    }
    assert(entity_rank("bookmark_tags"@) == 30);
    assert("subtasks"@ != "entries"@) by {
        reveal_strlit("subtasks");
        reveal_strlit("entries");
        assert("subtasks"@.len() != "entries"@.len());
    }
    assert("subtasks"@ != "tags"@) by {
        reveal_strlit("subtasks");
        reveal_strlit("tags");
        assert("subtasks"@.len() != "tags"@.len());
    }
    assert("subtasks"@ != "goals"@) by {
        reveal_strlit("subtasks");
        reveal_strlit("goals");
        assert("subtasks"@.len() != "goals"@.len());
    }
    assert("subtasks"@ != "canvases"@) by {
        reveal_strlit("subtasks");
        reveal_strlit("canvases");
        assert("subtasks"@[0] != "canvases"@[0]);
    }
    assert("subtasks"@ != "bookmarks"@) by {
        reveal_strlit("subtasks");
        reveal_strlit("bookmarks");
        assert("subtasks"@.len() != "bookmarks"@.len());
    }
    assert("subtasks"@ != "media_items"@) by {
        reveal_strlit("subtasks");
        reveal_strlit("media_items");
        assert("subtasks"@.len() != "media_items"@.len());
    }
    assert("subtasks"@ != "activities"@) by {
        reveal_strlit("subtasks");
        reveal_strlit("activities");
        assert("subtasks"@.len() != "activities"@.len());
    }
    assert("subtasks"@ != "resource_links"@) by {
        reveal_strlit("subtasks");
        reveal_strlit("resource_links");
        assert("subtasks"@.len() != "resource_links"@.len());
    }
    assert("subtasks"@ != "weekly_ai_summaries"@) by {
        reveal_strlit("subtasks");
        reveal_strlit("weekly_ai_summaries");
        assert("subtasks"@.len() != "weekly_ai_summaries"@.len());
    }
    assert("subtasks"@ != "goal_instances"@) by {
        reveal_strlit("subtasks");
        reveal_strlit("goal_instances");
        assert("subtasks"@.len() != "goal_instances"@.len());
    }
    assert("subtasks"@ != "audio_transcriptions"@) by {
        reveal_strlit("subtasks");
        reveal_strlit("audio_transcriptions");
        assert("subtasks"@.len() != "audio_transcriptions"@.len());
    }
    assert("subtasks"@ != "journal_entry_insights"@) by {
        reveal_strlit("subtasks");
        reveal_strlit("journal_entry_insights");
        assert("subtasks"@.len() != "journal_entry_insights"@.len());
    }
    assert("subtasks"@ != "tasks"@) by {
        reveal_strlit("subtasks");
        reveal_strlit("tasks");
        assert("subtasks"@.len() != "tasks"@.len());
    }
    assert(entity_rank("subtasks"@) == 30);
    assert("journal_entry_suggestions"@ != "entries"@) by {
        reveal_strlit("journal_entry_suggestions");
        reveal_strlit("entries");
        assert("journal_entry_suggestions"@.len() != "entries"@.len());
    }
    assert("journal_entry_suggestions"@ != "tags"@) by {
        reveal_strlit("journal_entry_suggestions");
        reveal_strlit("tags");
        assert("journal_entry_suggestions"@.len() != "tags"@.len());
    }
    assert("journal_entry_suggestions"@ != "goals"@) by {
        reveal_strlit("journal_entry_suggestions");
        reveal_strlit("goals");
        assert("journal_entry_suggestions"@.len() != "goals"@.len());
    }
    assert("journal_entry_suggestions"@ != "canvases"@) by {
        reveal_strlit("journal_entry_suggestions");
        reveal_strlit("canvases");
        assert("journal_entry_suggestions"@.len() != "canvases"@.len());
    }
    assert("journal_entry_suggestions"@ != "bookmarks"@) by {
        reveal_strlit("journal_entry_suggestions");
        reveal_strlit("bookmarks");
        assert("journal_entry_suggestions"@.len() != "bookmarks"@.len());
    }
    assert("journal_entry_suggestions"@ != "media_items"@) by {
        reveal_strlit("journal_entry_suggestions");
        reveal_strlit("media_items");
        assert("journal_entry_suggestions"@.len() != "media_items"@.len());
    }
    assert("journal_entry_suggestions"@ != "activities"@) by {
        reveal_strlit("journal_entry_suggestions");
        reveal_strlit("activities");
        assert("journal_entry_suggestions"@.len() != "activities"@.len());
    }
    assert("journal_entry_suggestions"@ != "resource_links"@) by {
        reveal_strlit("journal_entry_suggestions");
        reveal_strlit("resource_links");
        assert("journal_entry_suggestions"@.len() != "resource_links"@.len());
    }
    assert("journal_entry_suggestions"@ != "weekly_ai_summaries"@) by {
        reveal_strlit("journal_entry_suggestions");
        reveal_strlit("weekly_ai_summaries");
        assert("journal_entry_suggestions"@.len() != "weekly_ai_summaries"@.len());
    }
    assert("journal_entry_suggestions"@ != "goal_instances"@) by {
        reveal_strlit("journal_entry_suggestions");
        reveal_strlit("goal_instances");
        assert("journal_entry_suggestions"@.len() != "goal_instances"@.len());
    }
    assert("journal_entry_suggestions"@ != "audio_transcriptions"@) by {
        reveal_strlit("journal_entry_suggestions");
        reveal_strlit("audio_transcriptions");
        assert("journal_entry_suggestions"@.len() != "audio_transcriptions"@.len());
    }
    assert("journal_entry_suggestions"@ != "journal_entry_insights"@) by {
        reveal_strlit("journal_entry_suggestions");
        reveal_strlit("journal_entry_insights");
        assert("journal_entry_suggestions"@.len() != "journal_entry_insights"@.len());
    }
    assert("journal_entry_suggestions"@ != "tasks"@) by {
        reveal_strlit("journal_entry_suggestions");
        reveal_strlit("tasks");
        assert("journal_entry_suggestions"@.len() != "tasks"@.len());
    }
    assert(entity_rank("journal_entry_suggestions"@) == 30);
}

/// Parents before children: in the order the sort gives, an upsert of a row comes before
/// every upsert of a row that refers to it (a task before its subtasks, a tag and a task
/// before their join row), and every delete comes after every upsert.
pub proof fn law_parents_before_children(s: Seq<ChangeEnvelope>)
    ensures
        forall|i: int, j: int|
            0 <= i < dependency_order(s).len() && 0 <= j < dependency_order(s).len()
                && dependency_order(s)[i].op == ChangeOp::Upsert && dependency_order(s)[j].op == ChangeOp::Upsert
                && #[trigger] references(dependency_order(s)[i].entity@, dependency_order(s)[j].entity@) ==> j < i,
        forall|i: int, j: int|
            0 <= i < dependency_order(s).len() && 0 <= j < dependency_order(s).len()
                && #[trigger] dependency_order(s)[i].op == ChangeOp::Delete && #[trigger] dependency_order(s)[j].op == ChangeOp::Upsert ==> j < i,
{
    let o = dependency_order(s);
    law_dependency_order_is_sorted(s);
    assert forall|i: int, j: int|
        0 <= i < o.len() && 0 <= j < o.len() && o[i].op == ChangeOp::Upsert && o[j].op == ChangeOp::Upsert
            && #[trigger] references(o[i].entity@, o[j].entity@) implies j < i by {
        lemma_parent_ranks_lower(o[i].entity@, o[j].entity@);
        assert(change_rank(o[j]) < change_rank(o[i]));
        if i <= j {
            if i < j {
                assert(change_rank(o[i]) <= change_rank(o[j]));
            }
        }
    }
    assert forall|i: int, j: int|
        0 <= i < o.len() && 0 <= j < o.len() && #[trigger] o[i].op == ChangeOp::Delete && #[trigger] o[j].op == ChangeOp::Upsert implies j < i by {
        assert(change_rank(o[i]) == 100);
        assert(change_rank(o[j]) <= 30);
        if i < j {
            assert(change_rank(o[i]) <= change_rank(o[j]));
        }
    }
}

} // verus!
