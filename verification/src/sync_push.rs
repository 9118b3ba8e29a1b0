//! Building a push from the outbox: the latest queued operation per row, the operation and
//! timestamp of each change, and the batch id.

use vstd::prelude::*;
use crate::codec::{hex_encode, hex_lower, sha256, sha256_of};
use crate::sync_types::ChangeOp;
use crate::text::{owned, str_eq};

verus! {

/// A row of the sync outbox: the entity (table), the row's sync id, the queued operation and
/// when it was queued.
#[derive(Debug, Clone)]
pub struct OutboxRow {
    pub entity: String,
    pub entity_id: String,
    pub op: String,
    pub queued_at: i64,
}

/// Two outbox rows concern the same row.
pub open spec fn same_key(a: OutboxRow, b: OutboxRow) -> bool {
    a.entity@ == b.entity@ && a.entity_id@ == b.entity_id@
}

/// No later outbox row concerns the same row as row `i`.
pub open spec fn is_latest(rows: Seq<OutboxRow>, i: int) -> bool {
    forall|j: int| i < j < rows.len() ==> !same_key(rows[i], #[trigger] rows[j])
}

/// Of the first `n` outbox rows, those that are the latest for their row, in queue order.
pub open spec fn latest_upto(rows: Seq<OutboxRow>, n: int) -> Seq<OutboxRow>
    decreases n,
{
    if n <= 0 {
        Seq::<OutboxRow>::empty()
    } else if is_latest(rows, n - 1) {
        latest_upto(rows, n - 1).push(rows[n - 1])
    } else {
        latest_upto(rows, n - 1)
    }
}

/// The outbox rows, ordered by queue time, reduced to the latest row for each (entity, id).
pub open spec fn latest_rows(rows: Seq<OutboxRow>) -> Seq<OutboxRow> {
    latest_upto(rows, rows.len() as int)
}

fn same_key_exec(a: &OutboxRow, b: &OutboxRow) -> (r: bool)
    ensures
        r == same_key(*a, *b),
{
    str_eq(a.entity.as_str(), b.entity.as_str()) && str_eq(a.entity_id.as_str(), b.entity_id.as_str())
}

/// Keeps, of the outbox rows in queue order, only the latest for each (entity, id): the
/// operation queued last is the one pushed. No two rows kept concern the same row.
pub fn dedupe_outbox(rows: &Vec<OutboxRow>) -> (r: Vec<OutboxRow>)
    ensures
        r@ == latest_rows(rows@),
        forall|a: int, b: int| 0 <= a < b < r@.len() ==> !same_key(#[trigger] r@[a], #[trigger] r@[b]),
{
    let mut r: Vec<OutboxRow> = Vec::new();
    let ghost mut idx: Seq<int> = Seq::empty();
    let mut i: usize = 0;
    while i < rows.len()
        invariant
            i <= rows@.len(),
            r@ == latest_upto(rows@, i as int),
            idx.len() == r@.len(),
            forall|k: int| 0 <= k < r@.len() ==> 0 <= #[trigger] idx[k] < i && r@[k] == rows@[idx[k]] && is_latest(rows@, idx[k]),
            forall|a: int, b: int| 0 <= a < b < r@.len() ==> !same_key(#[trigger] r@[a], #[trigger] r@[b]),
        decreases rows@.len() - i,
    {
        let mut later = false;
        let mut j: usize = i + 1;
        while j < rows.len()
            invariant
                i < rows@.len(),
                i + 1 <= j <= rows@.len(),
                later <==> exists|m: int| i < m < j && same_key(rows@[i as int], #[trigger] rows@[m]),
            decreases rows@.len() - j,
        {
            if same_key_exec(&rows[i], &rows[j]) {
                later = true;
            }
            j = j + 1;
        }
        if !later {
            let ghost old_r = r@;
            let ghost old_idx = idx;
            let row = &rows[i];
            r.push(OutboxRow {
                entity: row.entity.clone(),
                entity_id: row.entity_id.clone(),
                op: row.op.clone(),
                queued_at: row.queued_at,
            });
            proof {
                idx = idx.push(i as int);
                assert(is_latest(rows@, i as int));
                assert forall|a: int, b: int| 0 <= a < b < r@.len() implies !same_key(#[trigger] r@[a], #[trigger] r@[b]) by {
                    if b == r@.len() - 1 {
                        let m = old_idx[a];
                        assert(old_r[a] == rows@[m] && is_latest(rows@, m) && m < i);
                        assert(!same_key(rows@[m], rows@[i as int]));
                    } else {
                        assert(old_r[a] == r@[a] && old_r[b] == r@[b]);
                    }
                }
                assert forall|k: int| 0 <= k < r@.len() implies 0 <= #[trigger] idx[k] < i + 1 && r@[k] == rows@[idx[k]] && is_latest(rows@, idx[k]) by {
                    if k < r@.len() - 1 {
                        assert(old_idx[k] == idx[k] && old_r[k] == r@[k]);
                    }
                }
            }
        } else {
            proof {
                let m = choose|m: int| i < m < rows@.len() && same_key(rows@[i as int], #[trigger] rows@[m]);
                assert(!is_latest(rows@, i as int));
            }
        }
        i = i + 1;
    }
    r
}

/// Every row of the outbox has a latest row: one at or after it, for the same (entity, id),
/// with no later row for it.
pub proof fn lemma_latest_exists(rows: Seq<OutboxRow>, i: int)
    requires
        0 <= i < rows.len(),
    ensures
        exists|j: int| i <= j < rows.len() && same_key(rows[i], rows[j]) && #[trigger] is_latest(rows, j),
    decreases rows.len() - i,
{
    if !is_latest(rows, i) {
        let j = choose|j: int| i < j < rows.len() && !!same_key(rows[i], #[trigger] rows[j]);
        lemma_latest_exists(rows, j);
        let k = choose|k: int| j <= k < rows.len() && same_key(rows[j], rows[k]) && #[trigger] is_latest(rows, k);
        assert(same_key(rows[i], rows[k]));
    } else {
        assert(same_key(rows[i], rows[i]));
    }
}

/// A latest row is among the latest rows of every longer prefix.
pub proof fn lemma_latest_kept(rows: Seq<OutboxRow>, j: int, n: int)
    requires
        0 <= j < n <= rows.len(),
        is_latest(rows, j),
    ensures
        latest_upto(rows, n).contains(rows[j]),
    decreases n,
{
    if n - 1 == j {
        assert(latest_upto(rows, n)[latest_upto(rows, n).len() - 1] == rows[j]);
    } else {
        lemma_latest_kept(rows, j, n - 1);
        let s = latest_upto(rows, n - 1);
        let k = choose|k: int| 0 <= k < s.len() && s[k] == rows[j];
        if is_latest(rows, n - 1) {
            assert(latest_upto(rows, n)[k] == rows[j]);
        }
    }
}

/// Deduplicating the outbox loses no row: for every queued row, the rows kept hold one for
/// the same (entity, id), and it is the last one queued for it.
pub proof fn law_dedupe_keeps_every_row(rows: Seq<OutboxRow>, i: int)
    requires
        0 <= i < rows.len(),
    ensures
        exists|k: int| 0 <= k < latest_rows(rows).len() && same_key(rows[i], #[trigger] latest_rows(rows)[k]),
        exists|j: int| i <= j < rows.len() && same_key(rows[i], rows[j]) && #[trigger] is_latest(rows, j) && latest_rows(rows).contains(rows[j]),
{
    lemma_latest_exists(rows, i);
    let j = choose|j: int| i <= j < rows.len() && same_key(rows[i], rows[j]) && #[trigger] is_latest(rows, j);
    lemma_latest_kept(rows, j, rows.len() as int);
    let s = latest_rows(rows);
    let k = choose|k: int| 0 <= k < s.len() && s[k] == rows[j];
    assert(same_key(rows[i], s[k]));
}

/// The operation of a queued change: `"delete"` deletes, anything else writes the row.
pub open spec fn change_op_named(op: Seq<char>) -> ChangeOp {
    if op == "delete"@ {
        ChangeOp::Delete
    } else {
        ChangeOp::Upsert
    }
}

/// The operation of a queued change.
pub fn change_op_of(op: &str) -> (r: ChangeOp)
    ensures
        r == change_op_named(op@),
{
    if str_eq(op, "delete") {
        ChangeOp::Delete
    } else {
        ChangeOp::Upsert
    }
}

/// The timestamp a pushed change carries: a deletion carries the row's sync timestamp if it
/// still has one, else the last sync time; a write carries the `_updated_at` of its data if
/// present, else the row's timestamp.
pub open spec fn pushed_updated_at(op: ChangeOp, row_updated_at: Option<i64>, last_sync: i64, data_updated_at: Option<i64>, row_ts: i64) -> i64 {
    match op {
        ChangeOp::Delete => match row_updated_at {
            Some(t) => t,
            None => last_sync,
        },
        ChangeOp::Upsert => match data_updated_at {
            Some(t) => t,
            None => row_ts,
        },
    }
}

/// The timestamp a pushed change carries.
pub fn change_updated_at(op: ChangeOp, row_updated_at: Option<i64>, last_sync: i64, data_updated_at: Option<i64>, row_ts: i64) -> (r: i64)
    ensures
        r == pushed_updated_at(op, row_updated_at, last_sync, data_updated_at, row_ts),
{
    match op {
        ChangeOp::Delete => match row_updated_at {
            Some(t) => t,
            None => last_sync,
        },
        ChangeOp::Upsert => match data_updated_at {
            Some(t) => t,
            None => row_ts,
        },
    }
}

/// What becomes of a deduplicated outbox row.
#[derive(Debug, Clone, Copy, PartialEq, Eq, Structural)]
pub enum OutboxDisposal {
    /// Pushed as a change with this operation, then cleared from the outbox.
    Push(ChangeOp),
    /// A write whose source row no longer exists: cleared from the outbox, not pushed.
    DropStale,
}

/// What becomes of an outbox row: a queued write whose row is gone is dropped, everything
/// else is pushed with its operation.
pub fn outbox_disposal(op: &str, row_exists: bool) -> (r: OutboxDisposal)
    ensures
        r == (if change_op_named(op@) == ChangeOp::Upsert && !row_exists {
            OutboxDisposal::DropStale
        } else {
            OutboxDisposal::Push(change_op_named(op@))
        }),
{
    let change_op = change_op_of(op);
    match change_op {
        ChangeOp::Upsert => if row_exists {
            OutboxDisposal::Push(ChangeOp::Upsert)
        } else {
            OutboxDisposal::DropStale
        },
        ChangeOp::Delete => OutboxDisposal::Push(ChangeOp::Delete),
    }
}

/// The id of a push batch: the lower-case hexadecimal SHA-256 of the batch's JSON.
pub fn batch_id(payload: &[u8]) -> (r: String)
    ensures
        r@ == hex_lower(sha256_of(payload@)),
{
    let digest = sha256(payload);
    hex_encode(digest.as_slice())
}

// ---------------------------------------------------------------- media blobs

/// The content hash of a media blob: `sha256:` and the lower-case hex SHA-256 of its bytes.
pub open spec fn media_hash_of(bytes: Seq<u8>) -> Seq<char> {
    "sha256:"@ + hex_lower(sha256_of(bytes))
}

/// The content hash of a media blob.
pub fn media_hash(bytes: &[u8]) -> (r: String)
    ensures
        r@ == media_hash_of(bytes@),
{
    let h = batch_id(bytes);
    let mut r = owned("sha256:");
    crate::text::push_str(&mut r, h.as_str());
    r
}

/// The URL of a media blob on the sync server: the `/media/` endpoint and the hash.
pub fn media_url(base_url: &str, hash: &str) -> (r: String)
    ensures
        r@ == crate::sync_http::endpoint(base_url@, "/media/"@) + hash@,
{
    let mut r = crate::sync_http::endpoint_url(base_url, "/media/");
    crate::text::push_str(&mut r, hash);
    r
}

/// The blob a pushed media change uploads, when the media policy is `auto`: the content hash
/// and file path of a `media_items` change whose data holds both.
pub fn media_blob_to_upload(policy: &str, entity: &str, content_hash: Option<String>, file_path: Option<String>) -> (r: Option<(String, String)>)
    ensures
        r is Some <==> (policy@ == "auto"@ && entity@ == "media_items"@ && content_hash is Some && file_path is Some),
        r matches Some((h, p)) ==> content_hash == Some(h) && file_path == Some(p),
{
    if !str_eq(policy, "auto") || !str_eq(entity, "media_items") {
        return None;
    }
    match (content_hash, file_path) {
        (Some(h), Some(p)) => Some((h, p)),
        _ => None,
    }
}

/// Whether a media blob is fetched when a change refers to it: only under the `on_demand`
/// policy, and only with the server, key and device credentials all at hand.
pub fn fetches_media_on_demand(policy: &str, has_server: bool, has_key: bool, has_device_id: bool, has_device_token: bool) -> (r: bool)
    ensures
        r == (policy@ == "on_demand"@ && has_server && has_key && has_device_id && has_device_token),
{
    str_eq(policy, "on_demand") && has_server && has_key && has_device_id && has_device_token
}

// ---------------------------------------------------------------- pushed tables

/// The entities whose rows a push reads: each lives in a table of the same name.
pub open spec fn pushed_tables() -> Seq<Seq<char>> {
    seq![
        "entries"@,
        "tags"@,
        "entry_tags"@,
        "goals"@,
        "goal_tags"@,
        "goal_instances"@,
        "goal_instance_tags"@,
        "tasks"@,
        "task_tags"@,
        "subtasks"@,
        "media_items"@,
        "audio_transcriptions"@,
        "canvases"@,
        "bookmarks"@,
        "resource_links"@,
        "bookmark_tags"@,
        "activities"@,
    ]
}

/// The table a pushed entity's rows are read from (`None` for an entity that is not pushed,
/// whose queued writes are dropped).
pub fn pushed_table(entity: &str) -> (r: Option<&'static str>)
    ensures
        match r {
            Some(t) => pushed_tables().contains(entity@) && t@ == entity@,
            None => !pushed_tables().contains(entity@),
        },
{
    let names: [&'static str; 17] = [
        "entries",
        "tags",
        "entry_tags",
        "goals",
        "goal_tags",
        "goal_instances",
        "goal_instance_tags",
        "tasks",
        "task_tags",
        "subtasks",
        "media_items",
        "audio_transcriptions",
        "canvases",
        "bookmarks",
        "resource_links",
        "bookmark_tags",
        "activities",
    ];
    proof {
        reveal_strlit("entries");
        reveal_strlit("tags");
        reveal_strlit("entry_tags");
        reveal_strlit("goals");
        reveal_strlit("goal_tags");
        reveal_strlit("goal_instances");
        reveal_strlit("goal_instance_tags");
        reveal_strlit("tasks");
        reveal_strlit("task_tags");
        reveal_strlit("subtasks");
        reveal_strlit("media_items");
        reveal_strlit("audio_transcriptions");
        reveal_strlit("canvases");
        reveal_strlit("bookmarks");
        reveal_strlit("resource_links");
        reveal_strlit("bookmark_tags");
        reveal_strlit("activities");
        assert(crate::fields::str_views(names@) =~= pushed_tables());
    }
    let mut i: usize = 0;
    while i < 17
        invariant
            i <= 17,
            crate::fields::str_views(names@) == pushed_tables(),
            forall|k: int| 0 <= k < i ==> pushed_tables()[k] != entity@,
        decreases 17 - i,
    {
        if str_eq(names[i], entity) {
            assert(pushed_tables()[i as int] == entity@);
            return Some(names[i]);
        }
        i = i + 1;
    }
    None
}

} // verus!
