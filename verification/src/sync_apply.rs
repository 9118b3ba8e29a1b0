//! Applying a pulled change: which table an entity lives in, the last-write-wins decision,
//! and the values an upsert writes.

use vstd::prelude::*;
use crate::error::{error_detail, AppError};
use crate::sync_types::ChangeOp;
use crate::text::{owned, str_eq};

verus! {

/// The entities that sync writes into a table of the same name.
pub open spec fn synced_tables() -> Seq<Seq<char>> {
    seq![
        "entries"@,
        "tags"@,
        "entry_tags"@,
        "goals"@,
        "goal_tags"@,
        "goal_instances"@,
        "goal_instance_tags"@,
        "tasks"@,
        "task_tags"@,
        "subtasks"@,
        "media_items"@,
        "audio_transcriptions"@,
        "canvases"@,
        "bookmarks"@,
        "bookmark_tags"@,
    ]
}

/// The table a synced entity lives in: its own name, for the entities sync writes to.
pub open spec fn table_of(entity: Seq<char>) -> Option<Seq<char>> {
    if synced_tables().contains(entity) {
        Some(entity)
    } else {
        None
    }
}

/// The table a synced entity lives in (`None` for an entity this version does not apply).
pub fn entity_to_table(entity: &str) -> (r: Option<&'static str>)
    ensures
        match r {
            Some(t) => table_of(entity@) == Some(t@),
            None => table_of(entity@) is None,
        },
{
    let names: [&'static str; 15] = [
        "entries",
        "tags",
        "entry_tags",
        "goals",
        "goal_tags",
        "goal_instances",
        "goal_instance_tags",
        "tasks",
        "task_tags",
        "subtasks",
        "media_items",
        "audio_transcriptions",
        "canvases",
        "bookmarks",
        "bookmark_tags",
    ];
    proof {
        reveal_strlit("entries");
        reveal_strlit("tags");
        reveal_strlit("entry_tags");
        reveal_strlit("goals");
        reveal_strlit("goal_tags");
        reveal_strlit("goal_instances");
        reveal_strlit("goal_instance_tags");
        reveal_strlit("tasks");
        reveal_strlit("task_tags");
        reveal_strlit("subtasks");
        reveal_strlit("media_items");
        reveal_strlit("audio_transcriptions");
        reveal_strlit("canvases");
        reveal_strlit("bookmarks");
        reveal_strlit("bookmark_tags");
        assert(crate::fields::str_views(names@) =~= synced_tables());
    }
    let mut i: usize = 0;
    while i < 15
        invariant
            i <= 15,
            crate::fields::str_views(names@) == synced_tables(),
            forall|k: int| 0 <= k < i ==> synced_tables()[k] != entity@,
        decreases 15 - i,
    {
        if str_eq(names[i], entity) {
            assert(synced_tables()[i as int] == entity@);
            return Some(names[i]);
        }
        i = i + 1;
    }
    assert(!synced_tables().contains(entity@));
    None
}

/// What applying a pulled change does.
#[derive(Debug, Clone, Copy, PartialEq, Eq, Structural)]
pub enum ApplyStep {
    /// Nothing: the local row is as new or newer, or there is nothing to write.
    Skip,
    /// The upsert data is not a JSON object: the change is refused.
    RejectData,
    /// Write the journal entry.
    UpsertEntry,
    /// Write the tag.
    UpsertTag,
    /// Keep the data of an entity this version cannot write, to apply it later.
    StoreUnknown,
    /// Mark the row deleted.
    SoftDelete,
}

/// The last-write-wins decision for a pulled change: a change no newer than the local row is
/// skipped; an upsert writes entries and tags into their tables and keeps anything else for
/// later, and is refused when its data is not an object; a delete marks a row of a known table
/// deleted.
pub open spec fn apply_decision(local_updated_at: Option<i64>, updated_at: i64, op: ChangeOp, data: Option<bool>, entity: Seq<char>) -> ApplyStep {
    if local_updated_at matches Some(t) && updated_at <= t {
        ApplyStep::Skip
    } else {
        match op {
            ChangeOp::Upsert => match data {
                None => ApplyStep::Skip,
                Some(is_object) => if !is_object {
                    ApplyStep::RejectData
                } else if entity == "entries"@ {
                    ApplyStep::UpsertEntry
                } else if entity == "tags"@ {
                    ApplyStep::UpsertTag
                } else {
                    ApplyStep::StoreUnknown
                },
            },
            ChangeOp::Delete => if table_of(entity) is Some {
                ApplyStep::SoftDelete
            } else {
                ApplyStep::Skip
            },
        }
    }
}

/// Decides what applying a pulled change does, given the local row's sync timestamp (`None`
/// when there is no row or the entity has no table), the change, and for an upsert whether its
/// data is a JSON object (`None` when it carries no data).
pub fn decide_apply(local_updated_at: Option<i64>, updated_at: i64, op: ChangeOp, data_is_object: Option<bool>, entity: &str) -> (r: ApplyStep)
    ensures
        r == apply_decision(local_updated_at, updated_at, op, data_is_object, entity@),
{
    if let Some(t) = local_updated_at {
        if updated_at <= t {
            return ApplyStep::Skip;
        }
    }
    match op {
        ChangeOp::Upsert => match data_is_object {
            None => ApplyStep::Skip,
            Some(is_object) => if !is_object {
                ApplyStep::RejectData
            } else if str_eq(entity, "entries") {
                ApplyStep::UpsertEntry
            } else if str_eq(entity, "tags") {
                ApplyStep::UpsertTag
            } else {
                ApplyStep::StoreUnknown
            },
        },
        ChangeOp::Delete => if entity_to_table(entity).is_some() {
            ApplyStep::SoftDelete
        } else {
            ApplyStep::Skip
        },
    }
}

/// Last write wins: a change that is not newer than the local row changes nothing, and a
/// newer deletion of a row of a synced table marks it deleted.
pub proof fn law_last_write_wins(local: i64, updated_at: i64, op: ChangeOp, data: Option<bool>, entity: Seq<char>)
    ensures
        updated_at <= local ==> apply_decision(Some(local), updated_at, op, data, entity) == ApplyStep::Skip,
        updated_at > local && op == ChangeOp::Delete && synced_tables().contains(entity) ==> apply_decision(
            Some(local),
            updated_at,
            op,
            data,
            entity,
        ) == ApplyStep::SoftDelete,
{
}

/// The error for upsert data that is not a JSON object.
pub fn upsert_data_error() -> (r: AppError)
    ensures
        r is Sync,
        error_detail(r) == "upsert data must be a JSON object"@,
{
    AppError::Sync(owned("upsert data must be a JSON object"))
}

// ---------------------------------------------------------------- upsert values

/// A field value of a change's JSON data, as far as an upsert reads it: text, a flag, or
/// anything else (a number, null, an array or an object).
#[derive(Debug, Clone)]
pub enum JsonScalar {
    Text(String),
    Bool(bool),
    Other,
}

/// A change's JSON data: an object's fields (key and value, in order), or something that is
/// not an object.
#[derive(Debug, Clone)]
pub enum ChangeData {
    Object(Vec<(String, JsonScalar)>),
    NotObject,
}

/// The value under `key` among the fields; when a key repeats, the last one counts (as a JSON
/// object read into a map keeps the last).
pub open spec fn field_value(fields: Seq<(String, JsonScalar)>, key: Seq<char>) -> Option<JsonScalar>
    decreases fields.len(),
{
    if fields.len() == 0 {
        None
    } else if fields.last().0@ == key {
        Some(fields.last().1)
    } else {
        field_value(fields.drop_last(), key)
    }
}

/// The text under `key`, when the value there is text.
pub open spec fn text_field(fields: Seq<(String, JsonScalar)>, key: Seq<char>) -> Option<Seq<char>> {
    match field_value(fields, key) {
        Some(JsonScalar::Text(t)) => Some(t@),
        _ => None,
    }
}

/// The flag under `key`, when the value there is a flag.
pub open spec fn bool_field(fields: Seq<(String, JsonScalar)>, key: Seq<char>) -> Option<bool> {
    match field_value(fields, key) {
        Some(JsonScalar::Bool(b)) => Some(b),
        _ => None,
    }
}

/// The view of an optional string.
pub open spec fn opt_view(o: Option<String>) -> Option<Seq<char>> {
    match o {
        Some(s) => Some(s@),
        None => None,
    }
}

fn lookup<'a>(fields: &'a Vec<(String, JsonScalar)>, key: &str) -> (r: Option<&'a JsonScalar>)
    ensures
        match field_value(fields@, key@) {
            Some(v) => r == Some(&v),
            None => r is None,
        },
{
    let mut found: Option<&JsonScalar> = None;
    let mut i: usize = 0;
    while i < fields.len()
        invariant
            i <= fields@.len(),
            match field_value(fields@.take(i as int), key@) {
                Some(v) => found == Some(&v),
                None => found is None,
            },
        decreases fields@.len() - i,
    {
        assert(fields@.take(i + 1).drop_last() =~= fields@.take(i as int));
        assert(fields@.take(i + 1).last() == fields@[i as int]);
        if str_eq(fields[i].0.as_str(), key) {
            found = Some(&fields[i].1);
        }
        i = i + 1;
    }
    assert(fields@.take(fields@.len() as int) =~= fields@);
    found
}

/// The text under `key`, when the value there is text.
pub fn get_text(fields: &Vec<(String, JsonScalar)>, key: &str) -> (r: Option<String>)
    ensures
        opt_view(r) == text_field(fields@, key@),
{
    match lookup(fields, key) {
        Some(JsonScalar::Text(t)) => Some(t.clone()),
        _ => None,
    }
}

/// The flag under `key`, when the value there is a flag.
pub fn get_bool(fields: &Vec<(String, JsonScalar)>, key: &str) -> (r: Option<bool>)
    ensures
        r == bool_field(fields@, key@),
{
    match lookup(fields, key) {
        Some(JsonScalar::Bool(b)) => Some(*b),
        _ => None,
    }
}

/// The columns an upsert of a journal entry writes.
#[derive(Debug, Clone)]
pub struct EntryUpsert {
    pub id: String,
    pub document: String,
    pub created_at: String,
    pub is_pinned: i64,
    pub is_archived: i64,
    pub is_deleted: i64,
    pub updated_at: String,
    pub deleted_at: Option<String>,
    pub sync_id: String,
    pub sync_updated_at: i64,
    pub extra: String,
}

/// The columns an upsert of a tag writes.
#[derive(Debug, Clone)]
pub struct TagUpsert {
    pub id: String,
    pub name: String,
    pub created_at: String,
    pub updated_at: String,
    pub deleted_at: Option<String>,
    pub sync_id: String,
    pub sync_updated_at: i64,
    pub extra: String,
}

/// A text field, or its default when absent.
pub open spec fn text_or(v: Option<String>, default: Seq<char>) -> Seq<char> {
    match v {
        Some(s) => s@,
        None => default,
    }
}

/// A text field's view, or its default when absent.
pub open spec fn text_or_view(v: Option<Seq<char>>, default: Seq<char>) -> Seq<char> {
    match v {
        Some(s) => s,
        None => default,
    }
}

/// A flag as the database stores it, absent counting as false.
pub open spec fn flag_or_false(v: Option<bool>) -> i64 {
    if v == Some(true) { 1 } else { 0 }
}

fn text_or_exec(v: Option<String>, default: &str) -> (r: String)
    ensures
        r@ == text_or(v, default@),
{
    match v {
        Some(s) => s,
        None => owned(default),
    }
}

fn flag(v: Option<bool>) -> (r: i64)
    ensures
        r == flag_or_false(v),
{
    match v {
        Some(true) => 1,
        _ => 0,
    }
}

/// The columns of a journal-entry upsert from the fields found in the change's data: the id
/// defaults to the sync id, texts to empty, flags to false, the extra data to `{}`.
pub fn entry_upsert_values(
    entity_id: &str,
    updated_at: i64,
    id: Option<String>,
    document: Option<String>,
    created_at: Option<String>,
    is_pinned: Option<bool>,
    is_archived: Option<bool>,
    is_deleted: Option<bool>,
    updated_at_text: Option<String>,
    deleted_at: Option<String>,
    extra: Option<String>,
) -> (r: EntryUpsert)
    ensures
        r.id@ == text_or(id, entity_id@),
        r.document@ == text_or(document, ""@),
        r.created_at@ == text_or(created_at, ""@),
        r.is_pinned == flag_or_false(is_pinned),
        r.is_archived == flag_or_false(is_archived),
        r.is_deleted == flag_or_false(is_deleted),
        r.updated_at@ == text_or(updated_at_text, ""@),
        r.deleted_at == deleted_at,
        r.sync_id@ == entity_id@,
        r.sync_updated_at == updated_at,
        r.extra@ == text_or(extra, "{}"@),
{
    EntryUpsert {
        id: text_or_exec(id, entity_id),
        document: text_or_exec(document, ""),
        created_at: text_or_exec(created_at, ""),
        is_pinned: flag(is_pinned),
        is_archived: flag(is_archived),
        is_deleted: flag(is_deleted),
        updated_at: text_or_exec(updated_at_text, ""),
        deleted_at,
        sync_id: owned(entity_id),
        sync_updated_at: updated_at,
        extra: text_or_exec(extra, "{}"),
    }
}

/// The columns of a tag upsert from the fields found in the change's data, with the same
/// defaults as an entry.
pub fn tag_upsert_values(
    entity_id: &str,
    updated_at: i64,
    id: Option<String>,
    name: Option<String>,
    created_at: Option<String>,
    updated_at_text: Option<String>,
    deleted_at: Option<String>,
    extra: Option<String>,
) -> (r: TagUpsert)
    ensures
        r.id@ == text_or(id, entity_id@),
        r.name@ == text_or(name, ""@),
        r.created_at@ == text_or(created_at, ""@),
        r.updated_at@ == text_or(updated_at_text, ""@),
        r.deleted_at == deleted_at,
        r.sync_id@ == entity_id@,
        r.sync_updated_at == updated_at,
        r.extra@ == text_or(extra, "{}"@),
{
    TagUpsert {
        id: text_or_exec(id, entity_id),
        name: text_or_exec(name, ""),
        created_at: text_or_exec(created_at, ""),
        updated_at: text_or_exec(updated_at_text, ""),
        deleted_at,
        sync_id: owned(entity_id),
        sync_updated_at: updated_at,
        extra: text_or_exec(extra, "{}"),
    }
}

/// The journal-entry upsert a change's fields ask for: `entry_upsert_values` of the fields
/// `id`, `document`, `created_at`, `is_pinned`, `is_archived`, `is_deleted`, `updated_at`,
/// `deleted_at` and `_extra`.
pub open spec fn entry_upsert_of(u: EntryUpsert, entity_id: Seq<char>, updated_at: i64, f: Seq<(String, JsonScalar)>) -> bool {
    &&& u.id@ == text_or_view(text_field(f, "id"@), entity_id)
    &&& u.document@ == text_or_view(text_field(f, "document"@), ""@)
    &&& u.created_at@ == text_or_view(text_field(f, "created_at"@), ""@)
    &&& u.is_pinned == flag_or_false(bool_field(f, "is_pinned"@))
    &&& u.is_archived == flag_or_false(bool_field(f, "is_archived"@))
    &&& u.is_deleted == flag_or_false(bool_field(f, "is_deleted"@))
    &&& u.updated_at@ == text_or_view(text_field(f, "updated_at"@), ""@)
    &&& opt_view(u.deleted_at) == text_field(f, "deleted_at"@)
    &&& u.sync_id@ == entity_id
    &&& u.sync_updated_at == updated_at
    &&& u.extra@ == text_or_view(text_field(f, "_extra"@), "{}"@)
}

/// The tag upsert a change's fields ask for: `tag_upsert_values` of the fields `id`, `name`,
/// `created_at`, `updated_at`, `deleted_at` and `_extra`.
pub open spec fn tag_upsert_of(u: TagUpsert, entity_id: Seq<char>, updated_at: i64, f: Seq<(String, JsonScalar)>) -> bool {
    &&& u.id@ == text_or_view(text_field(f, "id"@), entity_id)
    &&& u.name@ == text_or_view(text_field(f, "name"@), ""@)
    &&& u.created_at@ == text_or_view(text_field(f, "created_at"@), ""@)
    &&& u.updated_at@ == text_or_view(text_field(f, "updated_at"@), ""@)
    &&& opt_view(u.deleted_at) == text_field(f, "deleted_at"@)
    &&& u.sync_id@ == entity_id
    &&& u.sync_updated_at == updated_at
    &&& u.extra@ == text_or_view(text_field(f, "_extra"@), "{}"@)
}

/// The journal-entry upsert that a change's data asks for; a `Sync` error exactly when the
/// data is not a JSON object.
pub fn entry_upsert_from_json(data: &ChangeData, entity_id: &str, updated_at: i64) -> (r: Result<EntryUpsert, AppError>)
    ensures
        r is Ok <==> data is Object,
        r matches Ok(u) ==> (data matches ChangeData::Object(f) && entry_upsert_of(u, entity_id@, updated_at, f@)),
        r matches Err(e) ==> e is Sync && error_detail(e) == "entries: object expected"@,
{
    match data {
        ChangeData::NotObject => Err(AppError::Sync(owned("entries: object expected"))),
        ChangeData::Object(f) => Ok(entry_upsert_values(
            entity_id,
            updated_at,
            get_text(f, "id"),
            get_text(f, "document"),
            get_text(f, "created_at"),
            get_bool(f, "is_pinned"),
            get_bool(f, "is_archived"),
            get_bool(f, "is_deleted"),
            get_text(f, "updated_at"),
            get_text(f, "deleted_at"),
            get_text(f, "_extra"),
        )),
    }
}

/// The tag upsert that a change's data asks for; a `Sync` error exactly when the data is not a
/// JSON object.
pub fn tag_upsert_from_json(data: &ChangeData, entity_id: &str, updated_at: i64) -> (r: Result<TagUpsert, AppError>)
    ensures
        r is Ok <==> data is Object,
        r matches Ok(u) ==> (data matches ChangeData::Object(f) && tag_upsert_of(u, entity_id@, updated_at, f@)),
        r matches Err(e) ==> e is Sync && error_detail(e) == "tags: object expected"@,
{
    match data {
        ChangeData::NotObject => Err(AppError::Sync(owned("tags: object expected"))),
        ChangeData::Object(f) => Ok(tag_upsert_values(
            entity_id,
            updated_at,
            get_text(f, "id"),
            get_text(f, "name"),
            get_text(f, "created_at"),
            get_text(f, "updated_at"),
            get_text(f, "deleted_at"),
            get_text(f, "_extra"),
        )),
    }
}

/// Where a newer upsert goes: a journal entry's data is written as an entry, a tag's as a tag,
/// any other entity's data is kept for later, and data that is not an object is refused;
/// an upsert without data writes nothing.
pub proof fn law_newer_upsert_routes(local: Option<i64>, updated_at: i64, data: Option<bool>, entity: Seq<char>)
    requires
        local matches Some(t) ==> updated_at > t,
    ensures
        data == Some(true) && entity == "entries"@ ==> apply_decision(local, updated_at, ChangeOp::Upsert, data, entity) == ApplyStep::UpsertEntry,
        data == Some(true) && entity == "tags"@ ==> apply_decision(local, updated_at, ChangeOp::Upsert, data, entity) == ApplyStep::UpsertTag,
        data == Some(true) && entity != "entries"@ && entity != "tags"@ ==> apply_decision(local, updated_at, ChangeOp::Upsert, data, entity) == ApplyStep::StoreUnknown,
        data == Some(false) ==> apply_decision(local, updated_at, ChangeOp::Upsert, data, entity) == ApplyStep::RejectData,
        data is None ==> apply_decision(local, updated_at, ChangeOp::Upsert, data, entity) == ApplyStep::Skip,
{
    reveal_strlit("entries");
    reveal_strlit("tags");
    assert("entries"@.len() != "tags"@.len());
}

} // verus!
