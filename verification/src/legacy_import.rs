//! Import of a January 2026 Aether database: the schema check, the timestamp normalisation,
//! and the rows as they are written into the current database.

use vstd::prelude::*;
use crate::error::{error_detail, AppError};
use crate::fields::{contains_string, join_spec, str_views, join_strs};
use crate::text::{owned, push_str};

verus! {

/// How many rows of each kind a legacy database holds, or how many an import wrote.
#[derive(Debug, Clone, PartialEq, Eq, Structural)]
pub struct LegacyImportCounts {
    pub entries: u64,
    pub tags: u64,
    pub goals: u64,
    pub goal_instances: u64,
    pub tasks: u64,
    pub subtasks: u64,
    pub entry_tags: u64,
    pub goal_tags: u64,
    pub goal_instance_tags: u64,
    pub task_tags: u64,
}

impl Default for LegacyImportCounts {
    /// All counts zero.
    fn default() -> (r: Self)
        ensures
            r == (LegacyImportCounts {
                entries: 0,
                tags: 0,
                goals: 0,
                goal_instances: 0,
                tasks: 0,
                subtasks: 0,
                entry_tags: 0,
                goal_tags: 0,
                goal_instance_tags: 0,
                task_tags: 0,
            }),
    {
        LegacyImportCounts {
            entries: 0,
            tags: 0,
            goals: 0,
            goal_instances: 0,
            tasks: 0,
            subtasks: 0,
            entry_tags: 0,
            goal_tags: 0,
            goal_instance_tags: 0,
            task_tags: 0,
        }
    }
}

/// What an import of the database at `source_path` would bring.
#[derive(Debug, Clone)]
pub struct LegacyImportPreview {
    pub source_path: String,
    pub counts: LegacyImportCounts,
}

/// A legacy journal entry.
#[derive(Debug, Clone)]
pub struct EntryRow {
    pub id: String,
    pub document: String,
    pub created_at: String,
    pub is_pinned: i64,
    pub is_archived: i64,
    pub is_deleted: i64,
    pub updated_at: String,
    pub deleted_at: Option<String>,
}

/// A legacy tag.
#[derive(Debug, Clone)]
pub struct TagRow {
    pub id: String,
    pub name: String,
    pub created_at: String,
    pub updated_at: String,
    pub deleted_at: Option<String>,
}

/// A legacy goal.
#[derive(Debug, Clone)]
pub struct GoalRow {
    pub id: String,
    pub name: String,
    pub description: Option<String>,
    pub is_non_recurring: i64,
    pub recurrence_type: Option<String>,
    pub recurrence_interval: Option<i64>,
    pub recurrence_anchor: Option<String>,
    pub recurrence_meta: Option<String>,
    pub timezone: String,
    pub created_at: String,
    pub updated_at: String,
    pub deleted_at: Option<String>,
}

/// A legacy goal instance.
#[derive(Debug, Clone)]
pub struct GoalInstanceRow {
    pub id: String,
    pub goal_id: String,
    pub period_start: String,
    pub period_end: Option<String>,
    pub status: String,
    pub created_at: String,
}

/// A legacy task.
#[derive(Debug, Clone)]
pub struct TaskRow {
    pub id: String,
    pub title: String,
    pub description: Option<String>,
    pub is_completed: i64,
    pub due_date: Option<String>,
    pub goal_instance_id: Option<String>,
    pub goal_id: Option<String>,
    pub created_at: String,
    pub updated_at: String,
    pub deleted_at: Option<String>,
}

/// A legacy subtask.
#[derive(Debug, Clone)]
pub struct SubtaskRow {
    pub id: String,
    pub title: String,
    pub is_completed: i64,
    pub task_id: String,
    pub order_index: i64,
    pub created_at: String,
    pub updated_at: String,
    pub deleted_at: Option<String>,
}

/// A legacy tag relation: the tagged item and the tag.
#[derive(Debug, Clone)]
pub struct RelationRow {
    pub parent_id: String,
    pub tag_id: String,
}

/// Everything read from a legacy database.
#[derive(Debug)]
pub struct LegacyData {
    pub entries: Vec<EntryRow>,
    pub tags: Vec<TagRow>,
    pub goals: Vec<GoalRow>,
    pub goal_instances: Vec<GoalInstanceRow>,
    pub tasks: Vec<TaskRow>,
    pub subtasks: Vec<SubtaskRow>,
    pub entry_tags: Vec<RelationRow>,
    pub goal_tags: Vec<RelationRow>,
    pub goal_instance_tags: Vec<RelationRow>,
    pub task_tags: Vec<RelationRow>,
}

impl LegacyData {
    /// The number of rows of each kind.
    pub fn counts(&self) -> (r: LegacyImportCounts)
        ensures
            r.entries == self.entries@.len(),
            r.tags == self.tags@.len(),
            r.goals == self.goals@.len(),
            r.goal_instances == self.goal_instances@.len(),
            r.tasks == self.tasks@.len(),
            r.subtasks == self.subtasks@.len(),
            r.entry_tags == self.entry_tags@.len(),
            r.goal_tags == self.goal_tags@.len(),
            r.goal_instance_tags == self.goal_instance_tags@.len(),
            r.task_tags == self.task_tags@.len(),
    {
        LegacyImportCounts {
            entries: self.entries.len() as u64,
            tags: self.tags.len() as u64,
            goals: self.goals.len() as u64,
            goal_instances: self.goal_instances.len() as u64,
            tasks: self.tasks.len() as u64,
            subtasks: self.subtasks.len() as u64,
            entry_tags: self.entry_tags.len() as u64,
            goal_tags: self.goal_tags.len() as u64,
            goal_instance_tags: self.goal_instance_tags.len() as u64,
            task_tags: self.task_tags.len() as u64,
        }
    }
}

/// The preview of an import: the source path and the counts of what it holds.
pub fn preview_of(source_path: &str, data: &LegacyData) -> (r: LegacyImportPreview)
    ensures
        r.source_path@ == source_path@,
        r.counts.entries == data.entries@.len(),
        r.counts.tags == data.tags@.len(),
        r.counts.goals == data.goals@.len(),
        r.counts.goal_instances == data.goal_instances@.len(),
        r.counts.tasks == data.tasks@.len(),
        r.counts.subtasks == data.subtasks@.len(),
        r.counts.entry_tags == data.entry_tags@.len(),
        r.counts.goal_tags == data.goal_tags@.len(),
        r.counts.goal_instance_tags == data.goal_instance_tags@.len(),
        r.counts.task_tags == data.task_tags@.len(),
{
    LegacyImportPreview { source_path: owned(source_path), counts: data.counts() }
}

// ---------------------------------------------------------------- schema

/// The tables a legacy database must have, in the order they are reported missing.
pub open spec fn required_tables() -> Seq<Seq<char>> {
    seq![
        "entries"@,
        "tags"@,
        "goals"@,
        "goal_instances"@,
        "tasks"@,
        "sub_tasks"@,
        "entry_tags"@,
        "goal_tags"@,
        "goal_instance_tags"@,
        "task_tags"@,
    ]
}

/// The required tables that are not among `tables`, in the required order.
pub open spec fn missing_tables(tables: Seq<Seq<char>>) -> Seq<Seq<char>> {
    required_tables().filter(|t: Seq<char>| !tables.contains(t))
}

/// The tables a legacy database must have.
pub fn required_table_names() -> (r: Vec<&'static str>)
    ensures
        str_views(r@) == required_tables(),
{
    let r = vec![
        "entries",
        "tags",
        "goals",
        "goal_instances",
        "tasks",
        "sub_tasks",
        "entry_tags",
        "goal_tags",
        "goal_instance_tags",
        "task_tags",
    ];
    proof {
        reveal_strlit("entries");
        reveal_strlit("tags");
        reveal_strlit("goals");
        reveal_strlit("goal_instances");
        reveal_strlit("tasks");
        reveal_strlit("sub_tasks");
        reveal_strlit("entry_tags");
        reveal_strlit("goal_tags");
        reveal_strlit("goal_instance_tags");
        reveal_strlit("task_tags");
        assert(str_views(r@) =~= required_tables());
    }
    r
}

/// The message when required tables are missing.
pub open spec fn missing_tables_message(missing: Seq<Seq<char>>) -> Seq<char> {
    "This is not a supported January 2026 Aether database; missing: "@ + join_spec(missing, ", "@)
}

/// Checks that a legacy database has every required table, given the names of its tables.
/// When some are missing, a `BadRequest` names them, comma-separated, in the required order.
pub fn verify_legacy_schema(tables: &Vec<String>) -> (r: Result<(), AppError>)
    ensures
        r is Ok <==> missing_tables(crate::fields::string_views(tables@)).len() == 0,
        r matches Err(e) ==> e is BadRequest && error_detail(e) == missing_tables_message(
            missing_tables(crate::fields::string_views(tables@)),
        ),
{
    let required = required_table_names();
    let ghost names = crate::fields::string_views(tables@);
    let mut missing: Vec<&str> = Vec::new();
    let mut i: usize = 0;
    while i < required.len()
        invariant
            i <= required@.len(),
            names == crate::fields::string_views(tables@),
            str_views(required@) == required_tables(),
            str_views(missing@) == str_views(required@).take(i as int).filter(|t: Seq<char>| !names.contains(t)),
        decreases required@.len() - i,
    {
        let name = required[i];
        let present = contains_string(tables, name);
        proof {
            let s = str_views(required@);
            assert(s.take(i + 1).drop_last() =~= s.take(i as int));
            assert(s.take(i + 1).last() == s[i as int]);
            reveal(Seq::filter);
        }
        if !present {
            missing.push(name);
        }
        assert(str_views(missing@) == str_views(required@).take(i + 1).filter(|t: Seq<char>| !names.contains(t)));
        i = i + 1;
    }
    assert(str_views(required@).take(required@.len() as int) =~= str_views(required@));
    if missing.len() == 0 {
        Ok(())
    } else {
        let list = join_strs(missing.as_slice(), ", ");
        let mut msg = owned("This is not a supported January 2026 Aether database; missing: ");
        push_str(&mut msg, list.as_str());
        proof {
            reveal_strlit(", ");
        }
        Err(AppError::BadRequest(msg))
    }
}

// ---------------------------------------------------------------- timestamps

/// What `chrono::DateTime::parse_from_rfc3339` gives for this text, taken to UTC: the RFC 3339
/// form with milliseconds and a `Z`, and the milliseconds since the Unix epoch.
pub uninterp spec fn rfc3339_utc(value: Seq<char>) -> Option<(Seq<char>, i64)>;

/// What `chrono::DateTime::parse_from_str` with the format `%Y-%m-%d %H:%M:%S%.f%:z` gives for
/// this text, taken to UTC as `rfc3339_utc` takes it.
pub uninterp spec fn legacy_format_utc(value: Seq<char>) -> Option<(Seq<char>, i64)>;

/// `chrono::DateTime::parse_from_rfc3339`; a parsed time is converted to UTC and written
/// back with `to_rfc3339_opts(SecondsFormat::Millis, true)` beside its `timestamp_millis`.
/// The result is named by `rfc3339_utc`.
#[verifier::external_body]
fn parse_rfc3339_utc(value: &str) -> (r: Option<(String, i64)>)
    ensures
        match r {
            Some((text, ms)) => rfc3339_utc(value@) == Some((text@, ms)),
            None => rfc3339_utc(value@) is None,
        },
{
    match chrono::DateTime::parse_from_rfc3339(value) {
        Ok(t) => {
            let u = t.with_timezone(&chrono::Utc);
            Some((u.to_rfc3339_opts(chrono::SecondsFormat::Millis, true), u.timestamp_millis()))
        },
        Err(_) => None,
    }
}

/// `chrono::DateTime::parse_from_str` with the format `%Y-%m-%d %H:%M:%S%.f%:z`; a parsed
/// time is converted as in `parse_rfc3339_utc`. The result is named by `legacy_format_utc`.
#[verifier::external_body]
fn parse_legacy_format_utc(value: &str) -> (r: Option<(String, i64)>)
    ensures
        match r {
            Some((text, ms)) => legacy_format_utc(value@) == Some((text@, ms)),
            None => legacy_format_utc(value@) is None,
        },
{
    match chrono::DateTime::parse_from_str(value, "%Y-%m-%d %H:%M:%S%.f%:z") {
        Ok(t) => {
            let u = t.with_timezone(&chrono::Utc);
            Some((u.to_rfc3339_opts(chrono::SecondsFormat::Millis, true), u.timestamp_millis()))
        },
        Err(_) => None,
    }
}

/// A legacy timestamp in UTC: read as RFC 3339, else in the legacy `2026-01-02 11:00:00.000+01:00`
/// form.
pub open spec fn normalized_ts(value: Seq<char>) -> Option<(Seq<char>, i64)> {
    match rfc3339_utc(value) {
        Some(x) => Some(x),
        None => legacy_format_utc(value),
    }
}

/// The UTC text of a timestamp that parses.
pub open spec fn ts_text(value: Seq<char>) -> Seq<char> {
    normalized_ts(value).unwrap().0
}

/// The milliseconds since the epoch of a timestamp that parses.
pub open spec fn ts_ms(value: Seq<char>) -> i64 {
    normalized_ts(value).unwrap().1
}

/// The detail of the error for a timestamp that does not parse.
pub open spec fn ts_error_detail(context: Seq<char>, value: Seq<char>) -> Seq<char> {
    "Unsupported legacy timestamp for "@ + context + ": "@ + value
}

/// Normalises a legacy timestamp to UTC RFC 3339 with milliseconds, with its milliseconds
/// since the epoch; a `BadRequest` naming `context` and the value when it parses in neither
/// form.
pub fn normalize_timestamp(value: &str, context: &str) -> (r: Result<(String, i64), AppError>)
    ensures
        match r {
            Ok((text, ms)) => normalized_ts(value@) == Some((text@, ms)),
            Err(e) => normalized_ts(value@) is None && e is BadRequest && error_detail(e) == ts_error_detail(context@, value@),
        },
{
    match parse_rfc3339_utc(value) {
        Some(x) => Ok(x),
        None => match parse_legacy_format_utc(value) {
            Some(x) => Ok(x),
            None => {
                let mut msg = owned("Unsupported legacy timestamp for ");
                push_str(&mut msg, context);
                push_str(&mut msg, ": ");
                push_str(&mut msg, value);
                Err(AppError::BadRequest(msg))
            },
        },
    }
}

/// An optional timestamp, normalised when present.
pub fn normalize_optional_timestamp(value: Option<String>, context: &str) -> (r: Result<Option<String>, AppError>)
    ensures
        match value {
            None => r == Ok::<Option<String>, AppError>(None),
            Some(v) => match r {
                Ok(Some(text)) => normalized_ts(v@) matches Some(n) && text@ == n.0,
                Ok(None) => false,
                Err(e) => normalized_ts(v@) is None && e is BadRequest && error_detail(e) == ts_error_detail(context@, v@),
            },
        },
{
    match value {
        None => Ok(None),
        Some(v) => {
            let (text, _) = normalize_timestamp(v.as_str(), context)?;
            Ok(Some(text))
        },
    }
}

// ---------------------------------------------------------------- rows

/// A timestamp field of a legacy row: what it is called in errors and its value, if any.
pub type TsField = (Seq<char>, Option<Seq<char>>);

/// The first of these timestamp fields that has a value that does not parse: its name and
/// value.
pub open spec fn first_failure(fields: Seq<TsField>) -> Option<(Seq<char>, Seq<char>)>
    decreases fields.len(),
{
    if fields.len() == 0 {
        None
    } else {
        match fields[0].1 {
            Some(v) => if normalized_ts(v) is None {
                Some((fields[0].0, v))
            } else {
                first_failure(fields.drop_first())
            },
            None => first_failure(fields.drop_first()),
        }
    }
}

/// The first failure among two lists of fields is that of the first list, if it has one.
pub proof fn lemma_first_failure_append(a: Seq<TsField>, b: Seq<TsField>)
    ensures
        first_failure(a + b) == (if first_failure(a) is Some { first_failure(a) } else { first_failure(b) }),
    decreases a.len(),
{
    if a.len() > 0 {
        assert((a + b).drop_first() =~= a.drop_first() + b);
        lemma_first_failure_append(a.drop_first(), b);
    } else {
        assert(a + b =~= b);
    }
}

/// `e` is the error for the failure `f`.
pub open spec fn failure_error(e: AppError, f: Option<(Seq<char>, Seq<char>)>) -> bool {
    f matches Some((context, value)) && e is BadRequest && error_detail(e) == ts_error_detail(context, value)
}

/// The view of an optional text.
pub open spec fn opt_view(o: Option<String>) -> Option<Seq<char>> {
    match o {
        Some(s) => Some(s@),
        None => None,
    }
}

/// `n` is `o` with its timestamp normalised.
pub open spec fn opt_normalized(o: Option<String>, n: Option<String>) -> bool {
    match o {
        None => n is None,
        Some(s) => n matches Some(t) && t@ == ts_text(s@),
    }
}

fn clone_opt(o: &Option<String>) -> (r: Option<String>)
    ensures
        r == *o,
{
    match o {
        Some(s) => Some(s.clone()),
        None => None,
    }
}

/// A row as it is written into the current database: its values with timestamps normalised,
/// the sync timestamp in milliseconds and whether it counts as deleted for sync (1 or 0).
#[derive(Debug, Clone)]
pub struct Prepared<T> {
    pub row: T,
    pub sync_updated_at: i64,
    pub deleted: i64,
}

// tags

/// The timestamp fields of a tag, in the order they are checked.
pub open spec fn tag_fields(r: TagRow) -> Seq<TsField> {
    seq![("tag created_at"@, Some(r.created_at@)), ("tag updated_at"@, Some(r.updated_at@)), ("tag deleted_at"@, opt_view(r.deleted_at))]
}

/// `p` is the tag `r` as it is written.
pub open spec fn tag_prepared(r: TagRow, p: Prepared<TagRow>) -> bool {
    &&& p.row.id == r.id && p.row.name == r.name
    &&& p.row.created_at@ == ts_text(r.created_at@) && p.row.updated_at@ == ts_text(r.updated_at@)
    &&& opt_normalized(r.deleted_at, p.row.deleted_at)
    &&& p.sync_updated_at == ts_ms(r.updated_at@)
    &&& p.deleted == (if r.deleted_at is Some { 1i64 } else { 0i64 })
}

fn prepare_tag(r: &TagRow) -> (out: Result<Prepared<TagRow>, AppError>)
    ensures
        out is Ok <==> first_failure(tag_fields(*r)) is None,
        out matches Ok(p) ==> tag_prepared(*r, p),
        out matches Err(e) ==> failure_error(e, first_failure(tag_fields(*r))),
{
    proof {
        reveal_with_fuel(first_failure, 4);
    }
    let (created_at, _) = normalize_timestamp(r.created_at.as_str(), "tag created_at")?;
    let (updated_at, updated_ms) = normalize_timestamp(r.updated_at.as_str(), "tag updated_at")?;
    let deleted_at = normalize_optional_timestamp(clone_opt(&r.deleted_at), "tag deleted_at")?;
    let deleted: i64 = if r.deleted_at.is_some() { 1 } else { 0 };
    Ok(Prepared {
        row: TagRow { id: r.id.clone(), name: r.name.clone(), created_at, updated_at, deleted_at },
        sync_updated_at: updated_ms,
        deleted,
    })
}

// entries

/// The timestamp fields of an entry, in the order they are checked.
pub open spec fn entry_fields(r: EntryRow) -> Seq<TsField> {
    seq![("entry created_at"@, Some(r.created_at@)), ("entry updated_at"@, Some(r.updated_at@)), ("entry deleted_at"@, opt_view(r.deleted_at))]
}

/// `p` is the entry `r` as it is written: it counts as deleted when flagged or when it has a
/// deletion time.
pub open spec fn entry_prepared(r: EntryRow, p: Prepared<EntryRow>) -> bool {
    &&& p.row.id == r.id && p.row.document == r.document
    &&& p.row.is_pinned == r.is_pinned && p.row.is_archived == r.is_archived && p.row.is_deleted == r.is_deleted
    &&& p.row.created_at@ == ts_text(r.created_at@) && p.row.updated_at@ == ts_text(r.updated_at@)
    &&& opt_normalized(r.deleted_at, p.row.deleted_at)
    &&& p.sync_updated_at == ts_ms(r.updated_at@)
    &&& p.deleted == (if r.is_deleted != 0 || r.deleted_at is Some { 1i64 } else { 0i64 })
}

fn prepare_entry(r: &EntryRow) -> (out: Result<Prepared<EntryRow>, AppError>)
    ensures
        out is Ok <==> first_failure(entry_fields(*r)) is None,
        out matches Ok(p) ==> entry_prepared(*r, p),
        out matches Err(e) ==> failure_error(e, first_failure(entry_fields(*r))),
{
    proof {
        reveal_with_fuel(first_failure, 4);
    }
    let (created_at, _) = normalize_timestamp(r.created_at.as_str(), "entry created_at")?;
    let (updated_at, updated_ms) = normalize_timestamp(r.updated_at.as_str(), "entry updated_at")?;
    let deleted_at = normalize_optional_timestamp(clone_opt(&r.deleted_at), "entry deleted_at")?;
    let deleted: i64 = if r.is_deleted != 0 || r.deleted_at.is_some() { 1 } else { 0 };
    Ok(Prepared {
        row: EntryRow {
            id: r.id.clone(),
            document: r.document.clone(),
            created_at,
            is_pinned: r.is_pinned,
            is_archived: r.is_archived,
            is_deleted: r.is_deleted,
            updated_at,
            deleted_at,
        },
        sync_updated_at: updated_ms,
        deleted,
    })
}

// goals

/// The timestamp fields of a goal, in the order they are checked.
pub open spec fn goal_fields(r: GoalRow) -> Seq<TsField> {
    seq![
        ("goal created_at"@, Some(r.created_at@)),
        ("goal updated_at"@, Some(r.updated_at@)),
        ("goal recurrence_anchor"@, opt_view(r.recurrence_anchor)),
        ("goal deleted_at"@, opt_view(r.deleted_at)),
    ]
}

/// `p` is the goal `r` as it is written.
pub open spec fn goal_prepared(r: GoalRow, p: Prepared<GoalRow>) -> bool {
    &&& p.row.id == r.id && p.row.name == r.name && p.row.description == r.description
    &&& p.row.is_non_recurring == r.is_non_recurring && p.row.recurrence_type == r.recurrence_type
    &&& p.row.recurrence_interval == r.recurrence_interval && p.row.recurrence_meta == r.recurrence_meta
    &&& p.row.timezone == r.timezone
    &&& p.row.created_at@ == ts_text(r.created_at@) && p.row.updated_at@ == ts_text(r.updated_at@)
    &&& opt_normalized(r.recurrence_anchor, p.row.recurrence_anchor)
    &&& opt_normalized(r.deleted_at, p.row.deleted_at)
    &&& p.sync_updated_at == ts_ms(r.updated_at@)
    &&& p.deleted == (if r.deleted_at is Some { 1i64 } else { 0i64 })
}

fn prepare_goal(r: &GoalRow) -> (out: Result<Prepared<GoalRow>, AppError>)
    ensures
        out is Ok <==> first_failure(goal_fields(*r)) is None,
        out matches Ok(p) ==> goal_prepared(*r, p),
        out matches Err(e) ==> failure_error(e, first_failure(goal_fields(*r))),
{
    proof {
        reveal_with_fuel(first_failure, 5);
    }
    let (created_at, _) = normalize_timestamp(r.created_at.as_str(), "goal created_at")?;
    let (updated_at, updated_ms) = normalize_timestamp(r.updated_at.as_str(), "goal updated_at")?;
    let recurrence_anchor = normalize_optional_timestamp(clone_opt(&r.recurrence_anchor), "goal recurrence_anchor")?;
    let deleted_at = normalize_optional_timestamp(clone_opt(&r.deleted_at), "goal deleted_at")?;
    let deleted: i64 = if r.deleted_at.is_some() { 1 } else { 0 };
    Ok(Prepared {
        row: GoalRow {
            id: r.id.clone(),
            name: r.name.clone(),
            description: clone_opt(&r.description),
            is_non_recurring: r.is_non_recurring,
            recurrence_type: clone_opt(&r.recurrence_type),
            recurrence_interval: r.recurrence_interval,
            recurrence_anchor,
            recurrence_meta: clone_opt(&r.recurrence_meta),
            timezone: r.timezone.clone(),
            created_at,
            updated_at,
            deleted_at,
        },
        sync_updated_at: updated_ms,
        deleted,
    })
}

// goal instances

/// The timestamp fields of a goal instance, in the order they are checked.
pub open spec fn goal_instance_fields(r: GoalInstanceRow) -> Seq<TsField> {
    seq![
        ("goal instance period_start"@, Some(r.period_start@)),
        ("goal instance period_end"@, opt_view(r.period_end)),
        ("goal instance created_at"@, Some(r.created_at@)),
    ]
}

/// `p` is the goal instance `r` as it is written: its sync time is its creation time, and it
/// is never deleted.
pub open spec fn goal_instance_prepared(r: GoalInstanceRow, p: Prepared<GoalInstanceRow>) -> bool {
    &&& p.row.id == r.id && p.row.goal_id == r.goal_id && p.row.status == r.status
    &&& p.row.period_start@ == ts_text(r.period_start@)
    &&& opt_normalized(r.period_end, p.row.period_end)
    &&& p.row.created_at@ == ts_text(r.created_at@)
    &&& p.sync_updated_at == ts_ms(r.created_at@)
    &&& p.deleted == 0
}

fn prepare_goal_instance(r: &GoalInstanceRow) -> (out: Result<Prepared<GoalInstanceRow>, AppError>)
    ensures
        out is Ok <==> first_failure(goal_instance_fields(*r)) is None,
        out matches Ok(p) ==> goal_instance_prepared(*r, p),
        out matches Err(e) ==> failure_error(e, first_failure(goal_instance_fields(*r))),
{
    proof {
        reveal_with_fuel(first_failure, 4);
    }
    let (period_start, _) = normalize_timestamp(r.period_start.as_str(), "goal instance period_start")?;
    let period_end = normalize_optional_timestamp(clone_opt(&r.period_end), "goal instance period_end")?;
    let (created_at, created_ms) = normalize_timestamp(r.created_at.as_str(), "goal instance created_at")?;
    Ok(Prepared {
        row: GoalInstanceRow {
            id: r.id.clone(),
            goal_id: r.goal_id.clone(),
            period_start,
            period_end,
            status: r.status.clone(),
            created_at,
        },
        sync_updated_at: created_ms,
        deleted: 0,
    })
}

// tasks

/// The timestamp fields of a task, in the order they are checked.
pub open spec fn task_fields(r: TaskRow) -> Seq<TsField> {
    seq![
        ("task created_at"@, Some(r.created_at@)),
        ("task updated_at"@, Some(r.updated_at@)),
        ("task due_date"@, opt_view(r.due_date)),
        ("task deleted_at"@, opt_view(r.deleted_at)),
    ]
}

/// `p` is the task `r` as it is written.
pub open spec fn task_prepared(r: TaskRow, p: Prepared<TaskRow>) -> bool {
    &&& p.row.id == r.id && p.row.title == r.title && p.row.description == r.description
    &&& p.row.is_completed == r.is_completed && p.row.goal_instance_id == r.goal_instance_id
    &&& p.row.goal_id == r.goal_id
    &&& p.row.created_at@ == ts_text(r.created_at@) && p.row.updated_at@ == ts_text(r.updated_at@)
    &&& opt_normalized(r.due_date, p.row.due_date)
    &&& opt_normalized(r.deleted_at, p.row.deleted_at)
    &&& p.sync_updated_at == ts_ms(r.updated_at@)
    &&& p.deleted == (if r.deleted_at is Some { 1i64 } else { 0i64 })
}

fn prepare_task(r: &TaskRow) -> (out: Result<Prepared<TaskRow>, AppError>)
    ensures
        out is Ok <==> first_failure(task_fields(*r)) is None,
        out matches Ok(p) ==> task_prepared(*r, p),
        out matches Err(e) ==> failure_error(e, first_failure(task_fields(*r))),
{
    proof {
        reveal_with_fuel(first_failure, 5);
    }
    let (created_at, _) = normalize_timestamp(r.created_at.as_str(), "task created_at")?;
    let (updated_at, updated_ms) = normalize_timestamp(r.updated_at.as_str(), "task updated_at")?;
    let due_date = normalize_optional_timestamp(clone_opt(&r.due_date), "task due_date")?;
    let deleted_at = normalize_optional_timestamp(clone_opt(&r.deleted_at), "task deleted_at")?;
    let deleted: i64 = if r.deleted_at.is_some() { 1 } else { 0 };
    Ok(Prepared {
        row: TaskRow {
            id: r.id.clone(),
            title: r.title.clone(),
            description: clone_opt(&r.description),
            is_completed: r.is_completed,
            due_date,
            goal_instance_id: clone_opt(&r.goal_instance_id),
            goal_id: clone_opt(&r.goal_id),
            created_at,
            updated_at,
            deleted_at,
        },
        sync_updated_at: updated_ms,
        deleted,
    })
}

// subtasks

/// The timestamp fields of a subtask, in the order they are checked.
pub open spec fn subtask_fields(r: SubtaskRow) -> Seq<TsField> {
    seq![("subtask created_at"@, Some(r.created_at@)), ("subtask updated_at"@, Some(r.updated_at@)), ("subtask deleted_at"@, opt_view(r.deleted_at))]
}

/// `p` is the subtask `r` as it is written.
pub open spec fn subtask_prepared(r: SubtaskRow, p: Prepared<SubtaskRow>) -> bool {
    &&& p.row.id == r.id && p.row.title == r.title && p.row.is_completed == r.is_completed
    &&& p.row.task_id == r.task_id && p.row.order_index == r.order_index
    &&& p.row.created_at@ == ts_text(r.created_at@) && p.row.updated_at@ == ts_text(r.updated_at@)
    &&& opt_normalized(r.deleted_at, p.row.deleted_at)
    &&& p.sync_updated_at == ts_ms(r.updated_at@)
    &&& p.deleted == (if r.deleted_at is Some { 1i64 } else { 0i64 })
}

fn prepare_subtask(r: &SubtaskRow) -> (out: Result<Prepared<SubtaskRow>, AppError>)
    ensures
        out is Ok <==> first_failure(subtask_fields(*r)) is None,
        out matches Ok(p) ==> subtask_prepared(*r, p),
        out matches Err(e) ==> failure_error(e, first_failure(subtask_fields(*r))),
{
    proof {
        reveal_with_fuel(first_failure, 4);
    }
    let (created_at, _) = normalize_timestamp(r.created_at.as_str(), "subtask created_at")?;
    let (updated_at, updated_ms) = normalize_timestamp(r.updated_at.as_str(), "subtask updated_at")?;
    let deleted_at = normalize_optional_timestamp(clone_opt(&r.deleted_at), "subtask deleted_at")?;
    let deleted: i64 = if r.deleted_at.is_some() { 1 } else { 0 };
    Ok(Prepared {
        row: SubtaskRow {
            id: r.id.clone(),
            title: r.title.clone(),
            is_completed: r.is_completed,
            task_id: r.task_id.clone(),
            order_index: r.order_index,
            created_at,
            updated_at,
            deleted_at,
        },
        sync_updated_at: updated_ms,
        deleted,
    })
}

// ---------------------------------------------------------------- tables

/// The timestamp fields of all these rows, row after row.
pub open spec fn rows_fields<T>(rows: Seq<T>, f: spec_fn(T) -> Seq<TsField>) -> Seq<TsField>
    decreases rows.len(),
{
    if rows.len() == 0 {
        Seq::<TsField>::empty()
    } else {
        rows_fields(rows.drop_last(), f) + f(rows.last())
    }
}

/// A failure among the first `j` rows is the failure of all the rows.
pub proof fn lemma_rows_failure_prefix<T>(rows: Seq<T>, f: spec_fn(T) -> Seq<TsField>, j: int)
    requires
        0 <= j <= rows.len(),
        first_failure(rows_fields(rows.take(j), f)) is Some,
    ensures
        first_failure(rows_fields(rows, f)) == first_failure(rows_fields(rows.take(j), f)),
    decreases rows.len(),
{
    if j == rows.len() {
        assert(rows.take(j) =~= rows);
    } else {
        let shorter = rows.drop_last();
        assert(shorter.take(j) =~= rows.take(j));
        lemma_rows_failure_prefix(shorter, f, j);
        lemma_first_failure_append(rows_fields(shorter, f), f(rows.last()));
    }
}

/// Adding a row adds its fields after those of the rows before it.
pub proof fn lemma_rows_fields_step<T>(rows: Seq<T>, f: spec_fn(T) -> Seq<TsField>, i: int)
    requires
        0 <= i < rows.len(),
    ensures
        rows_fields(rows.take(i + 1), f) == rows_fields(rows.take(i), f) + f(rows[i]),
        first_failure(rows_fields(rows.take(i + 1), f)) == (if first_failure(rows_fields(rows.take(i), f)) is Some {
            first_failure(rows_fields(rows.take(i), f))
        } else {
            first_failure(f(rows[i]))
        }),
{
    assert(rows.take(i + 1).drop_last() =~= rows.take(i));
    lemma_first_failure_append(rows_fields(rows.take(i), f), f(rows[i]));
}

/// The timestamp fields of these tags.
pub open spec fn tags_fields(rows: Seq<TagRow>) -> Seq<TsField> {
    rows_fields(rows, |r: TagRow| tag_fields(r))
}

fn prepare_tags(rows: &Vec<TagRow>) -> (out: Result<Vec<Prepared<TagRow>>, AppError>)
    ensures
        out is Ok <==> first_failure(tags_fields(rows@)) is None,
        out matches Ok(v) ==> v@.len() == rows@.len() && forall|i: int| 0 <= i < rows@.len() ==> tag_prepared(rows@[i], #[trigger] v@[i]),
        out matches Err(e) ==> failure_error(e, first_failure(tags_fields(rows@))),
{
    let ghost f = |r: TagRow| tag_fields(r);
    let mut v: Vec<Prepared<TagRow>> = Vec::new();
    let mut i: usize = 0;
    while i < rows.len()
        invariant
            i <= rows@.len(),
            v@.len() == i,
            f == (|r: TagRow| tag_fields(r)),
            forall|k: int| 0 <= k < i ==> tag_prepared(rows@[k], #[trigger] v@[k]),
            first_failure(rows_fields(rows@.take(i as int), f)) is None,
        decreases rows@.len() - i,
    {
        proof {
            lemma_rows_fields_step(rows@, f, i as int);
        }
        match prepare_tag(&rows[i]) {
            Ok(p) => {
                v.push(p);
            },
            Err(e) => {
                proof {
                    lemma_rows_failure_prefix(rows@, f, i + 1);
                }
                return Err(e);
            },
        }
        i = i + 1;
    }
    assert(rows@.take(rows@.len() as int) =~= rows@);
    Ok(v)
}

/// The timestamp fields of these entries.
pub open spec fn entries_fields(rows: Seq<EntryRow>) -> Seq<TsField> {
    rows_fields(rows, |r: EntryRow| entry_fields(r))
}

fn prepare_entries(rows: &Vec<EntryRow>) -> (out: Result<Vec<Prepared<EntryRow>>, AppError>)
    ensures
        out is Ok <==> first_failure(entries_fields(rows@)) is None,
        out matches Ok(v) ==> v@.len() == rows@.len() && forall|i: int| 0 <= i < rows@.len() ==> entry_prepared(rows@[i], #[trigger] v@[i]),
        out matches Err(e) ==> failure_error(e, first_failure(entries_fields(rows@))),
{
    let ghost f = |r: EntryRow| entry_fields(r);
    let mut v: Vec<Prepared<EntryRow>> = Vec::new();
    let mut i: usize = 0;
    while i < rows.len()
        invariant
            i <= rows@.len(),
            v@.len() == i,
            f == (|r: EntryRow| entry_fields(r)),
            forall|k: int| 0 <= k < i ==> entry_prepared(rows@[k], #[trigger] v@[k]),
            first_failure(rows_fields(rows@.take(i as int), f)) is None,
        decreases rows@.len() - i,
    {
        proof {
            lemma_rows_fields_step(rows@, f, i as int);
        }
        match prepare_entry(&rows[i]) {
            Ok(p) => {
                v.push(p);
            },
            Err(e) => {
                proof {
                    lemma_rows_failure_prefix(rows@, f, i + 1);
                }
                return Err(e);
            },
        }
        i = i + 1;
    }
    assert(rows@.take(rows@.len() as int) =~= rows@);
    Ok(v)
}

/// The timestamp fields of these goals.
pub open spec fn goals_fields(rows: Seq<GoalRow>) -> Seq<TsField> {
    rows_fields(rows, |r: GoalRow| goal_fields(r))
}

fn prepare_goals(rows: &Vec<GoalRow>) -> (out: Result<Vec<Prepared<GoalRow>>, AppError>)
    ensures
        out is Ok <==> first_failure(goals_fields(rows@)) is None,
        out matches Ok(v) ==> v@.len() == rows@.len() && forall|i: int| 0 <= i < rows@.len() ==> goal_prepared(rows@[i], #[trigger] v@[i]),
        out matches Err(e) ==> failure_error(e, first_failure(goals_fields(rows@))),
{
    let ghost f = |r: GoalRow| goal_fields(r);
    let mut v: Vec<Prepared<GoalRow>> = Vec::new();
    let mut i: usize = 0;
    while i < rows.len()
        invariant
            i <= rows@.len(),
            v@.len() == i,
            f == (|r: GoalRow| goal_fields(r)),
            forall|k: int| 0 <= k < i ==> goal_prepared(rows@[k], #[trigger] v@[k]),
            first_failure(rows_fields(rows@.take(i as int), f)) is None,
        decreases rows@.len() - i,
    {
        proof {
            lemma_rows_fields_step(rows@, f, i as int);
        }
        match prepare_goal(&rows[i]) {
            Ok(p) => {
                v.push(p);
            },
            Err(e) => {
                proof {
                    lemma_rows_failure_prefix(rows@, f, i + 1);
                }
                return Err(e);
            },
        }
        i = i + 1;
    }
    assert(rows@.take(rows@.len() as int) =~= rows@);
    Ok(v)
}

/// The timestamp fields of these goal instances.
pub open spec fn goal_instances_fields(rows: Seq<GoalInstanceRow>) -> Seq<TsField> {
    rows_fields(rows, |r: GoalInstanceRow| goal_instance_fields(r))
}

fn prepare_goal_instances(rows: &Vec<GoalInstanceRow>) -> (out: Result<Vec<Prepared<GoalInstanceRow>>, AppError>)
    ensures
        out is Ok <==> first_failure(goal_instances_fields(rows@)) is None,
        out matches Ok(v) ==> v@.len() == rows@.len() && forall|i: int| 0 <= i < rows@.len() ==> goal_instance_prepared(rows@[i], #[trigger] v@[i]),
        out matches Err(e) ==> failure_error(e, first_failure(goal_instances_fields(rows@))),
{
    let ghost f = |r: GoalInstanceRow| goal_instance_fields(r);
    let mut v: Vec<Prepared<GoalInstanceRow>> = Vec::new();
    let mut i: usize = 0;
    while i < rows.len()
        invariant
            i <= rows@.len(),
            v@.len() == i,
            f == (|r: GoalInstanceRow| goal_instance_fields(r)),
            forall|k: int| 0 <= k < i ==> goal_instance_prepared(rows@[k], #[trigger] v@[k]),
            first_failure(rows_fields(rows@.take(i as int), f)) is None,
        decreases rows@.len() - i,
    {
        proof {
            lemma_rows_fields_step(rows@, f, i as int);
        }
        match prepare_goal_instance(&rows[i]) {
            Ok(p) => {
                v.push(p);
            },
            Err(e) => {
                proof {
                    lemma_rows_failure_prefix(rows@, f, i + 1);
                }
                return Err(e);
            },
        }
        i = i + 1;
    }
    assert(rows@.take(rows@.len() as int) =~= rows@);
    Ok(v)
}

/// The timestamp fields of these tasks.
pub open spec fn tasks_fields(rows: Seq<TaskRow>) -> Seq<TsField> {
    rows_fields(rows, |r: TaskRow| task_fields(r))
}

fn prepare_tasks(rows: &Vec<TaskRow>) -> (out: Result<Vec<Prepared<TaskRow>>, AppError>)
    ensures
        out is Ok <==> first_failure(tasks_fields(rows@)) is None,
        out matches Ok(v) ==> v@.len() == rows@.len() && forall|i: int| 0 <= i < rows@.len() ==> task_prepared(rows@[i], #[trigger] v@[i]),
        out matches Err(e) ==> failure_error(e, first_failure(tasks_fields(rows@))),
{
    let ghost f = |r: TaskRow| task_fields(r);
    let mut v: Vec<Prepared<TaskRow>> = Vec::new();
    let mut i: usize = 0;
    while i < rows.len()
        invariant
            i <= rows@.len(),
            v@.len() == i,
            f == (|r: TaskRow| task_fields(r)),
            forall|k: int| 0 <= k < i ==> task_prepared(rows@[k], #[trigger] v@[k]),
            first_failure(rows_fields(rows@.take(i as int), f)) is None,
        decreases rows@.len() - i,
    {
        proof {
            lemma_rows_fields_step(rows@, f, i as int);
        }
        match prepare_task(&rows[i]) {
            Ok(p) => {
                v.push(p);
            },
            Err(e) => {
                proof {
                    lemma_rows_failure_prefix(rows@, f, i + 1);
                }
                return Err(e);
            },
        }
        i = i + 1;
    }
    assert(rows@.take(rows@.len() as int) =~= rows@);
    Ok(v)
}

/// The timestamp fields of these subtasks.
pub open spec fn subtasks_fields(rows: Seq<SubtaskRow>) -> Seq<TsField> {
    rows_fields(rows, |r: SubtaskRow| subtask_fields(r))
}

fn prepare_subtasks(rows: &Vec<SubtaskRow>) -> (out: Result<Vec<Prepared<SubtaskRow>>, AppError>)
    ensures
        out is Ok <==> first_failure(subtasks_fields(rows@)) is None,
        out matches Ok(v) ==> v@.len() == rows@.len() && forall|i: int| 0 <= i < rows@.len() ==> subtask_prepared(rows@[i], #[trigger] v@[i]),
        out matches Err(e) ==> failure_error(e, first_failure(subtasks_fields(rows@))),
{
    let ghost f = |r: SubtaskRow| subtask_fields(r);
    let mut v: Vec<Prepared<SubtaskRow>> = Vec::new();
    let mut i: usize = 0;
    while i < rows.len()
        invariant
            i <= rows@.len(),
            v@.len() == i,
            f == (|r: SubtaskRow| subtask_fields(r)),
            forall|k: int| 0 <= k < i ==> subtask_prepared(rows@[k], #[trigger] v@[k]),
            first_failure(rows_fields(rows@.take(i as int), f)) is None,
        decreases rows@.len() - i,
    {
        proof {
            lemma_rows_fields_step(rows@, f, i as int);
        }
        match prepare_subtask(&rows[i]) {
            Ok(p) => {
                v.push(p);
            },
            Err(e) => {
                proof {
                    lemma_rows_failure_prefix(rows@, f, i + 1);
                }
                return Err(e);
            },
        }
        i = i + 1;
    }
    assert(rows@.take(rows@.len() as int) =~= rows@);
    Ok(v)
}

// ---------------------------------------------------------------- relations

/// The sync id of a tag relation: the tagged item's id, a bar, and the tag's id.
pub open spec fn relation_sync_id(parent: Seq<char>, tag: Seq<char>) -> Seq<char> {
    parent + "|"@ + tag
}

/// A tag relation as it is written: both ids and its sync id.
#[derive(Debug, Clone)]
pub struct PreparedRelation {
    pub parent_id: String,
    pub tag_id: String,
    pub sync_id: String,
}

/// The sync id of a tag relation (`entry_1|tag_1`).
pub fn relation_sync_key(parent_id: &str, tag_id: &str) -> (r: String)
    ensures
        r@ == relation_sync_id(parent_id@, tag_id@),
{
    let mut r = owned(parent_id);
    push_str(&mut r, "|");
    push_str(&mut r, tag_id);
    r
}

/// The tag relations as they are written, in order.
pub fn prepare_relations(rows: &Vec<RelationRow>) -> (r: Vec<PreparedRelation>)
    ensures
        r@.len() == rows@.len(),
        forall|i: int| 0 <= i < rows@.len() ==> {
            &&& (#[trigger] r@[i]).parent_id == rows@[i].parent_id
            &&& r@[i].tag_id == rows@[i].tag_id
            &&& r@[i].sync_id@ == relation_sync_id(rows@[i].parent_id@, rows@[i].tag_id@)
        },
{
    let mut r: Vec<PreparedRelation> = Vec::new();
    let mut i: usize = 0;
    while i < rows.len()
        invariant
            i <= rows@.len(),
            r@.len() == i,
            forall|k: int| 0 <= k < i ==> {
                &&& (#[trigger] r@[k]).parent_id == rows@[k].parent_id
                &&& r@[k].tag_id == rows@[k].tag_id
                &&& r@[k].sync_id@ == relation_sync_id(rows@[k].parent_id@, rows@[k].tag_id@)
            },
        decreases rows@.len() - i,
    {
        let row = &rows[i];
        r.push(PreparedRelation {
            parent_id: row.parent_id.clone(),
            tag_id: row.tag_id.clone(),
            sync_id: relation_sync_key(row.parent_id.as_str(), row.tag_id.as_str()),
        });
        i = i + 1;
    }
    r
}

// ---------------------------------------------------------------- the whole import

/// Everything an import writes, in the order it is written: tags, entries, goals, goal
/// instances, tasks, subtasks, then the four kinds of tag relations.
#[derive(Debug)]
pub struct PreparedImport {
    pub tags: Vec<Prepared<TagRow>>,
    pub entries: Vec<Prepared<EntryRow>>,
    pub goals: Vec<Prepared<GoalRow>>,
    pub goal_instances: Vec<Prepared<GoalInstanceRow>>,
    pub tasks: Vec<Prepared<TaskRow>>,
    pub subtasks: Vec<Prepared<SubtaskRow>>,
    pub entry_tags: Vec<PreparedRelation>,
    pub goal_tags: Vec<PreparedRelation>,
    pub goal_instance_tags: Vec<PreparedRelation>,
    pub task_tags: Vec<PreparedRelation>,
}

/// The timestamp fields of a whole legacy database, in the order the import checks them.
pub open spec fn import_fields(d: LegacyData) -> Seq<TsField> {
    tags_fields(d.tags@) + (entries_fields(d.entries@) + (goals_fields(d.goals@) + (goal_instances_fields(
        d.goal_instances@,
    ) + (tasks_fields(d.tasks@) + subtasks_fields(d.subtasks@)))))
}

/// `p` holds each relation of `rows` as it is written.
pub open spec fn relations_prepared(rows: Seq<RelationRow>, p: Seq<PreparedRelation>) -> bool {
    &&& p.len() == rows.len()
    &&& forall|i: int| 0 <= i < rows.len() ==> {
        &&& (#[trigger] p[i]).parent_id == rows[i].parent_id
        &&& p[i].tag_id == rows[i].tag_id
        &&& p[i].sync_id@ == relation_sync_id(rows[i].parent_id@, rows[i].tag_id@)
    }
}

/// Prepares a legacy database for writing: every timestamp normalised to UTC, the sync
/// columns filled in. It fails, with the first timestamp in import order that parses in
/// neither form, exactly when there is one.
pub fn prepare_import(data: &LegacyData) -> (r: Result<PreparedImport, AppError>)
    ensures
        r is Ok <==> first_failure(import_fields(*data)) is None,
        r matches Err(e) ==> failure_error(e, first_failure(import_fields(*data))),
        r matches Ok(p) ==> {
            &&& p.tags@.len() == data.tags@.len()
            &&& (forall|i: int| 0 <= i < data.tags@.len() ==> tag_prepared(data.tags@[i], #[trigger] p.tags@[i]))
            &&& p.entries@.len() == data.entries@.len()
            &&& (forall|i: int| 0 <= i < data.entries@.len() ==> entry_prepared(data.entries@[i], #[trigger] p.entries@[i]))
            &&& p.goals@.len() == data.goals@.len()
            &&& (forall|i: int| 0 <= i < data.goals@.len() ==> goal_prepared(data.goals@[i], #[trigger] p.goals@[i]))
            &&& p.goal_instances@.len() == data.goal_instances@.len()
            &&& (forall|i: int| 0 <= i < data.goal_instances@.len() ==> goal_instance_prepared(data.goal_instances@[i], #[trigger] p.goal_instances@[i]))
            &&& p.tasks@.len() == data.tasks@.len()
            &&& (forall|i: int| 0 <= i < data.tasks@.len() ==> task_prepared(data.tasks@[i], #[trigger] p.tasks@[i]))
            &&& p.subtasks@.len() == data.subtasks@.len()
            &&& (forall|i: int| 0 <= i < data.subtasks@.len() ==> subtask_prepared(data.subtasks@[i], #[trigger] p.subtasks@[i]))
            &&& relations_prepared(data.entry_tags@, p.entry_tags@)
            &&& relations_prepared(data.goal_tags@, p.goal_tags@)
            &&& relations_prepared(data.goal_instance_tags@, p.goal_instance_tags@)
            &&& relations_prepared(data.task_tags@, p.task_tags@)
        },
{
    let ghost a = tags_fields(data.tags@);
    let ghost b = entries_fields(data.entries@);
    let ghost c = goals_fields(data.goals@);
    let ghost d = goal_instances_fields(data.goal_instances@);
    let ghost e5 = tasks_fields(data.tasks@);
    let ghost f6 = subtasks_fields(data.subtasks@);
    proof {
        lemma_first_failure_append(e5, f6);
        lemma_first_failure_append(d, e5 + f6);
        lemma_first_failure_append(c, d + (e5 + f6));
        lemma_first_failure_append(b, c + (d + (e5 + f6)));
        lemma_first_failure_append(a, b + (c + (d + (e5 + f6))));
    }
    let tags = prepare_tags(&data.tags)?;
    let entries = prepare_entries(&data.entries)?;
    let goals = prepare_goals(&data.goals)?;
    let goal_instances = prepare_goal_instances(&data.goal_instances)?;
    let tasks = prepare_tasks(&data.tasks)?;
    let subtasks = prepare_subtasks(&data.subtasks)?;
    Ok(PreparedImport {
        tags,
        entries,
        goals,
        goal_instances,
        tasks,
        subtasks,
        entry_tags: prepare_relations(&data.entry_tags),
        goal_tags: prepare_relations(&data.goal_tags),
        goal_instance_tags: prepare_relations(&data.goal_instance_tags),
        task_tags: prepare_relations(&data.task_tags),
    })
}

} // verus!
