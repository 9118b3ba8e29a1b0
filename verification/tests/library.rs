use aether_core::cursor;
use aether_core::error::AppError;
use aether_core::handlers::{not_found, require_setting_key, require_title, update_activity, validate_new_goal, UpdateActivity};
use aether_core::journal_ai::{RulesJournalAiProvider, SearchHit};
use aether_core::journal_openai::{entry_prompt, weekly_prompt, EntryOutput, ModelSuggestion, WeeklyOutput};
use aether_core::bookmarks::{apply_bookmark_update, check_new_bookmark_url, BookmarkFields, UpdateBookmarkRequest};
use aether_core::tagging::check_tags_found;
use aether_core::migrations::{is_vector_index_statement, pending_migrations, plan_migration, split_migration_sql, MigrationStep};
use aether_core::goals::{first_instance_plan, plan_current_instance, InstancePlan};
use aether_core::links::{plan_link, LinkPlan};
use aether_core::legacy_import::{
    normalize_optional_timestamp, normalize_timestamp, prepare_import, relation_sync_key, verify_legacy_schema,
    EntryRow, GoalInstanceRow, GoalRow, LegacyData, RelationRow, SubtaskRow, TagRow, TaskRow,
};
use aether_core::media::{blurhash_of_rgba, generate_blurhash, get_file_extension, get_mime_type, media_file_name};
use aether_core::models::{calculate_checksum, find_model, list_available_models, model_file_name, model_path_in};
use aether_core::platform::{compose_storage_paths, desktop, join_path, legacy_media_dir, HostEnvironment, HostOs, PlatformCapabilities};
use aether_core::search::{keyword_page, matches_date_range, matches_resource_type, search_limit, search_offset};
use aether_core::search_document::{
    bookmark_document, check_embedding_shape, check_stored_embedding, document_id, entry_document, index_document,
    reindex_kind, tag_check, task_document, text_hash, IndexedKind, TagCheck,
};
use aether_core::search_text::{first_search_line, normalize_search_text, truncate_preview};
use aether_core::settings::{reveal_settings, stored_value_to_value, value_to_store};
use aether_core::sync_apply::{decide_apply, entity_to_table, entry_upsert_from_json, entry_upsert_values, tag_upsert_from_json, ApplyStep, ChangeData, JsonScalar};
use aether_core::sync_crypto::{decrypt_blob, encrypt_blob};
use aether_core::sync_engine::{feed_listener_step, focus_sync_due, periodic_sync_due, FeedAction, FeedEvent, is_sync_signal, sync_status, ReconnectBackoff, SyncEngine, SyncStart};
use aether_core::sync_http::{endpoint_url, pull_url, request_failed, to_ws_url};
use aether_core::sync_meta::{configure_key, decode_server_salt, generate_device_id, suppress_triggers_value, verify_key};
use aether_core::sync_pull::{ApplyOutcome, PullBatch};
use aether_core::sync_push::{batch_id, change_op_of, change_updated_at, dedupe_outbox, media_blob_to_upload, media_hash, outbox_disposal, OutboxDisposal, OutboxRow};
use aether_core::sync_types::{ChangeOp, PullCursor};
use aether_core::tasks::{apply_task_patch, check_update_conflict, cut_page, page_limit, parse_task_cursor, reorder_plan, task_cursor, TaskFields, TaskPatch};
use aether_core::updater::{check_allowed, UpdateManager};

fn strings(values: &[&str]) -> Vec<String> {
    values.iter().map(|v| v.to_string()).collect()
}

// cursors and paging

#[test]
fn cursor_roundtrips_a_sort_key() {
    let c = cursor::encode("abc");
    assert_eq!(c, "YWJj");
    assert_eq!(cursor::decode(&c).unwrap(), "abc");
}

#[test]
fn cursor_rejects_text_that_is_not_base64() {
    let e = cursor::decode("!!not base64!!").unwrap_err();
    assert_eq!(e.kind(), "bad_request");
    assert!(e.detail().starts_with("Invalid cursor format: "));
}

#[test]
fn composite_cursor_roundtrips_its_keys() {
    let c = cursor::encode_composite(&["2026-01-01T00:00:00Z", "task-1"]);
    assert_eq!(c, "MjAyNi0wMS0wMVQwMDowMDowMFp8dGFzay0x");
    assert_eq!(cursor::decode_composite(&c).unwrap(), strings(&["2026-01-01T00:00:00Z", "task-1"]));
}

#[test]
fn task_cursor_is_read_back_as_due_date_and_id() {
    let c = task_cursor("", "task-9");
    assert_eq!(parse_task_cursor(&c).unwrap(), (String::new(), "task-9".to_string()));
    let three = cursor::encode_composite(&["a", "b", "c"]);
    assert_eq!(parse_task_cursor(&three).unwrap_err().detail(), "Invalid cursor format for tasks");
}

#[test]
fn task_pages_hold_at_most_the_limit() {
    assert_eq!(page_limit(None), 50);
    assert_eq!(page_limit(Some(5000)), 1000);
    assert_eq!(page_limit(Some(7)), 7);
    assert_eq!(cut_page(vec![1, 2, 3, 4], 3), (vec![1, 2, 3], true));
    assert_eq!(cut_page(vec![1, 2], 3), (vec![1, 2], false));
}

#[test]
fn keyword_page_cursor_leads_to_the_next_offset() {
    let (page, next, more) = keyword_page(vec![10, 20, 30, 40, 50], 1, 2);
    assert_eq!(page, vec![20, 30]);
    assert!(more);
    let next = next.unwrap();
    assert_eq!(next, "Mw==");
    assert_eq!(search_offset(Some(&next), None).unwrap(), 3);
    let (last, none, more) = keyword_page(vec![10, 20, 30], 1, 5);
    assert_eq!(last, vec![20, 30]);
    assert_eq!(none, None);
    assert!(!more);
}

#[test]
fn search_offset_defaults_and_rejects_bad_numbers() {
    assert_eq!(search_offset(None, None).unwrap(), 0);
    assert_eq!(search_offset(None, Some(4)).unwrap(), 4);
    let bad = cursor::encode("x1");
    let e = search_offset(Some(&bad), None).unwrap_err();
    assert!(e.detail().starts_with("Invalid search cursor offset 'x1'"));
}

#[test]
fn search_filters_by_type_and_date() {
    assert_eq!(search_limit(None), 50);
    assert_eq!(search_limit(Some(500)), 100);
    assert!(matches_resource_type(&None, "task"));
    assert!(matches_resource_type(&Some(strings(&["task", "goal"])), "goal"));
    assert!(!matches_resource_type(&Some(strings(&["task"])), "goal"));
    assert!(matches_date_range("2026-05-13", Some("2026-05-12"), Some("2026-05-15")));
    assert!(!matches_date_range("2026-05-16", Some("2026-05-12"), Some("2026-05-15")));
    assert!(!matches_date_range("2026-05-11", Some("2026-05-12"), None));
}

// search documents

#[test]
fn document_ids_and_hashes() {
    assert_eq!(document_id("task", "task_1", 0), "task:task_1:0");
    assert_eq!(text_hash("hello"), "2cf24dba5fb0a30e26e83b2ac5b9e29e1b161e5c1fa7425e73043362938b9824");
}

#[test]
fn indexed_documents_are_normalised() {
    let input = task_document("t1".into(), "  Ship   it ".into(), Some("now\n\n please".into()), "2026-01-01".into());
    assert_eq!(input.text, "  Ship   it  now\n\n please");
    let doc = index_document(&input);
    assert_eq!(doc.id, "task:t1:0");
    assert_eq!(doc.title, "Ship it");
    assert_eq!(doc.text, "Ship it now\nplease");
    assert_eq!(doc.text_hash, text_hash("Ship it now\nplease"));
}

#[test]
fn bookmark_document_falls_back_to_the_url() {
    let d = bookmark_document("b1".into(), "https://x.example".into(), None, Some("desc".into()), None, Some("me".into()), "u".into());
    assert_eq!(d.title, "https://x.example");
    assert_eq!(d.text, "https://x.example desc  me https://x.example");
}

#[test]
fn entry_document_title_and_timestamp() {
    let d = entry_document("e1".into(), Some("First line\nsecond".into()), "c".into(), "".into());
    assert_eq!(d.title, "First line");
    assert_eq!(d.source_updated_at, "c");
    let blank = entry_document("e2".into(), None, "c".into(), "u".into());
    assert_eq!(blank.title, "");
    assert_eq!(blank.text, "");
    assert_eq!(blank.source_updated_at, "u");
}

#[test]
fn reindex_kinds_and_unsupported_types() {
    assert_eq!(reindex_kind("bookmark").unwrap(), IndexedKind::Bookmark);
    let e = reindex_kind("subtask").unwrap_err();
    assert_eq!(e.message(), "Invalid request: Unsupported search resource type: subtask");
}

#[test]
fn tag_filter_checks() {
    assert_eq!(tag_check("entry", "e1", &None), TagCheck::Decided(true));
    assert_eq!(tag_check("entry", "e1", &Some(vec![])), TagCheck::Decided(true));
    assert_eq!(tag_check("tag", "tag-1", &Some(strings(&["tag-1"]))), TagCheck::Decided(true));
    assert_eq!(tag_check("tag", "tag-2", &Some(strings(&["tag-1"]))), TagCheck::Decided(false));
    assert_eq!(tag_check("task", "t", &Some(strings(&["tag-1"]))), TagCheck::Lookup("task_tags", "task_id"));
    assert_eq!(tag_check("subtask", "s", &Some(strings(&["tag-1"]))), TagCheck::Decided(false));
}

#[test]
fn embedding_shapes_are_checked() {
    assert!(check_embedding_shape(3, 3).is_ok());
    assert_eq!(check_embedding_shape(0, 0).unwrap_err().detail(), "Embedding dimensions must be greater than zero");
    assert_eq!(check_embedding_shape(4, 3).unwrap_err().detail(), "Embedding vector length 3 does not match dimensions 4");
    assert!(check_stored_embedding(16, 4).is_ok());
    assert_eq!(check_stored_embedding(15, 4).unwrap_err().kind(), "internal");
}

#[test]
fn search_text_helpers() {
    assert_eq!(normalize_search_text("  a \t b\n\n c  "), "a b\nc");
    assert_eq!(first_search_line("  title  \nbody"), "title");
    assert_eq!(truncate_preview("abcdef", 3), "abc…");
    assert_eq!(truncate_preview("abc", 3), "abc");
}

// settings

#[test]
fn sensitive_settings_are_sealed_and_revealed() {
    let stored = value_to_store("openai.api_key", "sk-123").unwrap();
    assert!(stored.starts_with("encrypted:"));
    assert_eq!(stored_value_to_value(&stored).unwrap(), "sk-123");
    let plain = value_to_store("theme", "dark").unwrap();
    assert_eq!(plain, "dark");
    let revealed = reveal_settings(&vec![("openai.api_key".into(), stored), ("theme".into(), plain)]).unwrap();
    assert_eq!(revealed, vec![("openai.api_key".to_string(), "sk-123".to_string()), ("theme".to_string(), "dark".to_string())]);
}

#[test]
fn a_marked_value_that_does_not_open_is_an_error() {
    let e = stored_value_to_value("encrypted:!!!").unwrap_err();
    assert_eq!(e.kind(), "internal");
    assert!(reveal_settings(&vec![("k".into(), "encrypted:!!!".into())]).is_err());
}

#[test]
fn handler_checks() {
    assert_eq!(require_setting_key("").unwrap_err().detail(), "Setting key is required");
    assert!(require_setting_key("theme").is_ok());
    assert_eq!(require_title("").unwrap_err().detail(), "Title is required");
    assert_eq!(not_found("Task", "t1").message(), "Not found: Task t1 not found");
    assert_eq!(update_activity(false, Some(true)), UpdateActivity::Complete);
    assert_eq!(update_activity(true, Some(true)), UpdateActivity::Update);
    assert_eq!(update_activity(false, None), UpdateActivity::Update);
}

#[test]
fn new_goals_are_validated() {
    assert_eq!(validate_new_goal("", None, None, false, false).unwrap_err().detail(), "Name is required");
    assert_eq!(
        validate_new_goal("Run", None, Some(""), true, true).unwrap_err().detail(),
        "recurrenceType is required for recurring goals"
    );
    assert_eq!(
        validate_new_goal("Run", None, Some("weekly"), false, true).unwrap_err().detail(),
        "recurrenceInterval is required for recurring goals"
    );
    assert_eq!(
        validate_new_goal("Run", None, Some("weekly"), true, false).unwrap_err().detail(),
        "recurrenceAnchor is required for recurring goals"
    );
    assert_eq!(validate_new_goal("Run", None, Some("weekly"), true, true).unwrap(), false);
    assert_eq!(
        validate_new_goal("Trip", Some(true), None, true, false).unwrap_err().detail(),
        "recurrence fields must be null for non-recurring goals"
    );
    assert_eq!(validate_new_goal("Trip", Some(true), None, false, false).unwrap(), true);
}

// sync

#[test]
fn outbox_keeps_the_latest_operation_per_row() {
    let row = |e: &str, id: &str, op: &str, at: i64| OutboxRow { entity: e.into(), entity_id: id.into(), op: op.into(), queued_at: at };
    let rows = vec![row("tasks", "t1", "upsert", 1), row("tags", "g1", "upsert", 2), row("tasks", "t1", "delete", 3)];
    let kept = dedupe_outbox(&rows);
    assert_eq!(kept.len(), 2);
    assert_eq!(kept[0].entity, "tags");
    assert_eq!(kept[1].op, "delete");
    assert_eq!(kept[1].queued_at, 3);
}

#[test]
fn outbox_operations_and_timestamps() {
    assert_eq!(change_op_of("delete"), ChangeOp::Delete);
    assert_eq!(change_op_of("insert"), ChangeOp::Upsert);
    assert_eq!(outbox_disposal("upsert", false), OutboxDisposal::DropStale);
    assert_eq!(outbox_disposal("delete", false), OutboxDisposal::Push(ChangeOp::Delete));
    assert_eq!(change_updated_at(ChangeOp::Delete, None, 77, Some(5), 6), 77);
    assert_eq!(change_updated_at(ChangeOp::Delete, Some(9), 77, Some(5), 6), 9);
    assert_eq!(change_updated_at(ChangeOp::Upsert, Some(9), 77, Some(5), 6), 5);
    assert_eq!(change_updated_at(ChangeOp::Upsert, Some(9), 77, None, 6), 6);
}

#[test]
fn batch_and_media_hashes() {
    assert_eq!(batch_id(b"abc"), "ba7816bf8f01cfea414140de5dae2223b00361a396177a9cb410ff61f20015ad");
    assert_eq!(media_hash(b"abc"), "sha256:ba7816bf8f01cfea414140de5dae2223b00361a396177a9cb410ff61f20015ad");
    assert_eq!(
        media_blob_to_upload("auto", "media_items", Some("h".into()), Some("p".into())),
        Some(("h".to_string(), "p".to_string()))
    );
    assert_eq!(media_blob_to_upload("on_demand", "media_items", Some("h".into()), Some("p".into())), None);
    assert_eq!(media_blob_to_upload("auto", "media_items", None, Some("p".into())), None);
}

#[test]
fn endpoints_and_feed_urls() {
    assert_eq!(endpoint_url("https://s.example//", "/push"), "https://s.example/push");
    assert_eq!(pull_url("https://s.example/", None), "https://s.example/pull");
    assert_eq!(
        pull_url("https://s.example", Some(&PullCursor { received_at: 10, change_id: 2 })),
        "https://s.example/pull?cursor=10%3A2"
    );
    assert_eq!(to_ws_url("https://sync.example.com/", "my host"), "wss://sync.example.com/ws?hostname=my%20host");
    assert_eq!(to_ws_url("http://localhost:8080", "h"), "ws://localhost:8080/ws?hostname=h");
    assert_eq!(to_ws_url("sync.example.com", "h"), "wss://sync.example.com/ws?hostname=h");
    assert_eq!(request_failed("push", "500 Internal Server Error", "oops").message(), "Sync error: push failed 500 Internal Server Error: oops");
}

#[test]
fn last_write_wins_when_applying() {
    assert_eq!(decide_apply(Some(10), 10, ChangeOp::Upsert, Some(true), "entries"), ApplyStep::Skip);
    assert_eq!(decide_apply(Some(10), 11, ChangeOp::Upsert, Some(true), "entries"), ApplyStep::UpsertEntry);
    assert_eq!(decide_apply(None, 1, ChangeOp::Upsert, Some(true), "tags"), ApplyStep::UpsertTag);
    assert_eq!(decide_apply(None, 1, ChangeOp::Upsert, Some(true), "widgets"), ApplyStep::StoreUnknown);
    assert_eq!(decide_apply(None, 1, ChangeOp::Upsert, Some(false), "tags"), ApplyStep::RejectData);
    assert_eq!(decide_apply(None, 1, ChangeOp::Upsert, None, "tags"), ApplyStep::Skip);
    assert_eq!(decide_apply(Some(1), 2, ChangeOp::Delete, None, "tasks"), ApplyStep::SoftDelete);
    assert_eq!(decide_apply(Some(1), 2, ChangeOp::Delete, None, "widgets"), ApplyStep::Skip);
    assert_eq!(entity_to_table("bookmark_tags"), Some("bookmark_tags"));
    assert_eq!(entity_to_table("activities"), None);
}

#[test]
fn upserts_take_defaults_for_missing_fields() {
    let u = entry_upsert_values("e1", 5, None, Some("doc".into()), None, Some(true), None, Some(false), None, None, None);
    assert_eq!(u.id, "e1");
    assert_eq!(u.document, "doc");
    assert_eq!(u.is_pinned, 1);
    assert_eq!(u.is_archived, 0);
    assert_eq!(u.extra, "{}");
    let data = ChangeData::Object(vec![
        ("id".to_string(), JsonScalar::Text("x".into())),
        ("document".to_string(), JsonScalar::Text("d".into())),
        ("is_archived".to_string(), JsonScalar::Bool(true)),
        ("is_pinned".to_string(), JsonScalar::Other),
        ("deleted_at".to_string(), JsonScalar::Other),
        ("document".to_string(), JsonScalar::Text("d2".into())),
    ]);
    let from_json = entry_upsert_from_json(&data, "e2", 9).unwrap();
    assert_eq!(from_json.id, "x");
    assert_eq!(from_json.document, "d2");
    assert_eq!(from_json.is_archived, 1);
    assert_eq!(from_json.is_pinned, 0);
    assert_eq!(from_json.deleted_at, None);
    assert_eq!(from_json.created_at, "");
    assert_eq!(from_json.sync_id, "e2");
    assert_eq!(from_json.sync_updated_at, 9);
    let tag = tag_upsert_from_json(&ChangeData::Object(vec![("name".to_string(), JsonScalar::Text("Home".into()))]), "t1", 4).unwrap();
    assert_eq!(tag.id, "t1");
    assert_eq!(tag.name, "Home");
    assert_eq!(tag.extra, "{}");
    assert_eq!(tag_upsert_from_json(&ChangeData::NotObject, "t1", 4).unwrap_err().detail(), "tags: object expected");
    assert_eq!(entry_upsert_from_json(&ChangeData::NotObject, "e2", 9).unwrap_err().detail(), "entries: object expected");
}

#[test]
fn device_ids_are_stable() {
    assert_eq!(generate_device_id("test-machine"), "1fa58e2b-387d-731a-f786-85d16ec7dde8");
    assert_eq!(generate_device_id("test-machine"), generate_device_id("test-machine"));
    assert_ne!(generate_device_id("test-machine"), generate_device_id("other"));
}

#[test]
fn configured_key_verifies_and_a_wrong_passphrase_does_not() {
    let salt = [7u8; 16];
    let m = configure_key("correct horse", &salt).unwrap();
    assert_eq!(m.salt_hex, "07070707070707070707070707070707");
    let key = verify_key("correct horse", Some(&m.salt_hex), Some(&m.key_check)).unwrap();
    assert_eq!(key, m.key);
    assert_eq!(verify_key("wrong", Some(&m.salt_hex), Some(&m.key_check)).unwrap_err().detail(), "passphrase verification failed");
    assert_eq!(verify_key("x", None, Some(&m.key_check)).unwrap_err().detail(), "key_salt not set");
    assert_eq!(verify_key("x", Some("0707"), Some(&m.key_check)).unwrap_err().detail(), "invalid key_salt length");
    assert_eq!(verify_key("x", Some(&m.salt_hex), None).unwrap_err().detail(), "key_check not set");
}

#[test]
fn server_salt_must_be_sixteen_bytes() {
    assert_eq!(decode_server_salt("BwcHBwcHBwcHBwcHBwcHBw==").unwrap(), [7u8; 16]);
    assert_eq!(decode_server_salt("BwcH").unwrap_err().detail(), "invalid salt length from server");
    assert!(decode_server_salt("***").unwrap_err().detail().starts_with("invalid base64 salt: "));
    assert_eq!(suppress_triggers_value(None), "0");
    assert_eq!(suppress_triggers_value(Some("1".into())), "1");
}

#[test]
fn media_blobs_roundtrip() {
    let key = [3u8; 32];
    let sealed = encrypt_blob(&key, b"picture bytes").unwrap();
    assert_eq!(decrypt_blob(&key, &sealed).unwrap(), b"picture bytes".to_vec());
    assert!(decrypt_blob(&[4u8; 32], &sealed).is_err());
}

#[test]
fn sync_engine_state() {
    let s = sync_status(Some("u".into()), true, false, 3, Some(9));
    assert!(s.connected);
    assert!(s.needs_passphrase);
    assert_eq!(s.pending_changes, 3);
    let d = sync_status(None, true, false, 0, None);
    assert!(!d.connected && !d.needs_passphrase);

    let mut e = SyncEngine::new();
    assert_eq!(e.begin_sync(), SyncStart::NotConfigured);
    e.set_server_url("https://s".into());
    assert_eq!(e.begin_sync(), SyncStart::NoPassphrase);
    e.set_passphrase("p".into());
    assert_eq!(e.begin_sync(), SyncStart::Run("https://s".into(), "p".into()));
    assert_eq!(e.begin_sync(), SyncStart::AlreadyRunning);
    e.finish_sync();
    assert!(!e.is_syncing());
    e.disconnect();
    assert_eq!(e.check_reconnect().unwrap_err().detail(), "sync not configured");
}

#[test]
fn feed_backoff_doubles_up_to_a_minute() {
    let mut b = ReconnectBackoff::new();
    let waits: Vec<u64> = (0..8).map(|_| b.next_delay()).collect();
    assert_eq!(waits, vec![1, 2, 4, 8, 16, 32, 60, 60]);
    b.reset();
    assert_eq!(b.current(), 1);
    assert!(is_sync_signal("  sync\n"));
    assert!(!is_sync_signal("synced"));
}

// legacy import

fn legacy_data() -> LegacyData {
    LegacyData {
        entries: vec![EntryRow {
            id: "entry_1".into(),
            document: "Legacy entry".into(),
            created_at: "2026-01-01T10:00:00Z".into(),
            is_pinned: 0,
            is_archived: 0,
            is_deleted: 0,
            updated_at: "2026-01-02 11:00:00.000+01:00".into(),
            deleted_at: None,
        }],
        tags: vec![TagRow {
            id: "tag_1".into(),
            name: "Home".into(),
            created_at: "2026-01-01T10:00:00Z".into(),
            updated_at: "2026-01-01T10:00:00Z".into(),
            deleted_at: None,
        }],
        goals: vec![GoalRow {
            id: "goal_1".into(),
            name: "Legacy goal".into(),
            description: None,
            is_non_recurring: 0,
            recurrence_type: Some("weekly".into()),
            recurrence_interval: Some(1),
            recurrence_anchor: Some("2026-01-01 10:00:00.000+00:00".into()),
            recurrence_meta: Some("{}".into()),
            timezone: "Europe/Amsterdam".into(),
            created_at: "2026-01-01T10:00:00Z".into(),
            updated_at: "2026-01-01T10:00:00Z".into(),
            deleted_at: None,
        }],
        goal_instances: vec![GoalInstanceRow {
            id: "goal-instance_1".into(),
            goal_id: "goal_1".into(),
            period_start: "2026-01-01 10:00:00.000+00:00".into(),
            period_end: Some("2026-01-08 10:00:00.000+00:00".into()),
            status: "active".into(),
            created_at: "2026-01-01T10:00:00Z".into(),
        }],
        tasks: vec![TaskRow {
            id: "task_1".into(),
            title: "Legacy task".into(),
            description: None,
            is_completed: 0,
            due_date: None,
            goal_instance_id: Some("goal-instance_1".into()),
            goal_id: Some("goal_1".into()),
            created_at: "2026-01-01T10:00:00Z".into(),
            updated_at: "2026-01-01T10:00:00Z".into(),
            deleted_at: None,
        }],
        subtasks: vec![SubtaskRow {
            id: "subtask_1".into(),
            title: "Legacy subtask".into(),
            is_completed: 0,
            task_id: "task_1".into(),
            order_index: 0,
            created_at: "2026-01-01T10:00:00Z".into(),
            updated_at: "2026-01-01T10:00:00Z".into(),
            deleted_at: None,
        }],
        entry_tags: vec![RelationRow { parent_id: "entry_1".into(), tag_id: "tag_1".into() }],
        goal_tags: vec![RelationRow { parent_id: "goal_1".into(), tag_id: "tag_1".into() }],
        goal_instance_tags: vec![RelationRow { parent_id: "goal-instance_1".into(), tag_id: "tag_1".into() }],
        task_tags: vec![RelationRow { parent_id: "task_1".into(), tag_id: "tag_1".into() }],
    }
}

#[test]
fn legacy_import_normalizes_timestamps_and_counts_rows() {
    let data = legacy_data();
    let counts = data.counts();
    assert_eq!(counts.entries, 1);
    assert_eq!(counts.subtasks, 1);
    assert_eq!(counts.task_tags, 1);
    let prepared = prepare_import(&data).unwrap();
    assert_eq!(prepared.entries[0].row.created_at, "2026-01-01T10:00:00.000Z");
    assert_eq!(prepared.entries[0].row.updated_at, "2026-01-02T10:00:00.000Z");
    assert_eq!(prepared.entries[0].sync_updated_at, 1767348000000);
    assert_eq!(prepared.goal_instances[0].sync_updated_at, 1767261600000);
    assert_eq!(prepared.goals[0].row.recurrence_anchor.as_deref(), Some("2026-01-01T10:00:00.000Z"));
    assert_eq!(prepared.task_tags[0].sync_id, "task_1|tag_1");
}

#[test]
fn legacy_import_reports_the_first_bad_timestamp() {
    let mut data = legacy_data();
    data.tasks[0].due_date = Some("next tuesday".into());
    data.subtasks[0].created_at = "yesterday".into();
    let e = prepare_import(&data).unwrap_err();
    assert_eq!(e.detail(), "Unsupported legacy timestamp for task due_date: next tuesday");
    assert_eq!(normalize_timestamp("2026-01-01T10:00:00Z", "x").unwrap(), ("2026-01-01T10:00:00.000Z".to_string(), 1767261600000));
    assert_eq!(normalize_optional_timestamp(None, "x").unwrap(), None);
    assert_eq!(relation_sync_key("a", "b"), "a|b");
}

#[test]
fn legacy_schema_names_missing_tables() {
    let all = strings(&["entries", "tags", "goals", "goal_instances", "tasks", "sub_tasks", "entry_tags", "goal_tags", "goal_instance_tags", "task_tags"]);
    assert!(verify_legacy_schema(&all).is_ok());
    let some = strings(&["entries", "tags", "goals", "tasks", "sub_tasks", "entry_tags", "goal_tags", "task_tags"]);
    assert_eq!(
        verify_legacy_schema(&some).unwrap_err().detail(),
        "This is not a supported January 2026 Aether database; missing: goal_instances, goal_instance_tags"
    );
}

// tasks

#[test]
fn task_updates_replace_only_given_fields() {
    let t = TaskFields {
        title: "Old".into(),
        description: Some("d".into()),
        due_date: None,
        is_completed: false,
        goal_id: Some("g".into()),
        goal_instance_id: Some("gi".into()),
    };
    let p = TaskPatch { title: Some("New".into()), description: Some(None), due_date: None, is_completed: Some(true), goal_id: None, goal_instance_id: None };
    let u = apply_task_patch(t.clone(), p);
    assert_eq!(u.title, "New");
    assert_eq!(u.description, None);
    assert!(u.is_completed);
    assert_eq!(u.goal_instance_id.as_deref(), Some("gi"));
    let g = TaskPatch { title: None, description: None, due_date: None, is_completed: None, goal_id: Some(Some("h".into())), goal_instance_id: None };
    let v = apply_task_patch(t, g);
    assert_eq!(v.goal_id.as_deref(), Some("h"));
    assert_eq!(v.goal_instance_id, None);
    assert!(check_update_conflict("Task", Some(5), 5, "t").is_ok());
    assert_eq!(
        check_update_conflict("Task", Some(4), 5, "2026").unwrap_err().detail(),
        "Conflict: Task was modified by another device. Current updated_at: 2026"
    );
    assert_eq!(reorder_plan(&strings(&["b", "a"])), vec![("b".to_string(), 0), ("a".to_string(), 1)]);
}

// media and models

#[test]
fn media_extensions_and_mime_types() {
    assert_eq!(get_file_extension("image", Some("JPEG")), "jpg");
    assert_eq!(get_file_extension("image", None), "jpg");
    assert_eq!(get_file_extension("audio", Some("opus")), "webm");
    assert_eq!(get_file_extension("audio", Some("AAC")), "m4a");
    assert_eq!(get_file_extension("video", None), "mp4");
    assert_eq!(get_file_extension("video", Some("mov")), "mov");
    assert_eq!(get_file_extension("document", Some("pdf")), "bin");
    assert_eq!(get_mime_type("MP3"), "audio/mpeg");
    assert_eq!(get_mime_type("m4a"), "audio/mp4");
    assert_eq!(get_mime_type("flac"), "audio/mpeg");
    assert_eq!(media_file_name("media_1", "png"), "media_1.png");
}

#[test]
fn blurhash_of_an_image_and_of_other_bytes() {
    let img = image::DynamicImage::ImageRgba8(image::RgbaImage::from_pixel(4, 4, image::Rgba([200, 40, 40, 255])));
    let mut bytes = std::io::Cursor::new(Vec::new());
    img.write_to(&mut bytes, image::ImageOutputFormat::Png).unwrap();
    let hash = generate_blurhash(bytes.get_ref()).unwrap();
    assert_eq!(hash.chars().count(), 28);
    assert!(hash.starts_with('L'));
    let alphabet = "0123456789ABCDEFGHIJKLMNOPQRSTUVWXYZabcdefghijklmnopqrstuvwxyz#$%*+,-.:;=?@[]^_{|}~";
    assert!(hash.chars().all(|c| alphabet.contains(c)));
    assert_eq!(generate_blurhash(b"not an image"), None);
    let pixels = vec![10u8; 4 * 2 * 3];
    assert_eq!(blurhash_of_rgba(2, 3, &pixels).unwrap().chars().count(), 28);
    assert_eq!(blurhash_of_rgba(0x4000_0000, 0, &[]), None);
}

#[test]
fn whisper_models_and_paths() {
    let models = list_available_models();
    assert_eq!(models.len(), 3);
    assert_eq!(models[1].size, "base");
    assert_eq!(models[1].download_url.as_deref(), Some("https://huggingface.co/ggerganov/whisper.cpp/resolve/main/ggml-base.bin"));
    assert_eq!(find_model(&models, "small"), Some(2));
    assert_eq!(find_model(&models, "large"), None);
    assert_eq!(model_file_name("tiny"), "ggml-tiny.bin");
    assert_eq!(model_path_in("/m", "base"), "/m/ggml-base.bin");
    assert_eq!(calculate_checksum(b""), "e3b0c44298fc1c149afbf4c8996fb92427ae41e4649b934ca495991b7852b855");
}

fn host_on(os: HostOs, home: Option<&str>, appdata: Option<&str>, dirs: bool) -> HostEnvironment {
    HostEnvironment {
        os,
        home: home.map(|h| h.to_string()),
        appdata: appdata.map(|a| a.to_string()),
        project_dirs: if dirs { Some(("/data/app".to_string(), "/cache/app".to_string())) } else { None },
    }
}

#[test]
fn storage_layout() {
    let p = compose_storage_paths(HostOs::Linux, "/data/app", "/cache/app", "/home/u/.local/share/aether/media");
    assert_eq!(p.media, "/home/u/.local/share/aether/media");
    assert_eq!(p.models, "/data/app/models");
    assert_eq!(p.logs, "/data/app/diagnostics");
    assert_eq!(join_path("a", "b"), "a/b");
}

#[test]
fn media_stays_where_each_system_kept_it() {
    assert_eq!(legacy_media_dir(HostOs::Linux, &Some("/home/u".into()), &None).unwrap(), "/home/u/.local/share/aether/media");
    assert_eq!(
        legacy_media_dir(HostOs::MacOs, &Some("/Users/u".into()), &None).unwrap(),
        "/Users/u/Library/Application Support/Aether/media"
    );
    assert_eq!(
        legacy_media_dir(HostOs::Windows, &None, &Some("C:\\Users\\u\\AppData\\Roaming".into())).unwrap(),
        "C:\\Users\\u\\AppData\\Roaming\\Aether\\media"
    );
    assert_eq!(legacy_media_dir(HostOs::Other, &None, &None).unwrap(), "./media");
    assert_eq!(legacy_media_dir(HostOs::MacOs, &None, &None).unwrap_err().detail(), "HOME environment variable not set");
    assert_eq!(legacy_media_dir(HostOs::Windows, &Some("/h".into()), &None).unwrap_err().detail(), "APPDATA environment variable not set");
    let mac = desktop(host_on(HostOs::MacOs, Some("/Users/u"), None, true)).storage_paths().unwrap();
    assert_eq!(mac.media, "/Users/u/Library/Application Support/Aether/media");
    assert_eq!(mac.models, "/data/app/models");
    let no_dirs = desktop(host_on(HostOs::Linux, Some("/home/u"), None, false)).storage_paths().unwrap_err();
    assert!(matches!(no_dirs, AppError::Io(_)));
    assert_eq!(no_dirs.detail(), "Failed to resolve desktop application directories");
    let no_home = desktop(host_on(HostOs::Linux, None, None, true)).storage_paths().unwrap_err();
    assert!(matches!(no_home, AppError::Internal(_)));
}

// journal drafts

fn hit(t: &str, id: &str, title: &str, preview: &str, score: u64) -> SearchHit {
    SearchHit { resource_type: t.into(), resource_id: id.into(), title: title.into(), preview: preview.into(), score_millionths: score }
}

#[test]
fn rules_draft_for_an_entry() {
    let d = RulesJournalAiProvider::build_entry_draft("e1", "Felt tired and stuck at work.\nNeed to call mom", &strings(&[]), vec![hit("task", "t1", "Call", "", 2_000_000)]);
    assert_eq!(d.insight.entry_id, "e1");
    assert_eq!(d.insight.emotions, strings(&["tired", "frustrated"]));
    assert!(d.insight.open_loops.contains(&"Need to call mom".to_string()));
    let last = d.suggestions.last().unwrap();
    assert_eq!(last.suggestion_type, "related_task");
    assert_eq!(last.confidence_millionths, Some(1_000_000));
}

#[test]
fn model_draft_keeps_clean_values() {
    let out = EntryOutput {
        summary: "  ".into(),
        possible_mood: " calm ".into(),
        emotions: strings(&[" joy ", "", "relief"]),
        energy: "".into(),
        themes: vec![],
        people: vec![],
        projects: vec![],
        open_loops: vec![],
        tag_suggestions: vec![
            ModelSuggestion { value: "work".into(), confidence_millionths: 1_500_000 },
            ModelSuggestion { value: "  ".into(), confidence_millionths: 10 },
            ModelSuggestion { value: "home".into(), confidence_millionths: -3 },
        ],
    };
    let d = out.into_draft("e1", "  Some   text ", "gpt-x", vec![hit("goal", "g1", "Goal", "", 10)]);
    assert_eq!(d.insight.summary, "Some text");
    assert_eq!(d.insight.possible_mood.as_deref(), Some("calm"));
    assert_eq!(d.insight.energy, None);
    assert_eq!(d.insight.emotions, strings(&["joy", "relief"]));
    assert_eq!(d.suggestions.len(), 3);
    assert_eq!(d.suggestions[0].confidence_millionths, Some(1_000_000));
    assert_eq!(d.suggestions[1].value, "home");
    assert_eq!(d.suggestions[1].confidence_millionths, Some(0));
    assert_eq!(d.suggestions[2].suggestion_type, "related_goal");
    assert_eq!(d.insight.provider, "openai");
}

#[test]
fn model_weekly_draft_and_prompts() {
    let context = vec![hit("entry", "e1", "E", "p", 1), hit("entry", "e1", "E", "p", 1), hit("task", "t1", "T", "q", 1)];
    let out = WeeklyOutput { summary: "S".into(), themes: vec![], completed_work: vec![], open_loops: vec![], next_focus: strings(&["a", "b", "c", "d", "e", "f"]) };
    let d = out.into_draft("2026-01-05", "2026-01-11", "m", &context);
    assert_eq!(d.summary.source_entry_ids, strings(&["e1"]));
    assert_eq!(d.summary.source_task_ids, strings(&["t1"]));
    assert_eq!(d.summary.next_focus.len(), 5);
    let p = weekly_prompt("A", "B", &vec![hit("task", "t1", "T", "q", 1)]);
    assert_eq!(p, "Week: A through B\n\nIndexed local context:\n- task t1: T — q\n\nReturn an editable weekly summary draft. Leave lists empty when evidence is weak.");
    let e = entry_prompt("text", &strings(&["x", "y"]), &vec![]);
    assert_eq!(e, "Journal entry text:\ntext\n\nExisting tags:\nx, y\n\nPossible related local resources:\n\n\nReturn only editable suggestions. Keep possible_mood and energy empty when unclear.");
}

// updater

#[test]
fn update_checks_follow_cooldown_and_backoff() {
    assert!(check_allowed(true, None, None));
    assert!(!check_allowed(false, None, None));
    assert!(!check_allowed(true, Some(60_000), None));
    assert!(check_allowed(true, Some(1_800_000), None));
    assert!(!check_allowed(true, Some(1_800_000), Some(1_000)));
    let mut m = UpdateManager::new();
    assert!(m.should_check());
    m.skip_version("1.2.0".into());
    m.skip_version("1.2.0".into());
    assert!(m.is_version_skipped("1.2.0"));
    assert_eq!(m.get_preferences().skipped_versions.len(), 1);
    m.record_check(false);
    assert!(!m.should_check());
}

#[test]
fn error_kinds_and_messages() {
    let e = AppError::Sync("boom".into());
    assert_eq!(e.kind(), "sync");
    assert_eq!(e.message(), "Sync error: boom");
}

#[test]
fn consecutive_pages_cover_the_results_once() {
    let results: Vec<u32> = (0..7).collect();
    let (first, c1, more1) = keyword_page(results.clone(), 0, 3);
    let offset = search_offset(c1.as_deref(), None).unwrap();
    let (second, _, _) = keyword_page(results.clone(), offset, 3);
    assert!(more1);
    let mut both = first.clone();
    both.extend(second);
    assert_eq!(both, vec![0, 1, 2, 3, 4, 5]);
}

#[test]
fn an_update_that_sets_nothing_or_twice_the_same() {
    let t = TaskFields { title: "T".into(), description: None, due_date: Some("d".into()), is_completed: true, goal_id: None, goal_instance_id: None };
    let empty = TaskPatch { title: None, description: None, due_date: None, is_completed: None, goal_id: None, goal_instance_id: None };
    let same = apply_task_patch(t.clone(), empty);
    assert_eq!((same.title, same.due_date, same.is_completed), ("T".to_string(), Some("d".to_string()), true));
    let p = TaskPatch { title: Some("U".into()), description: None, due_date: Some(None), is_completed: None, goal_id: Some(Some("g".into())), goal_instance_id: Some(Some("gi".into())) };
    let once = apply_task_patch(t, p.clone());
    let twice = apply_task_patch(once.clone(), p);
    assert_eq!((once.title.clone(), once.due_date.clone(), once.goal_instance_id.clone()), (twice.title, twice.due_date, twice.goal_instance_id));
}

#[test]
fn database_lives_below_the_app_data_directory() {
    assert_eq!(aether_core::platform::database_path_in("/data/app"), "/data/app/libsql-replica/local.db");
}

#[test]
fn sql_literals_double_their_quotes() {
    assert_eq!(aether_core::sql::quote_sql_literal("O'Brien"), "'O''Brien'");
    assert_eq!(aether_core::sql::quote_sql_literal(""), "''");
    assert_eq!(aether_core::sql::sql_in_list(&strings(&["a", "b'c"])), "'a', 'b''c'");
    assert_eq!(aether_core::sql::sql_in_list(&vec![]), "");
}

#[test]
fn pushed_tables_include_links_and_activities() {
    assert_eq!(aether_core::sync_push::pushed_table("resource_links"), Some("resource_links"));
    assert_eq!(aether_core::sync_push::pushed_table("activities"), Some("activities"));
    assert_eq!(aether_core::sync_push::pushed_table("settings"), None);
}

#[test]
fn local_whisper_defaults() {
    assert_eq!(aether_core::models::whisper_model_size(None), "base");
    assert_eq!(aether_core::models::whisper_model_size(Some("small".into())), "small");
    let linux = host_on(HostOs::Linux, Some("/home/u"), None, true);
    assert_eq!(aether_core::models::local_whisper_models_directory(&linux), "/home/u/.local/share/aether/models");
    let mac_no_home = host_on(HostOs::MacOs, None, None, true);
    assert_eq!(aether_core::models::local_whisper_models_directory(&mac_no_home), "~/Library/Application Support/Aether/models");
    let windows_no_appdata = host_on(HostOs::Windows, None, None, true);
    assert_eq!(aether_core::models::local_whisper_models_directory(&windows_no_appdata), ".\\Aether\\models");
    assert_eq!(aether_core::models::get_models_directory(&linux).unwrap(), "/home/u/.local/share/aether/models");
    assert!(aether_core::models::get_models_directory(&mac_no_home).is_err());
}

fn goal(non_recurring: bool) -> aether_core::goals::GoalFields {
    aether_core::goals::GoalFields {
        name: "Run".into(),
        description: None,
        is_non_recurring: non_recurring,
        recurrence_type: if non_recurring { None } else { Some("weekly".into()) },
        recurrence_interval: if non_recurring { None } else { Some(1) },
        recurrence_anchor: None,
        recurrence_meta: None,
    }
}

fn goal_patch() -> aether_core::goals::GoalPatch {
    aether_core::goals::GoalPatch {
        name: None,
        description: None,
        is_non_recurring: None,
        recurrence_type: None,
        recurrence_interval: None,
        recurrence_anchor: None,
        recurrence_meta: None,
    }
}

#[test]
fn goal_updates_keep_the_goal_type() {
    let mut p = goal_patch();
    p.is_non_recurring = Some(true);
    assert_eq!(
        aether_core::goals::apply_goal_patch(goal(false), p).unwrap_err().detail(),
        "cannot change isNonRecurring field - goal type cannot be converted between recurring and non-recurring"
    );
    let mut q = goal_patch();
    q.recurrence_interval = Some(Some(2));
    assert_eq!(aether_core::goals::apply_goal_patch(goal(true), q.clone()).unwrap_err().detail(), "cannot set recurrence fields for non-recurring goals");
    let updated = aether_core::goals::apply_goal_patch(goal(false), q).unwrap();
    assert_eq!(updated.recurrence_interval, Some(2));
    let mut r = goal_patch();
    r.name = Some("Swim".into());
    r.is_non_recurring = Some(false);
    let renamed = aether_core::goals::apply_goal_patch(goal(false), r).unwrap();
    assert_eq!(renamed.name, "Swim");
    assert!(!renamed.is_non_recurring);
}

#[test]
fn a_goal_finds_or_opens_its_current_instance() {
    assert_eq!(plan_current_instance(true, true, true).unwrap(), InstancePlan::ReuseLatest);
    assert_eq!(plan_current_instance(true, false, false).unwrap(), InstancePlan::OpenEnded);
    assert_eq!(plan_current_instance(false, true, true).unwrap(), InstancePlan::NewPeriod);
    assert_eq!(plan_current_instance(false, true, false).unwrap(), InstancePlan::ReuseLatest);
    let e = plan_current_instance(false, false, false).unwrap_err();
    assert!(matches!(e, AppError::Internal(_)));
    assert_eq!(e.detail(), "No instance found and failed to create one");
    assert_eq!(first_instance_plan(true), InstancePlan::OpenEnded);
    assert_eq!(first_instance_plan(false), InstancePlan::NewPeriod);
}

#[test]
fn a_link_is_inserted_revived_or_refused() {
    assert_eq!(plan_link(None, "entry", "e1", "task", "t1").unwrap(), LinkPlan::Insert);
    assert_eq!(plan_link(Some(true), "entry", "e1", "task", "t1").unwrap(), LinkPlan::Revive);
    let e = plan_link(Some(false), "entry", "e1", "task", "t1").unwrap_err();
    assert!(matches!(e, AppError::BadRequest(_)));
    assert_eq!(e.detail(), "Link already exists from entry:e1 to task:t1");
}

fn saved_bookmark() -> BookmarkFields {
    BookmarkFields {
        title: Some("Old".to_string()),
        description: None,
        image_url: None,
        favicon_url: Some("https://a.example/favicon.ico".to_string()),
        site_name: None,
        author: None,
        published_at: None,
        content_type: None,
        metadata_json: None,
        is_archived: false,
    }
}

fn no_update() -> UpdateBookmarkRequest {
    UpdateBookmarkRequest {
        title: None,
        description: None,
        image_url: None,
        favicon_url: None,
        site_name: None,
        author: None,
        published_at: None,
        content_type: None,
        metadata_json: None,
        is_archived: None,
    }
}

#[test]
fn a_bookmark_update_replaces_only_what_it_gives() {
    let mut u = no_update();
    u.title = Some("New".to_string());
    u.published_at = Some("2024-05-01T00:00:00+00:00".to_string());
    u.is_archived = Some(true);
    let b = apply_bookmark_update(saved_bookmark(), u.clone());
    assert_eq!(b.title.as_deref(), Some("New"));
    assert_eq!(b.favicon_url.as_deref(), Some("https://a.example/favicon.ico"));
    assert_eq!(b.published_at.as_deref(), Some("2024-05-01T00:00:00+00:00"));
    assert_eq!(b.description, None);
    assert!(b.is_archived);
    let again = apply_bookmark_update(b.clone(), u);
    assert_eq!(again.title, b.title);
    assert_eq!(again.is_archived, b.is_archived);
    let same = apply_bookmark_update(saved_bookmark(), no_update());
    assert_eq!(same.title.as_deref(), Some("Old"));
    assert!(!same.is_archived);
}

#[test]
fn a_second_bookmark_for_a_url_is_refused() {
    assert!(check_new_bookmark_url(false, "https://a.example").is_ok());
    let e = check_new_bookmark_url(true, "https://a.example").unwrap_err();
    assert!(matches!(e, AppError::BadRequest(_)));
    assert_eq!(e.detail(), "Bookmark with URL https://a.example already exists");
}

#[test]
fn tagging_names_the_first_unknown_tag() {
    assert!(check_tags_found(&strings(&["t1", "t2"]), &strings(&["t2", "t1", "t3"])).is_ok());
    assert!(check_tags_found(&strings(&[]), &strings(&[])).is_ok());
    let e = check_tags_found(&strings(&["t1", "t7", "t8"]), &strings(&["t1"])).unwrap_err();
    assert!(matches!(e, AppError::NotFound(_)));
    assert_eq!(e.detail(), "Tag t7 not found");
}

#[test]
fn a_pull_page_stores_its_cursor_only_when_no_change_failed() {
    let next = PullCursor { received_at: 20, change_id: 2 };
    let mut ok = PullBatch::new();
    ok.record("tags", "tag_1", ApplyOutcome::Applied);
    ok.record("task_tags", "task_1|tag_1", ApplyOutcome::MissingParent);
    assert!(!ok.is_failed());
    let (deferred, cursor) = ok.finish(Some(next.clone())).unwrap();
    assert_eq!(deferred, 1);
    assert_eq!(cursor, Some(next.clone()));

    let mut bad = PullBatch::new();
    bad.record("tags", "tag_1", ApplyOutcome::Applied);
    bad.record("resource_links", "link-1", ApplyOutcome::Failed(AppError::LibSQL("NOT NULL constraint failed".to_string())));
    assert!(bad.is_failed());
    let e = bad.finish(Some(next)).unwrap_err();
    assert!(matches!(e, AppError::Sync(_)));
    assert!(e.detail().contains("failed to apply change"));
    assert_eq!(e.detail(), "failed to apply change resource_links link-1: LibSQL error: NOT NULL constraint failed");
}

#[test]
fn migrations_split_into_statements_keeping_trigger_bodies_whole() {
    let sql = "-- schema\nCREATE TABLE a (id TEXT); -- the table\n\nCREATE TRIGGER t AFTER INSERT ON a\nBEGIN\n  INSERT INTO b VALUES (1);\n  UPDATE c SET x = 2;\nEND;\nCREATE INDEX i ON a(id)";
    let statements = split_migration_sql(sql);
    assert_eq!(
        statements,
        vec![
            "CREATE TABLE a (id TEXT);".to_string(),
            "CREATE TRIGGER t AFTER INSERT ON a BEGIN INSERT INTO b VALUES (1); UPDATE c SET x = 2; END;".to_string(),
            "CREATE INDEX i ON a(id)".to_string(),
        ]
    );
    assert_eq!(split_migration_sql("select 1;; beginx; end;"), vec!["select 1;".to_string(), ";".to_string(), "beginx;".to_string(), "end;".to_string()]);
    assert_eq!(split_migration_sql("-- only a comment\n   \n"), Vec::<String>::new());
    let applied = strings(&["001_initial_schema", "003_fts_triggers"]);
    let versions = strings(&["001_initial_schema", "002_search_and_fts", "003_fts_triggers", "004_media_and_transcription"]);
    assert_eq!(pending_migrations(&applied, &versions), vec![1, 3]);
    assert!(matches!(plan_migration(&applied, "001_initial_schema", "CREATE TABLE x (y);"), MigrationStep::AlreadyApplied));
    assert!(matches!(plan_migration(&applied, "009", "  \n "), MigrationStep::Empty));
    match plan_migration(&applied, "009", "CREATE TABLE x (y);") {
        MigrationStep::Run(s) => assert_eq!(s, vec!["CREATE TABLE x (y);".to_string()]),
        _ => panic!("expected statements"),
    }
    assert!(is_vector_index_statement("CREATE INDEX v ON e(libsql_vector_idx(embedding))"));
    assert!(!is_vector_index_statement("CREATE INDEX v ON e(id)"));
}

#[test]
fn each_write_restarts_the_push_debounce() {
    let mut s = aether_core::sync_schedule::SyncScheduler::new();
    assert!(!s.should_flush_at(10_000));
    s.record_write_at(1_000);
    assert!(!s.should_flush_at(3_999));
    assert!(s.should_flush_at(4_000));
    s.record_write_at(3_500);
    assert!(!s.should_flush_at(4_000));
    assert!(!s.should_flush_at(6_499));
    assert!(s.should_flush_at(6_500));
    assert!(!s.should_flush_at(100));
    s.clear();
    assert!(!s.should_flush_at(1_000_000));
    s.on_local_write();
    assert!(!s.should_flush());
}

#[test]
fn update_checks_wait_for_the_cooldown_and_the_back_off() {
    let mut m = UpdateManager::new();
    assert!(m.should_check_at(0));
    m.record_check_at(1_000, false);
    assert!(!m.should_check_at(1_000 + 1_799_999));
    assert!(m.should_check_at(1_000 + 1_800_000));
    m.record_check_at(2_000_000, true);
    assert!(!m.should_check_at(2_000_000 + 1_800_000));
    assert!(m.should_check_at(2_000_000 + 3_600_000));
    m.record_check_at(6_000_000, false);
    assert!(!m.should_check_at(6_000_000 + 1_799_999));
    assert!(m.should_check_at(6_000_000 + 1_800_000));
}

#[test]
fn the_change_feed_listener_waits_retries_and_syncs_on_signal() {
    let mut b = ReconnectBackoff::new();
    assert_eq!(feed_listener_step(&mut b, FeedEvent::NoServer), FeedAction::WaitForServer);
    assert_eq!(feed_listener_step(&mut b, FeedEvent::ServerConfigured), FeedAction::Retry);
    assert_eq!(feed_listener_step(&mut b, FeedEvent::IdentityUnavailable), FeedAction::Sleep(10));
    assert_eq!(feed_listener_step(&mut b, FeedEvent::ConnectFailed), FeedAction::Sleep(1));
    assert_eq!(feed_listener_step(&mut b, FeedEvent::ConnectFailed), FeedAction::Sleep(2));
    assert_eq!(feed_listener_step(&mut b, FeedEvent::RequestInvalid), FeedAction::Sleep(4));
    assert_eq!(feed_listener_step(&mut b, FeedEvent::Connected), FeedAction::Listen);
    assert_eq!(feed_listener_step(&mut b, FeedEvent::Text(" sync\n".into())), FeedAction::Sync);
    assert_eq!(feed_listener_step(&mut b, FeedEvent::Text("synced".into())), FeedAction::Ignore);
    assert_eq!(feed_listener_step(&mut b, FeedEvent::OtherMessage), FeedAction::Ignore);
    assert_eq!(feed_listener_step(&mut b, FeedEvent::Closed), FeedAction::Sleep(1));
    assert_eq!(b.current(), 2);
    for _ in 0..10 {
        feed_listener_step(&mut b, FeedEvent::ConnectFailed);
    }
    assert_eq!(b.current(), 60);
}

#[test]
fn sync_runs_only_when_connected_unlocked_idle_and_focused() {
    assert!(focus_sync_due(true, false, false));
    assert!(!focus_sync_due(false, false, false));
    assert!(!focus_sync_due(true, true, false));
    assert!(!focus_sync_due(true, false, true));
    assert!(periodic_sync_due(true, true, false, false));
    assert!(!periodic_sync_due(false, true, false, false));
}
