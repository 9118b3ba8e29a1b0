use vstd::prelude::*;

pub mod sync_schedule;
pub mod text;
pub mod fields;
pub mod decimal;
pub mod codec;
pub mod error;
pub mod cursor;
pub mod pagination;
pub mod sync_types;
pub mod sync_ordering;
pub mod crypto;
pub mod sync_crypto;
pub mod settings;
pub mod search;
pub mod search_text;
pub mod journal_ai;
pub mod clock;
pub mod updater;
pub mod window_focus;
pub mod platform;
pub mod media;
pub mod models;
pub mod legacy_import;
pub mod sync_http;
pub mod sync_push;
pub mod sync_apply;
pub mod sync_meta;
pub mod sync_engine;
pub mod handlers;
pub mod search_document;
pub mod tasks;
pub mod journal_openai;
pub mod sql;
pub mod goals;
pub mod links;
pub mod bookmarks;
pub mod tagging;
pub mod sync_pull;
pub mod migrations;
