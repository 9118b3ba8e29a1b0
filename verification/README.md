# aether_core

The core of the Aether desktop journal: a local-first store of entries, tasks, goals, tags and
bookmarks that syncs between devices through an end-to-end encrypted server.

`src/` is the library, written in Verus: every function carries a contract that the verifier
proves. It holds

- sync: dependency ordering of pulled changes (`sync_ordering`), the last-write-wins decision
  (`sync_apply`), the outbox and push batches (`sync_push`), server URLs (`sync_http`), key
  material and device ids (`sync_meta`), applying a pulled page (`sync_pull`), the engine's
  state, the change-feed listener's steps and when sync runs (`sync_engine`), encryption of
  changes and media (`sync_crypto`) and the push debounce (`sync_schedule`);
- task, goal and bookmark updates, goal instances, links and tagging (`tasks`, `goals`,
  `bookmarks`, `links`, `tagging`, `handlers`);
- settings encryption (`settings`), cursors and paging (`cursor`, `pagination`, `tasks`),
  search filters and the search index's documents (`search`, `search_document`,
  `search_text`), SQL literals (`sql`);
- journal enrichment drafts, by rules and from a language model's answer (`journal_ai`,
  `journal_openai`);
- schema migrations: which run, and how a migration's SQL is cut into statements
  (`migrations`);
- the import of January 2026 databases (`legacy_import`), media files and models (`media`,
  `models`), platform paths for each operating system (`platform`), update checks
  (`updater`), and the text, number and byte helpers they share (`text`, `fields`,
  `decimal`, `codec`, `crypto`).

Calls into outside crates (base64, hex, sha2, argon2, chacha20poly1305, aes-gcm, rand,
chrono, urlencoding, image, blurhash) sit behind small trusted wrappers whose contracts say
what the crates document; `serde_json::Value` is carried through as an opaque type.

`app/` is ordinary Rust around the library: what the host tells at start-up (the operating
system, `HOME`, `APPDATA`, the `directories` crate's paths), database access with libsql
(settings, sync, migrations, the legacy import), HTTP with reqwest (the sync server, media
blobs and the language-model service), files on disk, and the serde forms of the library's
types. `tests/` exercises the library.
