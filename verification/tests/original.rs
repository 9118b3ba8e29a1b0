use aether_core::platform::{desktop, DeviceIdentityStore, HostEnvironment, HostOs, PlatformCapabilities, SyncLifecycle};
use aether_core::search::{escape_fts_query, ResourceType};
use aether_core::settings;
use aether_core::sync_crypto::{decode_changes, decrypt, derive_key, encrypt, generate_salt, key_check_hash};
use aether_core::sync_ordering::sort_for_dependencies;
use aether_core::sync_types::{ChangeEnvelope, ChangeOp, EncryptedChange};
use std::path::Path;

#[test]
fn test_resource_type_from_str() {
    assert_eq!(ResourceType::from_str("entry"), Some(ResourceType::Entry));
    assert_eq!(ResourceType::from_str("task"), Some(ResourceType::Task));
    assert_eq!(ResourceType::from_str("subtask"), Some(ResourceType::SubTask));
    assert_eq!(ResourceType::from_str("goal"), Some(ResourceType::Goal));
    assert_eq!(ResourceType::from_str("tag"), Some(ResourceType::Tag));
    assert_eq!(ResourceType::from_str("bookmark"), Some(ResourceType::Bookmark));
    assert_eq!(ResourceType::from_str("invalid"), None);
    assert_eq!(ResourceType::from_str("ENTRY"), Some(ResourceType::Entry));
}

#[test]
fn test_escape_fts_query() {
    assert_eq!(escape_fts_query("test"), "test");
    assert_eq!(escape_fts_query("test\"quote"), "test\"\"quote");
}

/// The host this test runs on, as the `directories` crate sees it: the home directory, the
/// roaming data directory (where `APPDATA` points on Windows) and the system, told apart by
/// the path separator and the shape of the data directory.
fn host() -> HostEnvironment {
    let base = directories::BaseDirs::new();
    let data_dir = base.as_ref().map(|b| b.data_dir().to_string_lossy().into_owned());
    let os = if std::path::MAIN_SEPARATOR == '\\' {
        HostOs::Windows
    } else if data_dir.as_deref().map_or(false, |d| d.ends_with("Library/Application Support")) {
        HostOs::MacOs
    } else {
        HostOs::Linux
    };
    let project_dirs = directories::ProjectDirs::from("com.cas", "aether", "com.cas.aether").map(|d| {
        (d.data_local_dir().to_string_lossy().into_owned(), d.cache_dir().to_string_lossy().into_owned())
    });
    HostEnvironment {
        os,
        home: base.as_ref().map(|b| b.home_dir().to_string_lossy().into_owned()),
        appdata: if os == HostOs::Windows { data_dir } else { None },
        project_dirs,
    }
}

#[test]
fn desktop_capabilities_keep_device_identity_and_sync_lifecycle_explicit() {
    let platform = desktop(host());

    assert_eq!(platform.device_identity_store(), DeviceIdentityStore::DatabaseMetadata);
    assert_eq!(platform.sync_lifecycle(), SyncLifecycle::ForegroundWindow);
}

#[test]
fn desktop_storage_paths_are_scoped_to_separate_capabilities() {
    let paths = desktop(host()).storage_paths().expect("desktop paths resolve");

    assert!(Path::new(&paths.app_data).is_absolute());
    assert!(Path::new(&paths.media).is_absolute());
    assert!(Path::new(&paths.cache).is_absolute());
    assert!(Path::new(&paths.models).starts_with(&paths.app_data));
    assert_ne!(paths.logs, paths.media);
}

#[test]
fn desktop_media_path_preserves_the_existing_storage_location() {
    let media = desktop(host()).storage_paths().expect("desktop paths resolve").media;

    match host().os {
        HostOs::MacOs => assert!(Path::new(&media).ends_with("Library/Application Support/Aether/media")),
        HostOs::Linux => assert!(Path::new(&media).ends_with(".local/share/aether/media")),
        HostOs::Windows => assert!(Path::new(&media).ends_with("Aether\\media")),
        HostOs::Other => {}
    }
}

#[test]
fn test_encrypt_decrypt() {
    let original = "test_api_key_12345";
    let encrypted = settings::encrypt(original).unwrap();
    let decrypted = settings::decrypt(&encrypted).unwrap();
    assert_eq!(original, decrypted);
}

#[test]
fn roundtrip() {
    let pass = "test pass";
    let salt = generate_salt();
    let key = derive_key(pass, &salt).unwrap();
    let plain = b"hello";
    let (n, c) = encrypt(&key, plain).unwrap();
    let out = decrypt(&key, &n, &c).unwrap();
    assert_eq!(&out[..], plain);
}

#[test]
fn key_check() {
    let key = [1u8; 32];
    let h = key_check_hash(&key);
    assert_eq!(h.len(), 64);
}

fn change(entity: &str) -> ChangeEnvelope {
    ChangeEnvelope {
        entity: entity.into(),
        id: entity.into(),
        op: ChangeOp::Upsert,
        data: None,
        updated_at: 1,
        device_id: "device".into(),
        device_hostname: "host".into(),
    }
}

#[test]
fn places_task_tag_parents_before_the_join_row() {
    let mut changes = vec![change("task_tags"), change("tasks"), change("tags")];

    sort_for_dependencies(&mut changes);

    assert_eq!(
        changes.iter().map(|change| change.entity.as_str()).collect::<Vec<_>>(),
        ["tags", "tasks", "task_tags"]
    );
}

#[test]
fn refuses_a_pull_page_with_an_undecodable_change() {
    let error = decode_changes(
        &[0; 32],
        &[EncryptedChange { nonce: "not-base64".into(), ciphertext: "not-base64".into() }],
    )
    .unwrap_err();

    assert!(error.message().contains("pull decrypt"));
}
