use bevy_persist::data::{FileFormat, PersistData};
use bevy_persist::error::PersistError;
use bevy_persist::manager::{BuildProfile, PersistManager, RonForms};
use bevy_persist::mode::PersistMode;
use bevy_persist::paths::{dev_file_name, embed_file_path};
use bevy_persist::storage::{create_storage, path_to_key, FileSystemStorage};
use bevy_persist::system::{
    embedded_format_of, load_persisted, load_source, persist_system, Found, LoadSource, PersistStep,
};

fn sample() -> PersistData {
    let mut d = PersistData::new();
    d.insert("volume", serde_json::to_value(0.5f32));
    d
}

const COMPACT: &str = "(values:{\"volume\":0.5})";

fn forms() -> RonForms {
    RonForms {
        compact: Ok(COMPACT.to_string()),
        pretty: Ok("(\n    values: {\n        \"volume\": 0.5,\n    },\n)".to_string()),
    }
}

#[test]
fn unchanged_resource_is_not_saved() {
    let mut m = PersistManager::new("O", "App");
    let steps = persist_system(&mut m, "Settings", PersistMode::Dev, false, sample(), &forms(), ".").unwrap();
    assert!(steps.is_empty());
    assert!(m.get_persist_file().get_type_data("Settings").is_none());
}

#[test]
fn resource_without_auto_save_is_not_saved() {
    let mut m = PersistManager::new("O", "App");
    m.set_type_auto_save("Settings".to_string(), false);
    let steps = persist_system(&mut m, "Settings", PersistMode::Dev, true, sample(), &forms(), ".").unwrap();
    assert!(steps.is_empty());
    m.auto_save = false;
    let steps = persist_system(&mut m, "Other", PersistMode::Dev, true, sample(), &forms(), ".").unwrap();
    assert!(steps.is_empty());
}

#[test]
fn changed_resource_goes_to_dev_file() {
    let mut m = PersistManager::new("O", "My App");
    let steps = persist_system(&mut m, "Settings", PersistMode::Dynamic, true, sample(), &forms(), ".").unwrap();
    assert_eq!(steps.len(), 1);
    match &steps[0] {
        PersistStep::WriteMainFile { request } => {
            assert_eq!(request.path, "my_app_dev.ron");
            assert_eq!(request.format, FileFormat::Ron);
        }
        _ => panic!("the main file is written"),
    }
    assert!(m.get_persist_file().get_type_data("Settings").is_some());
}

#[test]
fn embedded_resource_in_development_also_goes_to_embed_file() {
    let mut m = PersistManager::new("O", "App");
    let steps = persist_system(&mut m, "Game::Balance", PersistMode::Embed, true, sample(), &forms(), "/root").unwrap();
    assert_eq!(steps.len(), 2);
    match &steps[0] {
        PersistStep::WriteFile { file, request } => {
            assert_eq!(request.path, "/root/assets/persist/game_balance.ron");
            assert_eq!(file.type_data.len(), 1);
            assert!(file.get_type_data("Game::Balance").is_some());
        }
        _ => panic!("the embed file is written first"),
    }
    assert!(matches!(steps[1], PersistStep::WriteMainFile { .. }));
}

#[test]
fn production_embedded_resource_is_not_saved() {
    let mut m = PersistManager::new("O", "App").with_profile(BuildProfile::Production);
    let steps = persist_system(&mut m, "Balance", PersistMode::Embed, true, sample(), &forms(), ".").unwrap();
    assert!(steps.is_empty());
}

#[test]
fn production_dynamic_resource_goes_to_its_own_file() {
    let mut m = PersistManager::new("O", "App").with_profile(BuildProfile::Production);
    let steps = persist_system(&mut m, "UserSettings", PersistMode::Dynamic, true, sample(), &forms(), ".").unwrap();
    assert_eq!(steps.len(), 1);
    match &steps[0] {
        PersistStep::WriteFile { file, request } => {
            assert!(request.path.ends_with("usersettings.ron"));
            assert_eq!(request.format, FileFormat::Ron);
            assert!(file.get_type_data("UserSettings").is_some());
        }
        _ => panic!("the resource's own file is written"),
    }
    assert!(m.get_persist_file().get_type_data("UserSettings").is_none());
}

#[test]
fn load_sources_by_mode() {
    let dev = PersistManager::new("O", "App");
    assert!(load_source(&dev, "S", PersistMode::Dev, None, ".").is_none());
    match load_source(&dev, "Balance", PersistMode::Embed, None, "/base") {
        Some(LoadSource::File { path }) => assert_eq!(path, "/base/assets/persist/balance.ron"),
        _ => panic!("development reads the embed file"),
    }
    let prod = PersistManager::new("O", "App").with_profile(BuildProfile::Production);
    match load_source(&prod, "Balance", PersistMode::Embed, Some("(x: 1)"), ".") {
        Some(LoadSource::Embedded { format }) => assert_eq!(format, FileFormat::Ron),
        _ => panic!("production reads embedded data"),
    }
    assert!(load_source(&prod, "Balance", PersistMode::Embed, None, ".").is_none());
    assert!(load_source(&prod, "S", PersistMode::Dev, None, ".").is_none());
    match load_source(&prod, "UserSettings", PersistMode::Dynamic, None, ".") {
        Some(LoadSource::File { path }) => assert!(path.ends_with("usersettings.ron")),
        _ => panic!("production reads a dynamic resource's own file"),
    }
    match load_source(&prod, "SaveGame", PersistMode::Secure, None, ".") {
        Some(LoadSource::Sealed { request }) => {
            assert!(request.sealed);
            assert!(request.path.ends_with("savegame.dat"));
        }
        _ => panic!("production reads a secure resource's payload"),
    }
}

#[test]
fn production_secure_resource_is_sealed_and_read_back() {
    let mut m = PersistManager::new("O", "App")
        .with_profile(BuildProfile::Production)
        .with_secret("test_secret");
    let steps = persist_system(&mut m, "SaveGame", PersistMode::Secure, true, sample(), &forms(), ".").unwrap();
    assert_eq!(steps.len(), 1);
    let (path, bytes) = match &steps[0] {
        PersistStep::WriteSealed { path, bytes } => (path.clone(), bytes.clone()),
        _ => panic!("the sealed payload is written"),
    };
    assert!(path.ends_with("savegame.dat"));
    assert_eq!(bytes.len(), 16 + 12 + COMPACT.len() + 16);
    assert!(!bytes.windows(6).any(|w| w == b"volume"));
    assert!(m.get_persist_file().get_type_data("SaveGame").is_none());

    let request = match load_source(&m, "SaveGame", PersistMode::Secure, None, ".") {
        Some(LoadSource::Sealed { request }) => request,
        _ => panic!("the payload is read back"),
    };
    assert_eq!(request.path, path);
    let text = m.finish_load_sealed(&request, Ok(Some(bytes))).unwrap();
    assert_eq!(text, COMPACT);
}

#[test]
fn production_secure_resource_without_secret_is_base64() {
    let mut m = PersistManager::new("O", "App").with_profile(BuildProfile::Production);
    let steps = persist_system(&mut m, "SaveGame", PersistMode::Secure, true, sample(), &forms(), ".").unwrap();
    match &steps[0] {
        PersistStep::WriteSealed { bytes, .. } => {
            assert_eq!(bytes.as_slice(), b"KHZhbHVlczp7InZvbHVtZSI6MC41fSk=");
        }
        _ => panic!("the encoded payload is written"),
    }
}

#[test]
fn production_secure_resource_that_did_not_serialize_is_an_error() {
    let mut m = PersistManager::new("O", "App")
        .with_profile(BuildProfile::Production)
        .with_secret("k");
    let bad = RonForms { compact: Err("no".to_string()), pretty: Err("no".to_string()) };
    let r = persist_system(&mut m, "SaveGame", PersistMode::Secure, true, sample(), &bad, ".");
    match r {
        Err(PersistError::SerializationError(m)) => assert_eq!(m, "no"),
        _ => panic!("a serialization error"),
    }
}

#[test]
fn embedded_format_detection() {
    assert_eq!(embedded_format_of("data.ron"), FileFormat::Ron);
    assert_eq!(embedded_format_of("(a: 1)"), FileFormat::Ron);
    assert_eq!(embedded_format_of("{\"a\": 1}"), FileFormat::Json);
}

#[test]
fn loaded_data_prefers_found_file() {
    let mut m = PersistManager::new("O", "App");
    let mut cached = PersistData::new();
    cached.insert("v", serde_json::to_value(1));
    m.get_persist_file_mut()
        .set_type_data("S".to_string(), cached);

    let mut found = bevy_persist::data::PersistFile::new();
    let mut d = PersistData::new();
    d.insert("v", serde_json::to_value(2));
    found.set_type_data("S".to_string(), d);

    let r = load_persisted(&m, "S", Some(Found::File(found))).unwrap();
    assert_eq!(r.get("v").cloned(), Some(serde_json::Value::from(2)));

    let r = load_persisted(&m, "S", None).unwrap();
    assert_eq!(r.get("v").cloned(), Some(serde_json::Value::from(1)));

    let empty = bevy_persist::data::PersistFile::new();
    let r = load_persisted(&m, "S", Some(Found::File(empty))).unwrap();
    assert_eq!(r.get("v").cloned(), Some(serde_json::Value::from(1)));

    assert!(load_persisted(&m, "Missing", None).is_none());

    let mut opened = PersistData::new();
    opened.insert("v", serde_json::to_value(3));
    let r = load_persisted(&m, "S", Some(Found::Data(opened))).unwrap();
    assert_eq!(r.get("v").cloned(), Some(serde_json::Value::from(3)));
}

#[test]
fn storage_and_names() {
    assert_eq!(create_storage(), FileSystemStorage::new());
    assert_eq!(FileSystemStorage::default(), FileSystemStorage);
    assert_eq!(path_to_key("saves/game.dat"), "bevy_persist_saves_gamedat");
    assert_eq!(path_to_key("a\\b c-d_e"), "bevy_persist_a_bc-d_e");
    assert_eq!(dev_file_name("My Great Game"), "my_great_game_dev.ron");
    assert_eq!(embed_file_path(".", "A::B"), "./assets/persist/a_b.ron");
}
