use serde_json::Value;
use bevy_persist::data::{FileFormat, LoadPlan, PersistData, PersistFile, PACKAGE_VERSION};
use bevy_persist::error::PersistError;
use bevy_persist::StringMap;
use serde::de::DeserializeOwned;
use serde::Serialize;

fn put<T: Serialize>(data: &mut PersistData, key: &str, value: T) {
    data.insert(key, serde_json::to_value(value));
}

fn get_as<T: DeserializeOwned>(data: &PersistData, key: &str) -> Option<T> {
    data.get(key).and_then(|v| serde_json::from_value(v.clone()).ok())
}

/// Writes a file's text in the library's data form (each type's data as the
/// JSON object `to_json_object` makes, under `values`), reads the text back
/// and rebuilds the file from what was read with `from_serialized`.
fn write_and_read(file: &PersistFile, write: FileFormat, read: FileFormat) -> PersistFile {
    let mut types = serde_json::Map::new();
    for (name, data) in file.type_data.entries() {
        let mut entry = serde_json::Map::new();
        entry.insert("values".to_string(), data.to_json_object());
        types.insert(name.clone(), Value::Object(entry));
    }
    let mut whole = serde_json::Map::new();
    whole.insert("type_data".to_string(), Value::Object(types));
    whole.insert("last_saved".to_string(), Value::String(file.last_saved.clone()));
    whole.insert("version".to_string(), Value::String(file.version.clone()));
    let whole = Value::Object(whole);
    let text = match write {
        FileFormat::Json => serde_json::to_string_pretty(&whole).unwrap(),
        FileFormat::Ron => ron::ser::to_string_pretty(&whole, ron::ser::PrettyConfig::default()).unwrap(),
    };
    let parsed: Value = match read {
        FileFormat::Json => serde_json::from_str(&text).unwrap(),
        FileFormat::Ron => ron::from_str(&text).unwrap(),
    };
    let mut loaded = PersistFile::new();
    for (name, entry) in parsed["type_data"].as_object().unwrap() {
        loaded.set_type_data(name.clone(), PersistData::from_serialized(Ok(entry["values"].clone())));
    }
    loaded.last_saved = parsed["last_saved"].as_str().unwrap().to_string();
    loaded.version = parsed["version"].as_str().unwrap().to_string();
    loaded
}

/// The format in which a file at `path` is read.
fn read_format(path: &str) -> FileFormat {
    match PersistFile::load_from_file(path, true) {
        LoadPlan::Parse { format, .. } => format,
        LoadPlan::Fresh(_) => panic!("an existing file is parsed"),
    }
}

#[test]
fn test_persist_data_insert_and_get() {
    let mut data = PersistData::new();

    put(&mut data, "number", 42i32);
    put(&mut data, "text", "hello");
    put(&mut data, "float", std::f64::consts::PI);

    assert_eq!(get_as::<i32>(&data, "number"), Some(42));
    assert_eq!(get_as::<String>(&data, "text"), Some("hello".to_string()));
    assert_eq!(get_as::<f64>(&data, "float"), Some(std::f64::consts::PI));
    assert_eq!(get_as::<i32>(&data, "nonexistent"), None);
}

#[test]
fn test_persist_data_complex_types() {
    let mut object = serde_json::Map::new();
    object.insert("name".to_string(), serde_json::Value::String("test".to_string()));
    object.insert("value".to_string(), serde_json::Value::from(100));
    let test_struct = serde_json::Value::Object(object);

    let mut data = PersistData::new();
    data.insert("struct", Ok(test_struct.clone()));

    let retrieved = data.get("struct").cloned();
    assert_eq!(retrieved, Some(test_struct));
}

#[test]
fn test_persist_data_default() {
    let data = PersistData::default();
    assert!(data.values.is_empty());
}

#[test]
fn test_persist_file_new() {
    let file = PersistFile::new();

    assert!(file.type_data.is_empty());
    assert!(!file.last_saved.is_empty());
    assert_eq!(file.version, "0.1.0");
    assert_eq!(file.version, PACKAGE_VERSION);
}

#[test]
fn test_persist_file_type_data() {
    let mut file = PersistFile::new();
    let mut data = PersistData::new();
    put(&mut data, "test_key", "test_value");

    file.set_type_data("TestType".to_string(), data.clone());

    let retrieved = file.get_type_data("TestType");
    assert!(retrieved.is_some());
    assert_eq!(
        get_as::<String>(retrieved.unwrap(), "test_key"),
        Some("test_value".to_string())
    );

    assert!(file.get_type_data("NonExistent").is_none());
}

#[test]
fn test_persist_file_save_and_load_json() {
    let mut file = PersistFile::new();
    let mut data = PersistData::new();
    put(&mut data, "key1", "value1");
    put(&mut data, "key2", 42);
    file.set_type_data("TestResource".to_string(), data);

    let request = file.save_to_file("/tmp/persist/test.json");
    assert_eq!(request.path, "/tmp/persist/test.json");
    assert_eq!(request.format, FileFormat::Json);

    match PersistFile::load_from_file("/tmp/persist/test.json", true) {
        LoadPlan::Parse { path, format } => {
            assert_eq!(path, "/tmp/persist/test.json");
            assert_eq!(format, FileFormat::Json);
        }
        LoadPlan::Fresh(_) => panic!("an existing file is parsed"),
    }
    let loaded = write_and_read(&file, request.format, read_format("/tmp/persist/test.json"));

    assert_eq!(loaded.type_data.len(), 1);
    assert_eq!(loaded.version, file.version);
    assert_eq!(loaded.last_saved, file.last_saved);
    let loaded_data = loaded.get_type_data("TestResource").unwrap();
    assert_eq!(get_as::<String>(loaded_data, "key1"), Some("value1".to_string()));
    assert_eq!(get_as::<i32>(loaded_data, "key2"), Some(42));
}

#[test]
fn test_persist_file_save_and_load_ron() {
    let mut file = PersistFile::new();
    let mut data = PersistData::new();
    put(&mut data, "name", "Ron Test");
    put(&mut data, "count", 100);
    file.set_type_data("RonResource".to_string(), data);

    let request = file.save_to_file("/tmp/persist/test.ron");
    assert_eq!(request.format, FileFormat::Ron);

    assert_eq!(read_format("/tmp/persist/test.ron"), FileFormat::Ron);
    let loaded = write_and_read(&file, request.format, read_format("/tmp/persist/test.ron"));

    assert_eq!(loaded.type_data.len(), 1);
    assert_eq!(loaded.version, file.version);
    let loaded_data = loaded.get_type_data("RonResource").unwrap();
    assert_eq!(get_as::<String>(loaded_data, "name"), Some("Ron Test".to_string()));
    assert_eq!(get_as::<i32>(loaded_data, "count"), Some(100));
}

#[test]
fn test_persist_file_load_nonexistent() {
    // A file that does not exist loads as a new, empty file.
    match PersistFile::load_from_file("/tmp/persist/nonexistent.json", false) {
        LoadPlan::Fresh(file) => assert!(file.type_data.is_empty()),
        LoadPlan::Parse { .. } => panic!("a missing file is not parsed"),
    }
}

#[test]
fn test_persist_file_format_detection() {
    let mut data = PersistData::new();
    put(&mut data, "test_key", "test_value");

    let mut json_file = PersistFile::new();
    json_file.set_type_data("TestType".to_string(), data.clone());
    let json_request = json_file.save_to_file("/tmp/persist/test.json");
    assert_eq!(json_request.format, FileFormat::Json);

    let mut ron_file = PersistFile::new();
    ron_file.set_type_data("TestType".to_string(), data);
    let ron_request = ron_file.save_to_file("/tmp/persist/test.ron");
    assert_eq!(ron_request.format, FileFormat::Ron);

    let json_loaded = write_and_read(&json_file, json_request.format, read_format("/tmp/persist/test.json"));
    let ron_loaded = write_and_read(&ron_file, ron_request.format, read_format("/tmp/persist/test.ron"));
    let json_data = json_loaded.get_type_data("TestType").unwrap();
    let ron_data = ron_loaded.get_type_data("TestType").unwrap();
    assert_eq!(get_as::<String>(json_data, "test_key"), Some("test_value".to_string()));
    assert_eq!(get_as::<String>(ron_data, "test_key"), Some("test_value".to_string()));
}

#[test]
fn test_auto_save_integration() {
    let mut persist_file = PersistFile::new();
    let mut data = PersistData::new();
    put(&mut data, "volume", 0.75f32);
    put(&mut data, "name", "modified");
    put(&mut data, "enabled", false);
    persist_file.set_type_data("TestSettings".to_string(), data);
    let request = persist_file.save_to_file("auto_save_test.json");
    assert_eq!(request.format, FileFormat::Json);

    let loaded = write_and_read(&persist_file, request.format, read_format("auto_save_test.json"));
    let data = loaded.get_type_data("TestSettings").unwrap();
    assert_eq!(get_as::<f32>(data, "volume"), Some(0.75));
    assert_eq!(get_as::<String>(data, "name"), Some("modified".to_string()));
    assert_eq!(get_as::<bool>(data, "enabled"), Some(false));
}

#[test]
fn test_multiple_resources() {
    let mut persist_file = PersistFile::new();

    let mut data1 = PersistData::new();
    put(&mut data1, "volume", 0.9f32);
    put(&mut data1, "name", "resource1");
    put(&mut data1, "enabled", true);
    persist_file.set_type_data("TestSettings".to_string(), data1);

    let mut data2 = PersistData::new();
    put(&mut data2, "value", 123i32);
    put(&mut data2, "text", "resource2");
    persist_file.set_type_data("ManualSaveSettings".to_string(), data2);

    let request = persist_file.save_to_file("multiple_resources.json");
    assert_eq!(request.format, FileFormat::Json);

    let loaded = write_and_read(&persist_file, request.format, read_format("multiple_resources.json"));
    let data1 = loaded.get_type_data("TestSettings").unwrap();
    assert_eq!(get_as::<f32>(data1, "volume"), Some(0.9));
    assert_eq!(get_as::<String>(data1, "name"), Some("resource1".to_string()));

    let data2 = loaded.get_type_data("ManualSaveSettings").unwrap();
    assert_eq!(get_as::<i32>(data2, "value"), Some(123));
    assert_eq!(get_as::<String>(data2, "text"), Some("resource2".to_string()));
}

#[test]
fn test_ron_format() {
    let mut persist_file = PersistFile::new();
    let mut data = PersistData::new();
    put(&mut data, "volume", 0.33f32);
    put(&mut data, "name", "ron_test");
    put(&mut data, "enabled", true);
    persist_file.set_type_data("TestSettings".to_string(), data);
    let request = persist_file.save_to_file("test_settings.ron");
    assert_eq!(request.format, FileFormat::Ron);

    let loaded = write_and_read(&persist_file, request.format, read_format("test_settings.ron"));
    let data = loaded.get_type_data("TestSettings").unwrap();
    assert_eq!(get_as::<f32>(data, "volume"), Some(0.33));
    assert_eq!(get_as::<String>(data, "name"), Some("ron_test".to_string()));
    assert_eq!(get_as::<bool>(data, "enabled"), Some(true));
}

#[test]
fn insert_of_a_failed_serialization_keeps_data() {
    let mut data = PersistData::new();
    put(&mut data, "a", 1);
    let failed: Result<serde_json::Value, serde_json::Error> =
        serde_json::from_str::<serde_json::Value>("{ not json");
    assert!(failed.is_err());
    data.insert("a", failed);
    assert_eq!(get_as::<i32>(&data, "a"), Some(1));
    assert_eq!(data.values.len(), 1);
}

#[test]
fn insert_replaces_value_of_same_key() {
    let mut data = PersistData::new();
    put(&mut data, "k", 1);
    put(&mut data, "other", 2);
    put(&mut data, "k", 3);
    assert_eq!(get_as::<i32>(&data, "k"), Some(3));
    assert_eq!(get_as::<i32>(&data, "other"), Some(2));
    assert_eq!(data.values.len(), 2);
}

#[test]
fn data_from_serialized_object_and_back() {
    let mut object = serde_json::Map::new();
    object.insert("volume".to_string(), serde_json::Value::from(0.5));
    object.insert("name".to_string(), serde_json::Value::String("test".to_string()));
    object.insert("enabled".to_string(), serde_json::Value::Bool(true));
    let value = serde_json::Value::Object(object);

    let data = PersistData::from_serialized(Ok(value.clone()));
    assert_eq!(data.values.len(), 3);
    assert_eq!(get_as::<f32>(&data, "volume"), Some(0.5));
    assert_eq!(get_as::<String>(&data, "name"), Some("test".to_string()));
    assert_eq!(get_as::<bool>(&data, "enabled"), Some(true));

    assert_eq!(data.to_json_object(), value);
}

#[test]
fn data_from_serialized_non_object_is_empty() {
    let data = PersistData::from_serialized(Ok(serde_json::Value::from(7)));
    assert!(data.values.is_empty());
    let data = PersistData::from_serialized(serde_json::from_str::<serde_json::Value>("]"));
    assert!(data.values.is_empty());
}

#[test]
fn file_read_content_errors() {
    assert_eq!(
        PersistFile::read_content(Ok(Some("x".to_string()))).unwrap(),
        "x".to_string()
    );
    match PersistFile::read_content(Ok(None)) {
        Err(PersistError::IoError(m)) => assert_eq!(m, "File not found"),
        _ => panic!("expected an I/O error"),
    }
    match PersistFile::read_content(Err(PersistError::IoError("disk".to_string()))) {
        Err(PersistError::IoError(m)) => assert_eq!(m, "Failed to read file: IO error: disk"),
        _ => panic!("expected an I/O error"),
    }
    match PersistFile::parse_error(FileFormat::Ron, "bad") {
        PersistError::SerializationError(m) => assert_eq!(m, "RON parse error: bad"),
        _ => panic!("expected a serialization error"),
    }
    match PersistFile::serialize_error(FileFormat::Json, "bad") {
        PersistError::SerializationError(m) => assert_eq!(m, "JSON serialization error: bad"),
        _ => panic!("expected a serialization error"),
    }
}

#[test]
fn format_follows_extension() {
    assert_eq!(bevy_persist::data::file_format_of("a/b/settings.ron"), FileFormat::Ron);
    assert_eq!(bevy_persist::data::file_format_of("settings.json"), FileFormat::Json);
    assert_eq!(bevy_persist::data::file_format_of("settings"), FileFormat::Json);
    assert_eq!(bevy_persist::data::file_format_of(".ron"), FileFormat::Json);
    assert_eq!(bevy_persist::data::file_format_of("x.ron.bak"), FileFormat::Json);
}

#[test]
fn string_map_basics() {
    let mut m: StringMap<i32> = StringMap::new();
    assert!(m.is_empty());
    m.insert("a".to_string(), 1);
    m.insert("b".to_string(), 2);
    m.insert("a".to_string(), 3);
    assert_eq!(m.len(), 2);
    assert_eq!(m.get("a"), Some(&3));
    assert_eq!(m.get("b"), Some(&2));
    assert_eq!(m.get("c"), None);
    assert!(m.contains_key("b"));
    assert!(!m.contains_key("c"));
    assert_eq!(m.entries().len(), 2);
}

#[test]
fn json_object_read_and_written_back_is_the_same_object() {
    let v: serde_json::Value =
        serde_json::from_str(r#"{"volume": 0.5, "name": "x", "nested": {"a": [1, 2]}}"#).unwrap();
    let data = PersistData::from_serialized(Ok(v.clone()));
    assert_eq!(data.values.len(), 3);
    assert_eq!(data.to_json_object(), v);
}
