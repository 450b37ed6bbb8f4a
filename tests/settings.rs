use mcp_control::codec::{compress_data, decompress_data};
use mcp_control::{greet, SettingsStore};

#[test]
fn update_then_read_round_trips() {
    let mut store = SettingsStore::new("{\"b\":2}".to_string());
    store.update("{\"a\":1}".to_string());
    assert_eq!(store.read(), "{\"a\":1}");
}

#[test]
fn corrupted_store_reads_empty_object() {
    let store = SettingsStore::new("{\"a\":".to_string());
    assert_eq!(store.read(), "{}");
    let store = SettingsStore::new("not json".to_string());
    assert_eq!(store.read(), "{}");
    let store = SettingsStore::new(String::new());
    assert_eq!(store.read(), "{}");
}

#[test]
fn valid_initial_settings_are_served() {
    let store = SettingsStore::new("[1, 2, 3]".to_string());
    assert_eq!(store.read(), "[1, 2, 3]");
}

#[test]
fn brotli_round_trip() {
    let data = b"settings settings settings settings".to_vec();
    let packed = compress_data(data.clone()).unwrap();
    assert_ne!(packed, data);
    assert_eq!(decompress_data(packed).unwrap(), data);
}

#[test]
fn brotli_rejects_garbage() {
    assert!(decompress_data(vec![0xff, 0xff, 0xff, 0xff, 0x00]).is_err());
}

#[test]
fn greeting() {
    assert_eq!(greet("Ada"), "Hello, Ada! You've been greeted from Rust!");
}
