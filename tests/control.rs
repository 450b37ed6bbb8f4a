use mcp_control::control::{decimal_text, settings_url, start_sync_server, stop_sync_server};
use mcp_control::{SettingsStore, SyncError, SyncService};

#[test]
fn start_returns_settings_url() {
    let mut svc = SyncService::new();
    assert!(!svc.is_running());
    assert_eq!(svc.begin_start(), Ok(()));
    let (url, _rx) = svc.finish_start(Ok(("192.168.1.20".to_string(), 53000))).unwrap();
    assert_eq!(url, "http://192.168.1.20:53000/settings");
    assert!(svc.is_running());
}

#[test]
fn second_start_is_already_running() {
    let mut svc = SyncService::new();
    let (_url, mut rx) = svc.finish_start(Ok(("10.0.0.2".to_string(), 4000))).unwrap();
    assert_eq!(svc.begin_start(), Err(SyncError::AlreadyRunning));
    let again = svc.finish_start(Ok(("10.0.0.2".to_string(), 4001)));
    assert!(matches!(again, Err(SyncError::AlreadyRunning)));
    assert!(svc.is_running());
    // the first server's shutdown channel is still the live one
    assert!(rx.try_recv().is_err());
    assert_eq!(svc.stop(), Ok(()));
    assert_eq!(rx.try_recv(), Ok(()));
}

#[test]
fn stop_without_server_is_not_running() {
    let mut svc = SyncService::new();
    assert_eq!(svc.stop(), Err(SyncError::NotRunning));
    assert_eq!(stop_sync_server(&mut svc), Err("Server not running".to_string()));
}

#[test]
fn stop_after_task_died_reports_signal_failure() {
    let mut svc = SyncService::new();
    let (_url, rx) = svc.finish_start(Ok(("10.0.0.2".to_string(), 1))).unwrap();
    drop(rx);
    assert_eq!(svc.stop(), Err(SyncError::ShutdownSignalFailed));
    assert!(!svc.is_running());
    assert_eq!(SyncError::ShutdownSignalFailed.message(), "Failed to send shutdown signal");
}

#[test]
fn bind_failure_leaves_slot_free() {
    let mut svc = SyncService::new();
    let r = svc.finish_start(Err("address in use".to_string()));
    assert!(matches!(r, Err(SyncError::BindFailure(ref m)) if m == "address in use"));
    assert!(!svc.is_running());
    let r = start_sync_server(&mut svc, Ok(("127.0.0.1".to_string(), 9))).map(|(u, _)| u);
    assert_eq!(r, Ok("http://127.0.0.1:9/settings".to_string()));
    let r = start_sync_server(&mut svc, Ok(("127.0.0.1".to_string(), 10))).map(|(u, _)| u);
    assert_eq!(r, Err("Server already running".to_string()));
}

#[test]
fn decimal_edges() {
    assert_eq!(decimal_text(0), "0");
    assert_eq!(decimal_text(9), "9");
    assert_eq!(decimal_text(10), "10");
    assert_eq!(decimal_text(65535), "65535");
    assert_eq!(settings_url("h", 0), "http://h:0/settings");
}

#[test]
fn start_post_get_stop_scenario() {
    let mut svc = SyncService::new();
    let (url, mut rx) = svc.finish_start(Ok(("192.168.0.7".to_string(), 41234))).unwrap();
    assert_eq!(url, "http://192.168.0.7:41234/settings");
    let mut store = SettingsStore::new("{}".to_string());
    store.update("{\"theme\":\"dark\"}".to_string());
    assert_eq!(store.read(), "{\"theme\":\"dark\"}");
    assert_eq!(stop_sync_server(&mut svc), Ok(()));
    assert_eq!(rx.try_recv(), Ok(()));
    assert!(!svc.is_running());
}
