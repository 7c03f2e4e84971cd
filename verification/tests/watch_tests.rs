use filebridge::watch::WatchManager;
use std::sync::mpsc::channel;

#[test]
fn new_manager_is_idle() {
    let m = WatchManager::new();
    assert!(!m.is_watching());
    assert!(m.current_path().is_none());
}

#[test]
fn watch_missing_path_fails_and_leaves_idle() {
    let (tx, _rx) = channel::<String>();
    let mut m = WatchManager::new();
    let r = m.start_watching("no/such/file/exists.here".to_string(), tx);
    assert!(r.is_err());
    assert!(!m.is_watching());
    assert!(m.current_path().is_none());
    let msg = r.unwrap_err().message();
    assert!(
        msg.starts_with("Failed to watch file: ") || msg.starts_with("Failed to create watcher: ")
    );
}

#[test]
fn second_watch_supersedes_first() {
    let (tx, _rx) = channel::<String>();
    let mut m = WatchManager::new();
    m.start_watching("/etc/hostname".to_string(), tx.clone()).unwrap();
    assert_eq!(m.current_path().unwrap().as_str(), "/etc/hostname");
    m.start_watching("/etc/hosts".to_string(), tx).unwrap();
    assert_eq!(m.current_path().unwrap().as_str(), "/etc/hosts");
    assert!(m.is_watching());
}

#[test]
fn failed_watch_clears_previous_session() {
    let (tx, _rx) = channel::<String>();
    let mut m = WatchManager::new();
    m.start_watching("/etc/hostname".to_string(), tx.clone()).unwrap();
    assert!(m.start_watching("missing-file-xyz".to_string(), tx).is_err());
    assert!(!m.is_watching());
    assert!(m.current_path().is_none());
}

#[test]
fn stop_watching_is_idempotent() {
    let (tx, _rx) = channel::<String>();
    let mut m = WatchManager::new();
    m.stop_watching();
    assert!(!m.is_watching());
    m.start_watching("/etc/hostname".to_string(), tx).unwrap();
    m.stop_watching();
    assert!(!m.is_watching());
    m.stop_watching();
    assert!(!m.is_watching());
}
