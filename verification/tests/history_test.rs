use std::path::MAIN_SEPARATOR;

use tui_torrent::history::{DownloadHistoryEntry, DownloadStatus, HistoryManager, HISTORY_LIMIT};

fn entry(gid: &str, name: &str, status: DownloadStatus) -> DownloadHistoryEntry {
    DownloadHistoryEntry { gid: gid.to_string(), name: name.to_string(), status }
}

fn gids(history: &[DownloadHistoryEntry]) -> Vec<String> {
    history.iter().map(|e| e.gid.clone()).collect()
}

#[test]
fn add_download_appends_newest_last() {
    let mut history = Vec::new();
    HistoryManager::add_download(&mut history, entry("g1", "one", DownloadStatus::Downloading));
    HistoryManager::add_download(&mut history, entry("g2", "two", DownloadStatus::Paused));
    assert_eq!(gids(&history), vec!["g1", "g2"]);
    assert_eq!(history[1].name, "two");
    assert_eq!(history[1].status, DownloadStatus::Paused);
}

#[test]
fn add_download_keeps_last_hundred() {
    assert_eq!(HISTORY_LIMIT, 100);
    let mut history = Vec::new();
    for i in 0..100 {
        HistoryManager::add_download(&mut history, entry(&format!("g{}", i), "x", DownloadStatus::Completed));
    }
    assert_eq!(history.len(), 100);
    assert_eq!(history[0].gid, "g0");
    HistoryManager::add_download(&mut history, entry("g100", "x", DownloadStatus::Downloading));
    assert_eq!(history.len(), 100);
    assert_eq!(history[0].gid, "g1");
    assert_eq!(history[99].gid, "g100");
}

#[test]
fn add_download_trims_oversized_history() {
    let mut history: Vec<DownloadHistoryEntry> =
        (0..150).map(|i| entry(&format!("g{}", i), "x", DownloadStatus::Completed)).collect();
    HistoryManager::add_download(&mut history, entry("new", "x", DownloadStatus::Downloading));
    assert_eq!(history.len(), 100);
    assert_eq!(history[0].gid, "g51");
    assert_eq!(history[99].gid, "new");
}

#[test]
fn update_status_changes_first_match_only() {
    let mut history = vec![
        entry("a", "first", DownloadStatus::Downloading),
        entry("b", "second", DownloadStatus::Downloading),
        entry("b", "third", DownloadStatus::Downloading),
    ];
    let found = HistoryManager::update_download_status(&mut history, "b", DownloadStatus::Completed);
    assert!(found);
    assert_eq!(history[0].status, DownloadStatus::Downloading);
    assert_eq!(history[1].status, DownloadStatus::Completed);
    assert_eq!(history[1].name, "second");
    assert_eq!(history[2].status, DownloadStatus::Downloading);
    assert_eq!(gids(&history), vec!["a", "b", "b"]);
}

#[test]
fn update_status_unknown_gid_changes_nothing() {
    let mut history = vec![entry("a", "first", DownloadStatus::Paused)];
    let found = HistoryManager::update_download_status(&mut history, "zz", DownloadStatus::Failed);
    assert!(!found);
    assert_eq!(history.len(), 1);
    assert_eq!(history[0].status, DownloadStatus::Paused);
    let mut empty: Vec<DownloadHistoryEntry> = Vec::new();
    assert!(!HistoryManager::update_download_status(&mut empty, "a", DownloadStatus::Failed));
    assert!(empty.is_empty());
}

#[test]
fn update_status_twice_is_idempotent() {
    let mut history = vec![entry("a", "x", DownloadStatus::Downloading), entry("b", "y", DownloadStatus::Paused)];
    assert!(HistoryManager::update_download_status(&mut history, "b", DownloadStatus::Completed));
    assert!(HistoryManager::update_download_status(&mut history, "b", DownloadStatus::Completed));
    assert_eq!(gids(&history), vec!["a", "b"]);
    assert_eq!(history[1].status, DownloadStatus::Completed);
    assert_eq!(history[0].status, DownloadStatus::Downloading);
}

#[test]
fn history_file_in_home_directory() {
    let manager = HistoryManager::in_home(Some("/home/user".to_string()));
    assert_eq!(
        manager.history_file(),
        &format!("/home/user{}.tui_torrent_history.json", MAIN_SEPARATOR)
    );
    let manager = HistoryManager::in_home(Some("/home/user/".to_string()));
    assert_eq!(manager.history_file(), "/home/user/.tui_torrent_history.json");
}

#[test]
fn history_file_in_empty_directory_text() {
    let manager = HistoryManager::in_home(Some(String::new()));
    assert_eq!(manager.history_file(), ".tui_torrent_history.json");
}

#[test]
fn history_file_without_home_directory() {
    let manager = HistoryManager::in_home(None);
    assert_eq!(manager.history_file(), &format!(".{}.tui_torrent_history.json", MAIN_SEPARATOR));
}

#[test]
fn history_file_default_location() {
    let manager = HistoryManager::new();
    assert!(manager.history_file().ends_with(&format!("{}.tui_torrent_history.json", MAIN_SEPARATOR)));
    let manager = HistoryManager::default();
    assert!(manager.history_file().ends_with(".tui_torrent_history.json"));
}

#[test]
fn added_download_can_be_updated() {
    let mut history: Vec<DownloadHistoryEntry> =
        (0..100).map(|i| entry(&format!("g{}", i), "x", DownloadStatus::Completed)).collect();
    HistoryManager::add_download(&mut history, entry("fresh", "new", DownloadStatus::Downloading));
    assert!(HistoryManager::update_download_status(&mut history, "fresh", DownloadStatus::Paused));
    assert_eq!(history[99].status, DownloadStatus::Paused);
}
