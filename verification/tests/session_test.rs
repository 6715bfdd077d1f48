use tui_torrent::aria2_client::TorrentStatus;
use tui_torrent::session::{
    next, ready_status, AppMode, Clock, SessionAction, SessionEvent, SessionStage, SessionState,
    StatusMessage,
};
use tui_torrent::torrent_search::TorrentSearchResult;

fn hit(name: &str, seeders: u32) -> TorrentSearchResult {
    TorrentSearchResult {
        name: name.to_string(),
        size: "700 MB".to_string(),
        seeders,
        leechers: 1,
        magnet_link: format!("magnet:?xt=urn:btih:{}", name),
        source: "YTS".to_string(),
    }
}

fn download(gid: &str) -> TorrentStatus {
    TorrentStatus {
        gid: gid.to_string(),
        status: "active".to_string(),
        total_length: "10".to_string(),
        completed_length: "5".to_string(),
        download_speed: "1".to_string(),
        info_hash: None,
        bittorrent: None,
    }
}

fn at(ms_since_tick: u64, ms_since_refresh: u64) -> Clock {
    Clock { ms_since_tick, ms_since_refresh }
}

/// One step with a clock at which neither the refresh nor the animation
/// is due.
fn run(state: &mut SessionState, event: SessionEvent) -> Vec<SessionAction> {
    next(state, event, at(0, 0))
}

fn tick(
    state: &mut SessionState,
    input_changed: bool,
    ms_since_tick: u64,
    ms_since_refresh: u64,
) -> Vec<SessionAction> {
    next(state, SessionEvent::Tick { input_changed }, at(ms_since_tick, ms_since_refresh))
}

fn quiet_tick() -> SessionEvent {
    SessionEvent::Tick { input_changed: false }
}

#[test]
fn ready_status_short_directory() {
    assert_eq!(
        ready_status("/home/user/Downloads"),
        "Ready - Downloads: /home/user/Downloads - Press 's' to search"
    );
    let forty = "a".repeat(40);
    assert_eq!(ready_status(&forty), format!("Ready - Downloads: {} - Press 's' to search", forty));
}

#[test]
fn ready_status_long_directory_keeps_last_37() {
    let dir = format!("/{}", "b".repeat(40));
    let expected_tail = "b".repeat(37);
    assert_eq!(
        ready_status(&dir),
        format!("Ready - Downloads: ...{} - Press 's' to search", expected_tail)
    );
}

#[test]
fn ready_status_cuts_on_characters() {
    let dir = "é".repeat(45);
    assert_eq!(
        ready_status(&dir),
        format!("Ready - Downloads: ...{} - Press 's' to search", "é".repeat(37))
    );
}

#[test]
fn new_session_status_lines() {
    let state = SessionState::new(true, "/data".to_string());
    assert_eq!(state.status.text(), "Ready - Downloads: /data - Press 's' to search");
    assert_eq!(state.mode, AppMode::Normal);
    let state = SessionState::new(false, "/data".to_string());
    assert_eq!(state.status.text(), "Warning - Search only (aria2 is not available/installed)");
}

#[test]
fn quit_comes_first() {
    let mut state = SessionState::new(true, ".".to_string());
    state.should_quit = true;
    state.download_requested = true;
    let actions = run(&mut state, quiet_tick());
    assert_eq!(actions.len(), 1);
    assert!(matches!(actions[0], SessionAction::Quit));
}

#[test]
fn search_shows_frame_then_searches() {
    let mut state = SessionState::new(false, ".".to_string());
    state.mode = AppMode::Searching;
    state.search_query = "ubuntu".to_string();
    state.search_in_progress = true;
    let actions = run(&mut state, quiet_tick());
    assert_eq!(actions.len(), 1);
    assert!(matches!(actions[0], SessionAction::Render));
    assert!(state.search_frame_shown);
    assert!(matches!(state.stage, SessionStage::Idle));

    let actions = run(&mut state, quiet_tick());
    assert_eq!(actions.len(), 1);
    match &actions[0] {
        SessionAction::Search { query, category } => {
            assert_eq!(query, "ubuntu");
            assert!(category.is_none());
        }
        other => panic!("unexpected action {:?}", other),
    }
    assert!(matches!(state.stage, SessionStage::AwaitingSearch));

    let actions = run(&mut state, SessionEvent::SearchDone(Ok(vec![hit("a", 3), hit("b", 9)])));
    assert!(matches!(actions.last(), Some(SessionAction::Render)));
    assert_eq!(state.search_results.len(), 2);
    assert!(!state.search_in_progress);
    assert!(!state.search_frame_shown);
    assert!(matches!(state.stage, SessionStage::Idle));
}

#[test]
fn search_error_sets_status() {
    let mut state = SessionState::new(false, ".".to_string());
    state.mode = AppMode::Searching;
    state.search_in_progress = true;
    state.search_frame_shown = true;
    run(&mut state, quiet_tick());
    run(&mut state, SessionEvent::SearchDone(Err("timed out".to_string())));
    assert_eq!(state.status.text(), "Search failed: timed out");
    assert!(!state.search_in_progress);
}

#[test]
fn download_without_aria2() {
    let mut state = SessionState::new(false, ".".to_string());
    state.search_results = vec![hit("a", 1)];
    state.download_requested = true;
    let actions = run(&mut state, quiet_tick());
    assert!(matches!(actions.last(), Some(SessionAction::Render)));
    assert!(!state.download_requested);
    assert_eq!(state.status.text(), "Cannot download: aria2 is not available/installed");
}

#[test]
fn download_adds_selected_torrent() {
    let mut state = SessionState::new(true, ".".to_string());
    state.mode = AppMode::Searching;
    state.search_results = vec![hit("a", 1), hit("b", 2)];
    state.selected_index = 1;
    state.download_requested = true;
    let actions = run(&mut state, quiet_tick());
    assert_eq!(actions.len(), 1);
    match &actions[0] {
        SessionAction::AddTorrent(link) => assert_eq!(link, "magnet:?xt=urn:btih:b"),
        other => panic!("unexpected action {:?}", other),
    }
    let actions = run(&mut state, SessionEvent::TorrentAdded(Ok("gid42".to_string())));
    assert!(matches!(actions.last(), Some(SessionAction::Render)));
    assert_eq!(state.status.text(), "Added torrent: b (GID: gid42)");
    assert_eq!(state.mode, AppMode::Normal);
    assert!(!state.download_requested);
}

#[test]
fn download_failure_keeps_mode() {
    let mut state = SessionState::new(true, ".".to_string());
    state.mode = AppMode::Searching;
    state.search_results = vec![hit("a", 1)];
    state.download_requested = true;
    run(&mut state, quiet_tick());
    run(&mut state, SessionEvent::TorrentAdded(Err("connection refused".to_string())));
    assert_eq!(state.status.text(), "Failed to add torrent: connection refused");
    assert_eq!(state.mode, AppMode::Searching);
}

#[test]
fn confirmed_pause_relists_downloads() {
    let mut state = SessionState::new(true, ".".to_string());
    state.pause_requested = Some("g1".to_string());
    let actions = run(&mut state, quiet_tick());
    assert_eq!(actions.len(), 1);
    assert!(matches!(&actions[0], SessionAction::Pause(g) if g == "g1"));
    assert!(state.pause_requested.is_none());
    let actions = run(&mut state, SessionEvent::PauseDone(Ok(Ok("g1".to_string()))));
    assert_eq!(actions.len(), 1);
    assert!(matches!(actions[0], SessionAction::ListDownloads));
    assert_eq!(state.status.text(), "Paused download (GID: g1)");
    let actions = run(&mut state, SessionEvent::DownloadsListed(Ok(vec![download("g1")])));
    assert!(matches!(actions.last(), Some(SessionAction::Render)));
    assert_eq!(state.active_downloads.len(), 1);
    assert!(matches!(state.stage, SessionStage::Idle));
}

#[test]
fn failed_relisting_after_pause_is_silent() {
    let mut state = SessionState::new(true, ".".to_string());
    state.pause_requested = Some("g1".to_string());
    run(&mut state, quiet_tick());
    run(&mut state, SessionEvent::PauseDone(Ok(Ok("OK".to_string()))));
    run(&mut state, SessionEvent::DownloadsListed(Err("down".to_string())));
    assert_eq!(state.status.text(), "Paused download (GID: g1)");
}

#[test]
fn pause_refused_and_rpc_error() {
    let mut state = SessionState::new(true, ".".to_string());
    state.pause_requested = Some("g1".to_string());
    run(&mut state, quiet_tick());
    run(&mut state, SessionEvent::PauseDone(Ok(Err("GID g1 is not found".to_string()))));
    assert_eq!(state.status.text(), "Failed to pause: GID g1 is not found");

    state.pause_requested = Some("g2".to_string());
    run(&mut state, quiet_tick());
    run(&mut state, SessionEvent::PauseDone(Err("error sending request".to_string())));
    assert_eq!(state.status.text(), "RPC error: error sending request");
}

#[test]
fn pause_and_resume_without_aria2() {
    let mut state = SessionState::new(false, ".".to_string());
    state.pause_requested = Some("g1".to_string());
    run(&mut state, quiet_tick());
    assert_eq!(state.status.text(), "Cannot pause: aria2 is not available");
    state.resume_requested = Some("g1".to_string());
    run(&mut state, quiet_tick());
    assert_eq!(state.status.text(), "Cannot resume: aria2 is not available");
    assert!(state.resume_requested.is_none());
}

#[test]
fn resume_outcomes() {
    let mut state = SessionState::new(true, ".".to_string());
    state.resume_requested = Some("g3".to_string());
    let actions = run(&mut state, quiet_tick());
    assert!(matches!(&actions[0], SessionAction::Resume(g) if g == "g3"));
    let actions = run(&mut state, SessionEvent::ResumeDone(Ok(Ok("OK".to_string()))));
    assert!(matches!(actions[0], SessionAction::ListDownloads));
    assert_eq!(state.status.text(), "Resumed download (GID: g3)");
    run(&mut state, SessionEvent::DownloadsListed(Ok(Vec::new())));

    state.resume_requested = Some("g4".to_string());
    run(&mut state, quiet_tick());
    run(&mut state, SessionEvent::ResumeDone(Ok(Err("bad".to_string()))));
    assert_eq!(state.status.text(), "Failed to resume: bad");
}

#[test]
fn periodic_refresh_every_two_seconds() {
    let mut state = SessionState::new(true, ".".to_string());
    let actions = tick(&mut state, false, 0, 1999);
    assert!(actions.is_empty());
    let actions = tick(&mut state, false, 0, 2000);
    assert_eq!(actions.len(), 1);
    assert!(matches!(actions[0], SessionAction::RefreshDownloads));
    let actions = run(&mut state, SessionEvent::DownloadsListed(Err("timeout".to_string())));
    assert!(matches!(actions.last(), Some(SessionAction::Render)));
    assert_eq!(state.status.text(), "Error updating downloads: timeout");

    let mut offline = SessionState::new(false, ".".to_string());
    let actions = tick(&mut offline, false, 0, 5000);
    assert!(actions.is_empty());
}

#[test]
fn animation_tick_periods() {
    let mut state = SessionState::new(false, ".".to_string());
    let actions = tick(&mut state, false, 99, 0);
    assert!(actions.is_empty());
    let actions = tick(&mut state, false, 100, 0);
    assert_eq!(actions.len(), 2);
    assert!(matches!(actions[0], SessionAction::AdvanceAnimation));
    assert!(matches!(actions[1], SessionAction::Render));

    state.search_in_progress = true;
    let actions = tick(&mut state, false, 149, 0);
    assert!(actions.is_empty());
    let actions = tick(&mut state, false, 150, 0);
    assert!(matches!(actions[0], SessionAction::AdvanceAnimation));
}

#[test]
fn input_change_renders() {
    let mut state = SessionState::new(false, ".".to_string());
    let actions = tick(&mut state, true, 0, 0);
    assert_eq!(actions.len(), 1);
    assert!(matches!(actions[0], SessionAction::Render));
}

#[test]
fn unexpected_event_is_ignored() {
    let mut state = SessionState::new(true, ".".to_string());
    let actions = run(&mut state, SessionEvent::TorrentAdded(Ok("g".to_string())));
    assert!(actions.is_empty());
    assert!(matches!(state.status, StatusMessage::Ready { .. }));
    state.pause_requested = Some("g1".to_string());
    run(&mut state, quiet_tick());
    let actions = run(&mut state, quiet_tick());
    assert!(actions.is_empty());
    assert!(matches!(state.stage, SessionStage::AwaitingPause { .. }));
}

#[test]
fn clock_is_read_when_an_outcome_arrives() {
    let mut state = SessionState::new(true, ".".to_string());
    state.pause_requested = Some("g1".to_string());
    let actions = tick(&mut state, false, 0, 0);
    assert!(matches!(&actions[0], SessionAction::Pause(_)));
    let actions = next(
        &mut state,
        SessionEvent::PauseDone(Ok(Err("busy".to_string()))),
        at(0, 2500),
    );
    assert_eq!(actions.len(), 1);
    assert!(matches!(actions[0], SessionAction::RefreshDownloads));
    assert_eq!(state.ms_since_refresh, 2500);
}
