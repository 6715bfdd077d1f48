//! The interactive session: what the client does next, as a step function
//! from the session state and an event to the actions the caller performs.
//!
//! One pass of the main loop serves, in this order: a pending search (a
//! "searching" frame is shown first, the search runs on the next pass), a
//! pending download of the selected result, a pending pause, a pending
//! resume, the periodic refresh of the download list, and the animation
//! tick; the screen is redrawn at the end of a pass when anything changed.
//! A step stops at the first action whose outcome it needs; the caller
//! performs the actions in order and reports that outcome as the next event.

use vstd::prelude::*;

use crate::aria2_client::TorrentStatus;
use crate::torrent_search::TorrentSearchResult;

verus! {

/// Period of the animation tick while a search runs, in milliseconds.
pub const SEARCH_TICK_MS: u64 = 150;

/// Period of the animation tick otherwise, in milliseconds.
pub const IDLE_TICK_MS: u64 = 100;

/// How often the download list is refreshed, in milliseconds.
pub const REFRESH_INTERVAL_MS: u64 = 2000;

/// Directory texts longer than this many characters are shortened.
pub const DIR_DISPLAY_LIMIT: usize = 40;

/// A shortened directory text keeps this many of its last characters.
pub const DIR_DISPLAY_TAIL: usize = 37;

/// What the screen shows.
#[derive(Clone, Copy, Debug, PartialEq, Eq, Structural)]
pub enum AppMode {
    Normal,
    Searching,
}

/// The status line.
#[derive(Debug)]
pub enum StatusMessage {
    Ready { download_dir: String },
    SearchOnly,
    SearchFailed { error: String },
    CannotDownload,
    TorrentAdded { name: String, gid: String },
    AddFailed { error: String },
    Paused { gid: String },
    PauseFailed { error: String },
    CannotPause,
    Resumed { gid: String },
    ResumeFailed { error: String },
    CannotResume,
    RpcFailed { error: String },
    RefreshFailed { error: String },
}

/// The outcome that the session waits for, if any.
#[derive(Debug)]
pub enum SessionStage {
    Idle,
    AwaitingSearch,
    AwaitingAdd { name: String },
    AwaitingPause { gid: String },
    AwaitingPauseListing,
    AwaitingResume { gid: String },
    AwaitingResumeListing,
    AwaitingRefresh,
}

/// The time, read when an event is handed in, since the last animation
/// tick and since the last periodic refresh, in milliseconds.
#[derive(Clone, Copy, Debug)]
pub struct Clock {
    pub ms_since_tick: u64,
    pub ms_since_refresh: u64,
}

/// What happened: a loop pass begins, or an action's outcome is in.
/// Errors are given as their text.
pub enum SessionEvent {
    /// A new pass of the loop, after the keyboard was read: whether input
    /// changed anything.
    Tick { input_changed: bool },
    SearchDone(Result<Vec<TorrentSearchResult>, String>),
    TorrentAdded(Result<String, String>),
    /// The RPC outcome (`Err`), or aria2's answer: `Ok` or its error message.
    PauseDone(Result<Result<String, String>, String>),
    ResumeDone(Result<Result<String, String>, String>),
    DownloadsListed(Result<Vec<TorrentStatus>, String>),
}

/// What the caller is to do.
#[derive(Debug)]
pub enum SessionAction {
    Render,
    Search { query: String, category: Option<String> },
    AddTorrent(String),
    Pause(String),
    Resume(String),
    /// List the downloads after a pause or resume.
    ListDownloads,
    /// List the downloads for the periodic refresh, and restart its clock.
    RefreshDownloads,
    /// Advance the loading animation, and restart the tick clock.
    AdvanceAnimation,
    Quit,
}

/// The state of an interactive session. The input handler sets the request
/// fields (`search_in_progress` with `mode`, `download_requested`,
/// `pause_requested`, `resume_requested`, `should_quit`) between passes.
pub struct SessionState {
    pub mode: AppMode,
    pub aria2_available: bool,
    pub search_in_progress: bool,
    pub search_query: String,
    pub selected_category: Option<String>,
    pub search_frame_shown: bool,
    pub search_results: Vec<TorrentSearchResult>,
    pub selected_index: usize,
    pub download_requested: bool,
    pub pause_requested: Option<String>,
    pub resume_requested: Option<String>,
    pub should_quit: bool,
    pub status: StatusMessage,
    pub active_downloads: Vec<TorrentStatus>,
    pub stage: SessionStage,
    pub needs_render: bool,
    pub ms_since_tick: u64,
    pub ms_since_refresh: u64,
}

/// `dir` as the status line shows it: unchanged up to 40 characters,
/// otherwise "..." and its last 37 characters.
pub open spec fn shortened_dir(dir: Seq<char>) -> Seq<char> {
    if dir.len() > DIR_DISPLAY_LIMIT {
        "..."@ + dir.subrange(dir.len() - DIR_DISPLAY_TAIL, dir.len() as int)
    } else {
        dir
    }
}

/// The status line once aria2 is up.
pub open spec fn ready_text(dir: Seq<char>) -> Seq<char> {
    "Ready - Downloads: "@ + shortened_dir(dir) + " - Press 's' to search"@
}

/// The text of a status line.
pub open spec fn status_text(m: StatusMessage) -> Seq<char> {
    match m {
        StatusMessage::Ready { download_dir } => ready_text(download_dir@),
        StatusMessage::SearchOnly => "Warning - Search only (aria2 is not available/installed)"@,
        StatusMessage::SearchFailed { error } => "Search failed: "@ + error@,
        StatusMessage::CannotDownload => "Cannot download: aria2 is not available/installed"@,
        StatusMessage::TorrentAdded { name, gid } => "Added torrent: "@ + name@ + " (GID: "@ + gid@
            + ")"@,
        StatusMessage::AddFailed { error } => "Failed to add torrent: "@ + error@,
        StatusMessage::Paused { gid } => "Paused download (GID: "@ + gid@ + ")"@,
        StatusMessage::PauseFailed { error } => "Failed to pause: "@ + error@,
        StatusMessage::CannotPause => "Cannot pause: aria2 is not available"@,
        StatusMessage::Resumed { gid } => "Resumed download (GID: "@ + gid@ + ")"@,
        StatusMessage::ResumeFailed { error } => "Failed to resume: "@ + error@,
        StatusMessage::CannotResume => "Cannot resume: aria2 is not available"@,
        StatusMessage::RpcFailed { error } => "RPC error: "@ + error@,
        StatusMessage::RefreshFailed { error } => "Error updating downloads: "@ + error@,
    }
}

/// The animation period that applies in state `s`.
pub open spec fn tick_period_ms(s: SessionState) -> u64 {
    if s.search_in_progress {
        SEARCH_TICK_MS
    } else {
        IDLE_TICK_MS
    }
}

/// The end of a pass: the animation tick when its period has elapsed, then
/// a redraw when anything changed.
pub open spec fn stage_finish(s: SessionState) -> (SessionState, Seq<SessionAction>) {
    let animate = s.ms_since_tick >= tick_period_ms(s);
    let render = s.needs_render || animate;
    (
        SessionState { needs_render: render, stage: SessionStage::Idle, ..s },
        (if animate {
            seq![SessionAction::AdvanceAnimation]
        } else {
            Seq::empty()
        }) + (if render {
            seq![SessionAction::Render]
        } else {
            Seq::empty()
        }),
    )
}

/// The periodic refresh, when aria2 is available and 2 s have passed.
pub open spec fn stage_refresh(s: SessionState) -> (SessionState, Seq<SessionAction>) {
    if s.aria2_available && s.ms_since_refresh >= REFRESH_INTERVAL_MS {
        (
            SessionState { stage: SessionStage::AwaitingRefresh, ..s },
            seq![SessionAction::RefreshDownloads],
        )
    } else {
        stage_finish(s)
    }
}

/// A pending resume request.
pub open spec fn stage_resume(s: SessionState) -> (SessionState, Seq<SessionAction>) {
    match s.resume_requested {
        Some(gid) => if s.aria2_available {
            (
                SessionState {
                    resume_requested: None,
                    stage: SessionStage::AwaitingResume { gid: gid },
                    ..s
                },
                seq![SessionAction::Resume(gid)],
            )
        } else {
            stage_refresh(
                SessionState {
                    resume_requested: None,
                    status: StatusMessage::CannotResume,
                    needs_render: true,
                    ..s
                },
            )
        },
        None => stage_refresh(s),
    }
}

/// A pending pause request.
pub open spec fn stage_pause(s: SessionState) -> (SessionState, Seq<SessionAction>) {
    match s.pause_requested {
        Some(gid) => if s.aria2_available {
            (
                SessionState {
                    pause_requested: None,
                    stage: SessionStage::AwaitingPause { gid: gid },
                    ..s
                },
                seq![SessionAction::Pause(gid)],
            )
        } else {
            stage_resume(
                SessionState {
                    pause_requested: None,
                    status: StatusMessage::CannotPause,
                    needs_render: true,
                    ..s
                },
            )
        },
        None => stage_resume(s),
    }
}

/// A pending download of the selected search result.
pub open spec fn stage_download(s: SessionState) -> (SessionState, Seq<SessionAction>) {
    if s.download_requested && s.search_results.len() > 0 {
        if !s.aria2_available {
            stage_pause(
                SessionState {
                    status: StatusMessage::CannotDownload,
                    download_requested: false,
                    needs_render: true,
                    ..s
                },
            )
        } else if s.selected_index < s.search_results.len() {
            let hit = s.search_results[s.selected_index as int];
            (
                SessionState { stage: SessionStage::AwaitingAdd { name: hit.name }, ..s },
                seq![SessionAction::AddTorrent(hit.magnet_link)],
            )
        } else {
            stage_pause(SessionState { download_requested: false, needs_render: true, ..s })
        }
    } else {
        stage_pause(s)
    }
}

/// A pending search: the first pass shows the "searching" frame, the next
/// one runs the search.
pub open spec fn stage_search(s: SessionState) -> (SessionState, Seq<SessionAction>) {
    if s.mode == AppMode::Searching && s.search_in_progress {
        if !s.search_frame_shown {
            let next = stage_download(SessionState { search_frame_shown: true, ..s });
            (next.0, seq![SessionAction::Render] + next.1)
        } else {
            (
                SessionState { stage: SessionStage::AwaitingSearch, ..s },
                seq![
                    SessionAction::Search {
                        query: s.search_query,
                        category: s.selected_category,
                    },
                ],
            )
        }
    } else {
        stage_download(SessionState { search_frame_shown: false, ..s })
    }
}

/// The state once a search outcome is in.
pub open spec fn searched(
    s: SessionState,
    outcome: Result<Vec<TorrentSearchResult>, String>,
) -> SessionState {
    match outcome {
        Ok(results) => SessionState {
            search_results: results,
            selected_index: 0,
            search_in_progress: false,
            search_frame_shown: false,
            needs_render: true,
            stage: SessionStage::Idle,
            ..s
        },
        Err(error) => SessionState {
            search_in_progress: false,
            status: StatusMessage::SearchFailed { error: error },
            search_frame_shown: false,
            needs_render: true,
            stage: SessionStage::Idle,
            ..s
        },
    }
}

/// The state once the download list that follows a pause or resume is in;
/// a failed listing changes nothing.
pub open spec fn listed_quietly(
    s: SessionState,
    outcome: Result<Vec<TorrentStatus>, String>,
) -> SessionState {
    match outcome {
        Ok(downloads) => SessionState {
            active_downloads: downloads,
            stage: SessionStage::Idle,
            ..s
        },
        Err(_) => SessionState { stage: SessionStage::Idle, ..s },
    }
}

/// The step on an expected event, once the clock is read.
pub open spec fn advance(s: SessionState, e: SessionEvent) -> (SessionState, Seq<SessionAction>) {
    match e {
        SessionEvent::Tick { input_changed } => stage_search(
            SessionState { needs_render: input_changed, ..s },
        ),
        SessionEvent::SearchDone(outcome) => stage_download(searched(s, outcome)),
        SessionEvent::TorrentAdded(outcome) => match s.stage {
            SessionStage::AwaitingAdd { name } => stage_pause(
                match outcome {
                    Ok(gid) => SessionState {
                        status: StatusMessage::TorrentAdded { name: name, gid: gid },
                        mode: AppMode::Normal,
                        download_requested: false,
                        needs_render: true,
                        stage: SessionStage::Idle,
                        ..s
                    },
                    Err(error) => SessionState {
                        status: StatusMessage::AddFailed { error: error },
                        download_requested: false,
                        needs_render: true,
                        stage: SessionStage::Idle,
                        ..s
                    },
                },
            ),
            _ => (s, Seq::empty()),
        },
        SessionEvent::PauseDone(outcome) => match s.stage {
            SessionStage::AwaitingPause { gid } => match outcome {
                Ok(Ok(_)) => (
                    SessionState {
                        status: StatusMessage::Paused { gid: gid },
                        needs_render: true,
                        stage: SessionStage::AwaitingPauseListing,
                        ..s
                    },
                    seq![SessionAction::ListDownloads],
                ),
                Ok(Err(error)) => stage_resume(
                    SessionState {
                        status: StatusMessage::PauseFailed { error: error },
                        needs_render: true,
                        stage: SessionStage::Idle,
                        ..s
                    },
                ),
                Err(error) => stage_resume(
                    SessionState {
                        status: StatusMessage::RpcFailed { error: error },
                        needs_render: true,
                        stage: SessionStage::Idle,
                        ..s
                    },
                ),
            },
            _ => (s, Seq::empty()),
        },
        SessionEvent::ResumeDone(outcome) => match s.stage {
            SessionStage::AwaitingResume { gid } => match outcome {
                Ok(Ok(_)) => (
                    SessionState {
                        status: StatusMessage::Resumed { gid: gid },
                        needs_render: true,
                        stage: SessionStage::AwaitingResumeListing,
                        ..s
                    },
                    seq![SessionAction::ListDownloads],
                ),
                Ok(Err(error)) => stage_refresh(
                    SessionState {
                        status: StatusMessage::ResumeFailed { error: error },
                        needs_render: true,
                        stage: SessionStage::Idle,
                        ..s
                    },
                ),
                Err(error) => stage_refresh(
                    SessionState {
                        status: StatusMessage::RpcFailed { error: error },
                        needs_render: true,
                        stage: SessionStage::Idle,
                        ..s
                    },
                ),
            },
            _ => (s, Seq::empty()),
        },
        SessionEvent::DownloadsListed(outcome) => match s.stage {
            SessionStage::AwaitingPauseListing => stage_resume(listed_quietly(s, outcome)),
            SessionStage::AwaitingResumeListing => stage_refresh(listed_quietly(s, outcome)),
            SessionStage::AwaitingRefresh => stage_finish(
                match outcome {
                    Ok(downloads) => SessionState {
                        active_downloads: downloads,
                        needs_render: true,
                        stage: SessionStage::Idle,
                        ..s
                    },
                    Err(error) => SessionState {
                        status: StatusMessage::RefreshFailed { error: error },
                        needs_render: true,
                        stage: SessionStage::Idle,
                        ..s
                    },
                },
            ),
            _ => (s, Seq::empty()),
        },
    }
}

/// The session with the clock `c` read.
pub open spec fn timed(s: SessionState, c: Clock) -> SessionState {
    SessionState { ms_since_tick: c.ms_since_tick, ms_since_refresh: c.ms_since_refresh, ..s }
}

/// `e` is what a session waiting in `stage` expects next: a new pass when
/// it waits for nothing, otherwise the outcome it waits for.
pub open spec fn awaits(stage: SessionStage, e: SessionEvent) -> bool {
    match stage {
        SessionStage::Idle => e is Tick,
        SessionStage::AwaitingSearch => e is SearchDone,
        SessionStage::AwaitingAdd { .. } => e is TorrentAdded,
        SessionStage::AwaitingPause { .. } => e is PauseDone,
        SessionStage::AwaitingPauseListing => e is DownloadsListed,
        SessionStage::AwaitingResume { .. } => e is ResumeDone,
        SessionStage::AwaitingResumeListing => e is DownloadsListed,
        SessionStage::AwaitingRefresh => e is DownloadsListed,
    }
}

/// `e` is what the session in state `s` expects next.
pub open spec fn is_expected(s: SessionState, e: SessionEvent) -> bool {
    awaits(s.stage, e)
}

/// One step of the session, with the clock read as the event is handed
/// in: the new state and the actions to perform. An event that the session
/// does not wait for changes nothing, and a pending quit ends the session
/// at the start of a pass.
pub open spec fn step(s: SessionState, e: SessionEvent, c: Clock) -> (
    SessionState,
    Seq<SessionAction>,
) {
    if !is_expected(s, e) {
        (s, Seq::empty())
    } else if e is Tick && s.should_quit {
        (s, seq![SessionAction::Quit])
    } else {
        advance(timed(s, c), e)
    }
}

/// The status line shown once aria2 is up, for the download directory
/// `download_dir`.
pub fn ready_status(download_dir: &str) -> (msg: String)
    ensures
        msg@ == ready_text(download_dir@),
{
    let len = download_dir.unicode_len();
    let mut msg = "Ready - Downloads: ".to_owned();
    if len > DIR_DISPLAY_LIMIT {
        msg.append("...");
        msg.append(download_dir.substring_char(len - DIR_DISPLAY_TAIL, len));
    } else {
        msg.append(download_dir);
    }
    msg.append(" - Press 's' to search");
    assert(msg@ =~= ready_text(download_dir@));
    msg
}

/// `a` followed by `b`.
fn joined2(a: &str, b: &str) -> (text: String)
    ensures
        text@ == a@ + b@,
{
    let mut text = a.to_owned();
    text.append(b);
    text
}

/// `a`, `b` and `c` in a row.
fn joined3(a: &str, b: &str, c: &str) -> (text: String)
    ensures
        text@ == a@ + b@ + c@,
{
    let mut text = a.to_owned();
    text.append(b);
    text.append(c);
    text
}

impl StatusMessage {
    /// The text of the status line.
    pub fn text(&self) -> (text: String)
        ensures
            text@ == status_text(*self),
    {
        match self {
            StatusMessage::Ready { download_dir } => ready_status(download_dir.as_str()),
            StatusMessage::SearchOnly => "Warning - Search only (aria2 is not available/installed)".to_owned(),
            StatusMessage::SearchFailed { error } => joined2("Search failed: ", error.as_str()),
            StatusMessage::CannotDownload => "Cannot download: aria2 is not available/installed".to_owned(),
            StatusMessage::TorrentAdded { name, gid } => {
                let mut text = joined3("Added torrent: ", name.as_str(), " (GID: ");
                text.append(gid.as_str());
                text.append(")");
                text
            },
            StatusMessage::AddFailed { error } => joined2("Failed to add torrent: ", error.as_str()),
            StatusMessage::Paused { gid } => joined3("Paused download (GID: ", gid.as_str(), ")"),
            StatusMessage::PauseFailed { error } => joined2("Failed to pause: ", error.as_str()),
            StatusMessage::CannotPause => "Cannot pause: aria2 is not available".to_owned(),
            StatusMessage::Resumed { gid } => joined3("Resumed download (GID: ", gid.as_str(), ")"),
            StatusMessage::ResumeFailed { error } => joined2("Failed to resume: ", error.as_str()),
            StatusMessage::CannotResume => "Cannot resume: aria2 is not available".to_owned(),
            StatusMessage::RpcFailed { error } => joined2("RPC error: ", error.as_str()),
            StatusMessage::RefreshFailed { error } => joined2(
                "Error updating downloads: ",
                error.as_str(),
            ),
        }
    }
}

impl SessionState {
    /// A session with nothing requested: ready when aria2 is available,
    /// search only otherwise.
    pub fn new(aria2_available: bool, download_dir: String) -> (state: Self)
        ensures
            state.mode == AppMode::Normal,
            state.aria2_available == aria2_available,
            !state.search_in_progress,
            state.search_query@ == Seq::<char>::empty(),
            state.selected_category is None,
            !state.search_frame_shown,
            state.search_results@ == Seq::<TorrentSearchResult>::empty(),
            state.selected_index == 0,
            !state.download_requested,
            state.pause_requested is None,
            state.resume_requested is None,
            !state.should_quit,
            state.status == (if aria2_available {
                StatusMessage::Ready { download_dir: download_dir }
            } else {
                StatusMessage::SearchOnly
            }),
            state.active_downloads@ == Seq::<TorrentStatus>::empty(),
            state.stage is Idle,
            !state.needs_render,
            state.ms_since_tick == 0,
            state.ms_since_refresh == 0,
    {
        let status = if aria2_available {
            StatusMessage::Ready { download_dir }
        } else {
            StatusMessage::SearchOnly
        };
        SessionState {
            mode: AppMode::Normal,
            aria2_available,
            search_in_progress: false,
            search_query: String::new(),
            selected_category: None,
            search_frame_shown: false,
            search_results: Vec::new(),
            selected_index: 0,
            download_requested: false,
            pause_requested: None,
            resume_requested: None,
            should_quit: false,
            status,
            active_downloads: Vec::new(),
            stage: SessionStage::Idle,
            needs_render: false,
            ms_since_tick: 0,
            ms_since_refresh: 0,
        }
    }
}

fn run_finish(state: &mut SessionState) -> (actions: Vec<SessionAction>)
    ensures
        *final(state) == stage_finish(*old(state)).0,
        actions@ == stage_finish(*old(state)).1,
{
    let period = if state.search_in_progress {
        SEARCH_TICK_MS
    } else {
        IDLE_TICK_MS
    };
    let animate = state.ms_since_tick >= period;
    let render = state.needs_render || animate;
    state.needs_render = render;
    state.stage = SessionStage::Idle;
    let mut actions: Vec<SessionAction> = Vec::new();
    if animate {
        actions.push(SessionAction::AdvanceAnimation);
    }
    if render {
        actions.push(SessionAction::Render);
    }
    assert(actions@ =~= stage_finish(*old(state)).1);
    actions
}

fn run_refresh(state: &mut SessionState) -> (actions: Vec<SessionAction>)
    ensures
        *final(state) == stage_refresh(*old(state)).0,
        actions@ == stage_refresh(*old(state)).1,
{
    if state.aria2_available && state.ms_since_refresh >= REFRESH_INTERVAL_MS {
        state.stage = SessionStage::AwaitingRefresh;
        let mut actions: Vec<SessionAction> = Vec::new();
        actions.push(SessionAction::RefreshDownloads);
        assert(actions@ =~= seq![SessionAction::RefreshDownloads]);
        actions
    } else {
        run_finish(state)
    }
}

fn run_resume(state: &mut SessionState) -> (actions: Vec<SessionAction>)
    ensures
        *final(state) == stage_resume(*old(state)).0,
        actions@ == stage_resume(*old(state)).1,
{
    match state.resume_requested.take() {
        Some(gid) => {
            if state.aria2_available {
                state.stage = SessionStage::AwaitingResume { gid: gid.clone() };
                let mut actions: Vec<SessionAction> = Vec::new();
                actions.push(SessionAction::Resume(gid));
                assert(actions@ =~= stage_resume(*old(state)).1);
                actions
            } else {
                state.status = StatusMessage::CannotResume;
                state.needs_render = true;
                run_refresh(state)
            }
        },
        None => run_refresh(state),
    }
}

fn run_pause(state: &mut SessionState) -> (actions: Vec<SessionAction>)
    ensures
        *final(state) == stage_pause(*old(state)).0,
        actions@ == stage_pause(*old(state)).1,
{
    match state.pause_requested.take() {
        Some(gid) => {
            if state.aria2_available {
                state.stage = SessionStage::AwaitingPause { gid: gid.clone() };
                let mut actions: Vec<SessionAction> = Vec::new();
                actions.push(SessionAction::Pause(gid));
                assert(actions@ =~= stage_pause(*old(state)).1);
                actions
            } else {
                state.status = StatusMessage::CannotPause;
                state.needs_render = true;
                run_resume(state)
            }
        },
        None => run_resume(state),
    }
}

fn run_download(state: &mut SessionState) -> (actions: Vec<SessionAction>)
    ensures
        *final(state) == stage_download(*old(state)).0,
        actions@ == stage_download(*old(state)).1,
{
    if state.download_requested && state.search_results.len() > 0 {
        if !state.aria2_available {
            state.status = StatusMessage::CannotDownload;
            state.download_requested = false;
            state.needs_render = true;
            run_pause(state)
        } else if state.selected_index < state.search_results.len() {
            let name = state.search_results[state.selected_index].name.clone();
            let link = state.search_results[state.selected_index].magnet_link.clone();
            state.stage = SessionStage::AwaitingAdd { name };
            let mut actions: Vec<SessionAction> = Vec::new();
            actions.push(SessionAction::AddTorrent(link));
            assert(actions@ =~= stage_download(*old(state)).1);
            actions
        } else {
            state.download_requested = false;
            state.needs_render = true;
            run_pause(state)
        }
    } else {
        run_pause(state)
    }
}

fn run_search(state: &mut SessionState) -> (actions: Vec<SessionAction>)
    ensures
        *final(state) == stage_search(*old(state)).0,
        actions@ == stage_search(*old(state)).1,
{
    if state.mode == AppMode::Searching && state.search_in_progress {
        if !state.search_frame_shown {
            state.search_frame_shown = true;
            let mut actions = run_download(state);
            actions.insert(0, SessionAction::Render);
            assert(actions@ =~= stage_search(*old(state)).1);
            actions
        } else {
            let query = state.search_query.clone();
            let category = match &state.selected_category {
                Some(c) => Some(c.clone()),
                None => None,
            };
            state.stage = SessionStage::AwaitingSearch;
            let mut actions: Vec<SessionAction> = Vec::new();
            actions.push(SessionAction::Search { query, category });
            assert(actions@ =~= stage_search(*old(state)).1);
            actions
        }
    } else {
        state.search_frame_shown = false;
        run_download(state)
    }
}

/// Advances the session by one event and returns the actions to perform,
/// in order. When the last action is a search, an addition, a pause, a
/// resume or a listing, its outcome is the next event.
/// Whether a session waiting in `stage` expects `event`.
fn expects(stage: &SessionStage, event: &SessionEvent) -> (expected: bool)
    ensures
        expected == awaits(*stage, *event),
{
    match stage {
        SessionStage::Idle => matches!(event, SessionEvent::Tick { .. }),
        SessionStage::AwaitingSearch => matches!(event, SessionEvent::SearchDone(_)),
        SessionStage::AwaitingAdd { .. } => matches!(event, SessionEvent::TorrentAdded(_)),
        SessionStage::AwaitingPause { .. } => matches!(event, SessionEvent::PauseDone(_)),
        SessionStage::AwaitingPauseListing => matches!(event, SessionEvent::DownloadsListed(_)),
        SessionStage::AwaitingResume { .. } => matches!(event, SessionEvent::ResumeDone(_)),
        SessionStage::AwaitingResumeListing => matches!(event, SessionEvent::DownloadsListed(_)),
        SessionStage::AwaitingRefresh => matches!(event, SessionEvent::DownloadsListed(_)),
    }
}

#[verifier::rlimit(50)]
pub fn next(state: &mut SessionState, event: SessionEvent, clock: Clock) -> (actions: Vec<
    SessionAction,
>)
    ensures
        *final(state) == step(*old(state), event, clock).0,
        actions@ == step(*old(state), event, clock).1,
{
    if !expects(&state.stage, &event) {
        return Vec::new();
    }
    if state.should_quit && matches!(event, SessionEvent::Tick { .. }) {
        let mut actions: Vec<SessionAction> = Vec::new();
        actions.push(SessionAction::Quit);
        assert(actions@ =~= seq![SessionAction::Quit]);
        return actions;
    }
    state.ms_since_tick = clock.ms_since_tick;
    state.ms_since_refresh = clock.ms_since_refresh;
    let mut stage = SessionStage::Idle;
    std::mem::swap(&mut stage, &mut state.stage);
    match event {
        SessionEvent::Tick { input_changed } => {
            state.needs_render = input_changed;
            run_search(state)
        },
        SessionEvent::SearchDone(outcome) => {
            match outcome {
                Ok(results) => {
                    state.search_results = results;
                    state.selected_index = 0;
                },
                Err(error) => {
                    state.status = StatusMessage::SearchFailed { error };
                },
            }
            state.search_in_progress = false;
            state.search_frame_shown = false;
            state.needs_render = true;
            run_download(state)
        },
        SessionEvent::TorrentAdded(outcome) => match stage {
            SessionStage::AwaitingAdd { name } => {
                match outcome {
                    Ok(gid) => {
                        state.status = StatusMessage::TorrentAdded { name, gid };
                        state.mode = AppMode::Normal;
                    },
                    Err(error) => {
                        state.status = StatusMessage::AddFailed { error };
                    },
                }
                state.download_requested = false;
                state.needs_render = true;
                run_pause(state)
            },
            other => {
                state.stage = other;
                Vec::new()
            },
        },
        SessionEvent::PauseDone(outcome) => match stage {
            SessionStage::AwaitingPause { gid } => match outcome {
                Ok(Ok(_)) => {
                    state.status = StatusMessage::Paused { gid };
                    state.needs_render = true;
                    state.stage = SessionStage::AwaitingPauseListing;
                    let mut actions: Vec<SessionAction> = Vec::new();
                    actions.push(SessionAction::ListDownloads);
                    assert(actions@ =~= seq![SessionAction::ListDownloads]);
                    actions
                },
                Ok(Err(error)) => {
                    state.status = StatusMessage::PauseFailed { error };
                    state.needs_render = true;
                    run_resume(state)
                },
                Err(error) => {
                    state.status = StatusMessage::RpcFailed { error };
                    state.needs_render = true;
                    run_resume(state)
                },
            },
            other => {
                state.stage = other;
                Vec::new()
            },
        },
        SessionEvent::ResumeDone(outcome) => match stage {
            SessionStage::AwaitingResume { gid } => match outcome {
                Ok(Ok(_)) => {
                    state.status = StatusMessage::Resumed { gid };
                    state.needs_render = true;
                    state.stage = SessionStage::AwaitingResumeListing;
                    let mut actions: Vec<SessionAction> = Vec::new();
                    actions.push(SessionAction::ListDownloads);
                    assert(actions@ =~= seq![SessionAction::ListDownloads]);
                    actions
                },
                Ok(Err(error)) => {
                    state.status = StatusMessage::ResumeFailed { error };
                    state.needs_render = true;
                    run_refresh(state)
                },
                Err(error) => {
                    state.status = StatusMessage::RpcFailed { error };
                    state.needs_render = true;
                    run_refresh(state)
                },
            },
            other => {
                state.stage = other;
                Vec::new()
            },
        },
        SessionEvent::DownloadsListed(outcome) => match stage {
            SessionStage::AwaitingPauseListing => {
                match outcome {
                    Ok(downloads) => {
                        state.active_downloads = downloads;
                    },
                    Err(_) => {},
                }
                run_resume(state)
            },
            SessionStage::AwaitingResumeListing => {
                match outcome {
                    Ok(downloads) => {
                        state.active_downloads = downloads;
                    },
                    Err(_) => {},
                }
                run_refresh(state)
            },
            SessionStage::AwaitingRefresh => {
                match outcome {
                    Ok(downloads) => {
                        state.active_downloads = downloads;
                    },
                    Err(error) => {
                        state.status = StatusMessage::RefreshFailed { error };
                    },
                }
                state.needs_render = true;
                run_finish(state)
            },
            other => {
                state.stage = other;
                Vec::new()
            },
        },
    }
}

/// `a` is an action whose outcome the session needs before it goes on.
pub open spec fn needs_outcome(a: SessionAction) -> bool {
    match a {
        SessionAction::Search { .. } => true,
        SessionAction::AddTorrent(_) => true,
        SessionAction::Pause(_) => true,
        SessionAction::Resume(_) => true,
        SessionAction::ListDownloads => true,
        SessionAction::RefreshDownloads => true,
        _ => false,
    }
}

/// Waiting in `stage` is waiting for the outcome of `a`.
pub open spec fn waits_for(stage: SessionStage, a: SessionAction) -> bool {
    match stage {
        SessionStage::Idle => false,
        SessionStage::AwaitingSearch => a is Search,
        SessionStage::AwaitingAdd { .. } => a is AddTorrent,
        SessionStage::AwaitingPause { .. } => a is Pause,
        SessionStage::AwaitingPauseListing => a is ListDownloads,
        SessionStage::AwaitingResume { .. } => a is Resume,
        SessionStage::AwaitingResumeListing => a is ListDownloads,
        SessionStage::AwaitingRefresh => a is RefreshDownloads,
    }
}

/// Only the last of `actions` may need an outcome, and the session waits
/// exactly when it does, for that outcome.
pub open spec fn is_paced(state: SessionState, actions: Seq<SessionAction>) -> bool {
    &&& forall|i: int| 0 <= i < actions.len() - 1 ==> !needs_outcome(#[trigger] actions[i])
    &&& if state.stage is Idle {
        actions.len() == 0 || !needs_outcome(actions.last())
    } else {
        actions.len() > 0 && waits_for(state.stage, actions.last())
    }
}

proof fn lemma_finish_paced(s: SessionState)
    ensures
        is_paced(stage_finish(s).0, stage_finish(s).1),
        stage_finish(s).0.stage is Idle,
{
}

proof fn lemma_refresh_paced(s: SessionState)
    ensures
        is_paced(stage_refresh(s).0, stage_refresh(s).1),
{
    lemma_finish_paced(s);
}

proof fn lemma_resume_paced(s: SessionState)
    ensures
        is_paced(stage_resume(s).0, stage_resume(s).1),
{
    match s.resume_requested {
        Some(gid) => {
            lemma_refresh_paced(
                SessionState {
                    resume_requested: None,
                    status: StatusMessage::CannotResume,
                    needs_render: true,
                    ..s
                },
            );
        },
        None => {
            lemma_refresh_paced(s);
        },
    }
}

proof fn lemma_pause_paced(s: SessionState)
    ensures
        is_paced(stage_pause(s).0, stage_pause(s).1),
{
    match s.pause_requested {
        Some(gid) => {
            lemma_resume_paced(
                SessionState {
                    pause_requested: None,
                    status: StatusMessage::CannotPause,
                    needs_render: true,
                    ..s
                },
            );
        },
        None => {
            lemma_resume_paced(s);
        },
    }
}

proof fn lemma_download_paced(s: SessionState)
    ensures
        is_paced(stage_download(s).0, stage_download(s).1),
{
    lemma_pause_paced(
        SessionState {
            status: StatusMessage::CannotDownload,
            download_requested: false,
            needs_render: true,
            ..s
        },
    );
    lemma_pause_paced(SessionState { download_requested: false, needs_render: true, ..s });
    lemma_pause_paced(s);
}

proof fn lemma_search_paced(s: SessionState)
    ensures
        is_paced(stage_search(s).0, stage_search(s).1),
{
    let shown = SessionState { search_frame_shown: true, ..s };
    lemma_download_paced(shown);
    lemma_download_paced(SessionState { search_frame_shown: false, ..s });
    if s.mode == AppMode::Searching && s.search_in_progress && !s.search_frame_shown {
        let next = stage_download(shown);
        let actions = seq![SessionAction::Render] + next.1;
        assert forall|i: int| 0 <= i < actions.len() - 1 implies !needs_outcome(
            #[trigger] actions[i],
        ) by {
            if i > 0 {
                assert(actions[i] == next.1[i - 1]);
            }
        }
        if next.1.len() > 0 {
            assert(actions.last() == next.1.last());
        }
    }
}

/// The session waits for at most one outcome at a time: in every step on
/// an expected event, only the last action may need an outcome, and the
/// session ends the step waiting exactly for that one.
pub proof fn lemma_step_is_paced(s: SessionState, e: SessionEvent, c: Clock)
    requires
        is_expected(s, e),
    ensures
        is_paced(step(s, e, c).0, step(s, e, c).1),
{
    let t = timed(s, c);
    match e {
        SessionEvent::Tick { input_changed } => {
            lemma_search_paced(SessionState { needs_render: input_changed, ..t });
        },
        SessionEvent::SearchDone(outcome) => {
            lemma_download_paced(searched(t, outcome));
        },
        SessionEvent::TorrentAdded(outcome) => {
            if let SessionStage::AwaitingAdd { name } = t.stage {
                match outcome {
                    Ok(gid) => lemma_pause_paced(
                        SessionState {
                            status: StatusMessage::TorrentAdded { name: name, gid: gid },
                            mode: AppMode::Normal,
                            download_requested: false,
                            needs_render: true,
                            stage: SessionStage::Idle,
                            ..t
                        },
                    ),
                    Err(error) => lemma_pause_paced(
                        SessionState {
                            status: StatusMessage::AddFailed { error: error },
                            download_requested: false,
                            needs_render: true,
                            stage: SessionStage::Idle,
                            ..t
                        },
                    ),
                }
            }
        },
        SessionEvent::PauseDone(outcome) => {
            match outcome {
                Ok(Ok(_)) => {},
                Ok(Err(error)) => lemma_resume_paced(
                    SessionState {
                        status: StatusMessage::PauseFailed { error: error },
                        needs_render: true,
                        stage: SessionStage::Idle,
                        ..t
                    },
                ),
                Err(error) => lemma_resume_paced(
                    SessionState {
                        status: StatusMessage::RpcFailed { error: error },
                        needs_render: true,
                        stage: SessionStage::Idle,
                        ..t
                    },
                ),
            }
        },
        SessionEvent::ResumeDone(outcome) => {
            match outcome {
                Ok(Ok(_)) => {},
                Ok(Err(error)) => lemma_refresh_paced(
                    SessionState {
                        status: StatusMessage::ResumeFailed { error: error },
                        needs_render: true,
                        stage: SessionStage::Idle,
                        ..t
                    },
                ),
                Err(error) => lemma_refresh_paced(
                    SessionState {
                        status: StatusMessage::RpcFailed { error: error },
                        needs_render: true,
                        stage: SessionStage::Idle,
                        ..t
                    },
                ),
            }
        },
        SessionEvent::DownloadsListed(outcome) => {
            lemma_resume_paced(listed_quietly(t, outcome));
            lemma_refresh_paced(listed_quietly(t, outcome));
            match outcome {
                Ok(downloads) => lemma_finish_paced(
                    SessionState {
                        active_downloads: downloads,
                        needs_render: true,
                        stage: SessionStage::Idle,
                        ..t
                    },
                ),
                Err(error) => lemma_finish_paced(
                    SessionState {
                        status: StatusMessage::RefreshFailed { error: error },
                        needs_render: true,
                        stage: SessionStage::Idle,
                        ..t
                    },
                ),
            }
        },
    }
}

/// An event the session does not wait for changes nothing and asks for
/// nothing.
pub proof fn lemma_unexpected_event_ignored(s: SessionState, e: SessionEvent, c: Clock)
    requires
        !is_expected(s, e),
    ensures
        step(s, e, c).0 == s,
        step(s, e, c).1 == Seq::<SessionAction>::empty(),
{
}

/// A quit request ends the session at the next pass, before anything else
/// is served.
pub proof fn lemma_quit_first(s: SessionState, input_changed: bool, c: Clock)
    requires
        s.stage is Idle,
        s.should_quit,
    ensures
        step(s, SessionEvent::Tick { input_changed }, c).0 == s,
        step(s, SessionEvent::Tick { input_changed }, c).1 == seq![SessionAction::Quit],
{
}

/// After aria2 confirms a pause or a resume, the session lists the
/// downloads again.
pub proof fn lemma_confirmed_control_relists(s: SessionState, e: SessionEvent, c: Clock)
    requires
        is_expected(s, e),
        e matches SessionEvent::PauseDone(Ok(Ok(_))) || e matches SessionEvent::ResumeDone(
            Ok(Ok(_)),
        ),
    ensures
        step(s, e, c).1 == seq![SessionAction::ListDownloads],
{
}

/// A pass with nothing requested refreshes the download list exactly when
/// aria2 is available and 2 s have passed since the last refresh, and
/// otherwise advances the animation exactly when its period (150 ms during
/// a search, 100 ms otherwise) has passed, and redraws when input changed
/// something or the animation advanced.
pub proof fn lemma_quiet_pass(s: SessionState, input_changed: bool, c: Clock)
    requires
        s.stage is Idle,
        !s.should_quit,
        !(s.mode == AppMode::Searching && s.search_in_progress),
        !(s.download_requested && s.search_results.len() > 0),
        s.pause_requested is None,
        s.resume_requested is None,
    ensures
        ({
            let actions = step(s, SessionEvent::Tick { input_changed }, c).1;
            let period: u64 = if s.search_in_progress {
                SEARCH_TICK_MS
            } else {
                IDLE_TICK_MS
            };
            if s.aria2_available && c.ms_since_refresh >= REFRESH_INTERVAL_MS {
                actions == seq![SessionAction::RefreshDownloads]
            } else {
                &&& actions.contains(SessionAction::AdvanceAnimation) <==> c.ms_since_tick
                    >= period
                &&& actions.contains(SessionAction::Render) <==> (input_changed
                    || c.ms_since_tick >= period)
            }
        }),
{
    let actions = step(s, SessionEvent::Tick { input_changed }, c).1;
    let period: u64 = if s.search_in_progress {
        SEARCH_TICK_MS
    } else {
        IDLE_TICK_MS
    };
    if !(s.aria2_available && c.ms_since_refresh >= REFRESH_INTERVAL_MS) {
        if c.ms_since_tick >= period {
            assert(actions =~= seq![SessionAction::AdvanceAnimation, SessionAction::Render]);
            assert(actions[0] == SessionAction::AdvanceAnimation);
            assert(actions[1] == SessionAction::Render);
        } else if input_changed {
            assert(actions =~= seq![SessionAction::Render]);
            assert(actions[0] == SessionAction::Render);
            assert(!actions.contains(SessionAction::AdvanceAnimation)) by {
                if actions.contains(SessionAction::AdvanceAnimation) {
                    let k = choose|k: int|
                        0 <= k < actions.len() && actions[k] == SessionAction::AdvanceAnimation;
                    assert(k == 0);
                }
            }
        } else {
            assert(actions =~= Seq::<SessionAction>::empty());
        }
    }
}

/// A status line that refuses a request because aria2 is unavailable.
pub open spec fn is_refusal(m: StatusMessage) -> bool {
    ||| m is CannotDownload
    ||| m is CannotPause
    ||| m is CannotResume
}

/// The stages of a pass leave the download list alone, and change the
/// status line only to refuse a request, and never ask for a listing after
/// a pause or resume.
proof fn lemma_finish_keeps(s: SessionState)
    ensures
        stage_finish(s).0.active_downloads == s.active_downloads,
        stage_finish(s).0.status == s.status,
        !stage_finish(s).1.contains(SessionAction::ListDownloads),
{
    let a = stage_finish(s).1;
    if a.contains(SessionAction::ListDownloads) {
        let k = choose|k: int| 0 <= k < a.len() && a[k] == SessionAction::ListDownloads;
        if s.ms_since_tick >= tick_period_ms(s) {
            assert(a =~= seq![SessionAction::AdvanceAnimation, SessionAction::Render]);
        } else if s.needs_render {
            assert(a =~= seq![SessionAction::Render]);
        } else {
            assert(a =~= Seq::<SessionAction>::empty());
        }
    }
}

proof fn lemma_refresh_keeps(s: SessionState)
    ensures
        stage_refresh(s).0.active_downloads == s.active_downloads,
        stage_refresh(s).0.status == s.status,
        !stage_refresh(s).1.contains(SessionAction::ListDownloads),
{
    lemma_finish_keeps(s);
    let a = stage_refresh(s).1;
    if s.aria2_available && s.ms_since_refresh >= REFRESH_INTERVAL_MS {
        assert(a[0] == SessionAction::RefreshDownloads);
        assert(a.len() == 1);
    }
}

proof fn lemma_resume_keeps(s: SessionState)
    ensures
        stage_resume(s).0.active_downloads == s.active_downloads,
        stage_resume(s).0.status == s.status || is_refusal(stage_resume(s).0.status),
        !stage_resume(s).1.contains(SessionAction::ListDownloads),
{
    match s.resume_requested {
        Some(gid) => {
            lemma_refresh_keeps(
                SessionState {
                    resume_requested: None,
                    status: StatusMessage::CannotResume,
                    needs_render: true,
                    ..s
                },
            );
            if s.aria2_available {
                let a = stage_resume(s).1;
                assert(a[0] == SessionAction::Resume(gid));
                assert(a.len() == 1);
            }
        },
        None => {
            lemma_refresh_keeps(s);
        },
    }
}

proof fn lemma_pause_keeps(s: SessionState)
    ensures
        stage_pause(s).0.active_downloads == s.active_downloads,
        stage_pause(s).0.status == s.status || is_refusal(stage_pause(s).0.status),
{
    match s.pause_requested {
        Some(gid) => {
            lemma_resume_keeps(
                SessionState {
                    pause_requested: None,
                    status: StatusMessage::CannotPause,
                    needs_render: true,
                    ..s
                },
            );
        },
        None => {
            lemma_resume_keeps(s);
        },
    }
}

proof fn lemma_download_keeps(s: SessionState)
    ensures
        stage_download(s).0.active_downloads == s.active_downloads,
        stage_download(s).0.status == s.status || is_refusal(stage_download(s).0.status),
{
    lemma_pause_keeps(
        SessionState {
            status: StatusMessage::CannotDownload,
            download_requested: false,
            needs_render: true,
            ..s
        },
    );
    lemma_pause_keeps(SessionState { download_requested: false, needs_render: true, ..s });
    lemma_pause_keeps(s);
}

proof fn lemma_search_keeps(s: SessionState)
    ensures
        stage_search(s).0.active_downloads == s.active_downloads,
        stage_search(s).0.status == s.status || is_refusal(stage_search(s).0.status),
{
    lemma_download_keeps(SessionState { search_frame_shown: true, ..s });
    lemma_download_keeps(SessionState { search_frame_shown: false, ..s });
}

/// A requested download, with aria2 available and a valid selection, sends
/// exactly the selected result's magnet link to aria2, and the session then
/// waits to report the selected result's name.
pub proof fn lemma_download_sends_selected(s: SessionState, input_changed: bool, c: Clock)
    requires
        s.stage is Idle,
        !s.should_quit,
        !(s.mode == AppMode::Searching && s.search_in_progress),
        s.download_requested,
        s.aria2_available,
        s.selected_index < s.search_results.len(),
    ensures
        step(s, SessionEvent::Tick { input_changed }, c).1 == seq![
            SessionAction::AddTorrent(s.search_results[s.selected_index as int].magnet_link),
        ],
        step(s, SessionEvent::Tick { input_changed }, c).0.stage == (SessionStage::AwaitingAdd {
            name: s.search_results[s.selected_index as int].name,
        }),
{
}

/// A torrent that aria2 accepts is reported under the name of the result
/// that was selected when the download was requested, with the GID aria2
/// gave it.
pub proof fn lemma_added_torrent_is_the_selected_one(
    s: SessionState,
    input_changed: bool,
    c1: Clock,
    gid: String,
    c2: Clock,
)
    requires
        s.stage is Idle,
        !s.should_quit,
        !(s.mode == AppMode::Searching && s.search_in_progress),
        s.download_requested,
        s.aria2_available,
        s.selected_index < s.search_results.len(),
    ensures
        ({
            let t = step(s, SessionEvent::Tick { input_changed }, c1).0;
            let u = step(t, SessionEvent::TorrentAdded(Ok(gid)), c2).0;
            &&& u.status == (StatusMessage::TorrentAdded {
                name: s.search_results[s.selected_index as int].name,
                gid: gid,
            }) || is_refusal(u.status)
            &&& u.mode == AppMode::Normal
            &&& !u.download_requested
        }),
{
    let t = step(s, SessionEvent::Tick { input_changed }, c1).0;
    let name = s.search_results[s.selected_index as int].name;
    assert(t.stage == SessionStage::AwaitingAdd { name: name });
    lemma_pause_keeps(
        SessionState {
            status: StatusMessage::TorrentAdded { name: name, gid: gid },
            mode: AppMode::Normal,
            download_requested: false,
            needs_render: true,
            stage: SessionStage::Idle,
            ..timed(t, c2)
        },
    );
}

/// When aria2 cannot be reached for a pause or a resume, the status line
/// reports the RPC error and the downloads are not listed again; when aria2
/// refuses, the status line reports its message, likewise without a listing.
#[verifier::rlimit(40)]
pub proof fn lemma_failed_control_reported(s: SessionState, e: SessionEvent, c: Clock)
    requires
        is_expected(s, e),
        e matches SessionEvent::PauseDone(Ok(Err(_))) || e matches SessionEvent::PauseDone(Err(_))
            || e matches SessionEvent::ResumeDone(Ok(Err(_))) || e matches SessionEvent::ResumeDone(
            Err(_),
        ),
    ensures
        !step(s, e, c).1.contains(SessionAction::ListDownloads),
        !(step(s, e, c).0.stage is AwaitingPauseListing),
        !(step(s, e, c).0.stage is AwaitingResumeListing),
        e matches SessionEvent::ResumeDone(Err(msg)) ==> step(s, e, c).0.status == (
        StatusMessage::RpcFailed { error: msg }),
        e matches SessionEvent::ResumeDone(Ok(Err(msg))) ==> step(s, e, c).0.status == (
        StatusMessage::ResumeFailed { error: msg }),
        e matches SessionEvent::PauseDone(Err(msg)) ==> (step(s, e, c).0.status == (
        StatusMessage::RpcFailed { error: msg }) || is_refusal(step(s, e, c).0.status)),
        e matches SessionEvent::PauseDone(Ok(Err(msg))) ==> (step(s, e, c).0.status == (
        StatusMessage::PauseFailed { error: msg }) || is_refusal(step(s, e, c).0.status)),
{
    let t = timed(s, c);
    match e {
        SessionEvent::PauseDone(Ok(Err(msg))) => {
            lemma_resume_keeps(
                SessionState {
                    status: StatusMessage::PauseFailed { error: msg },
                    needs_render: true,
                    stage: SessionStage::Idle,
                    ..t
                },
            );
            lemma_resume_paced(
                SessionState {
                    status: StatusMessage::PauseFailed { error: msg },
                    needs_render: true,
                    stage: SessionStage::Idle,
                    ..t
                },
            );
        },
        SessionEvent::PauseDone(Err(msg)) => {
            lemma_resume_keeps(
                SessionState {
                    status: StatusMessage::RpcFailed { error: msg },
                    needs_render: true,
                    stage: SessionStage::Idle,
                    ..t
                },
            );
            lemma_resume_paced(
                SessionState {
                    status: StatusMessage::RpcFailed { error: msg },
                    needs_render: true,
                    stage: SessionStage::Idle,
                    ..t
                },
            );
        },
        SessionEvent::ResumeDone(Ok(Err(msg))) => {
            lemma_refresh_keeps(
                SessionState {
                    status: StatusMessage::ResumeFailed { error: msg },
                    needs_render: true,
                    stage: SessionStage::Idle,
                    ..t
                },
            );
            lemma_refresh_paced(
                SessionState {
                    status: StatusMessage::ResumeFailed { error: msg },
                    needs_render: true,
                    stage: SessionStage::Idle,
                    ..t
                },
            );
        },
        SessionEvent::ResumeDone(Err(msg)) => {
            lemma_refresh_keeps(
                SessionState {
                    status: StatusMessage::RpcFailed { error: msg },
                    needs_render: true,
                    stage: SessionStage::Idle,
                    ..t
                },
            );
            lemma_refresh_paced(
                SessionState {
                    status: StatusMessage::RpcFailed { error: msg },
                    needs_render: true,
                    stage: SessionStage::Idle,
                    ..t
                },
            );
        },
        _ => {},
    }
}

/// The status line reports a resume only when aria2 has just confirmed the
/// resume the session was waiting for.
#[verifier::rlimit(40)]
pub proof fn lemma_resumed_only_when_confirmed(s: SessionState, e: SessionEvent, c: Clock)
    requires
        step(s, e, c).0.status is Resumed,
        !(s.status is Resumed),
    ensures
        s.stage is AwaitingResume,
        e matches SessionEvent::ResumeDone(Ok(Ok(_))),
{
    let t = timed(s, c);
    if is_expected(s, e) && !(e is Tick && s.should_quit) {
        match e {
            SessionEvent::Tick { input_changed } => {
                lemma_search_keeps(SessionState { needs_render: input_changed, ..t });
            },
            SessionEvent::SearchDone(outcome) => {
                lemma_download_keeps(searched(t, outcome));
            },
            SessionEvent::TorrentAdded(outcome) => {
                if let SessionStage::AwaitingAdd { name } = t.stage {
                    match outcome {
                        Ok(gid) => lemma_pause_keeps(
                            SessionState {
                                status: StatusMessage::TorrentAdded { name: name, gid: gid },
                                mode: AppMode::Normal,
                                download_requested: false,
                                needs_render: true,
                                stage: SessionStage::Idle,
                                ..t
                            },
                        ),
                        Err(error) => lemma_pause_keeps(
                            SessionState {
                                status: StatusMessage::AddFailed { error: error },
                                download_requested: false,
                                needs_render: true,
                                stage: SessionStage::Idle,
                                ..t
                            },
                        ),
                    }
                }
            },
            SessionEvent::PauseDone(outcome) => {
                match outcome {
                    Ok(Ok(_)) => {},
                    Ok(Err(error)) => lemma_resume_keeps(
                        SessionState {
                            status: StatusMessage::PauseFailed { error: error },
                            needs_render: true,
                            stage: SessionStage::Idle,
                            ..t
                        },
                    ),
                    Err(error) => lemma_resume_keeps(
                        SessionState {
                            status: StatusMessage::RpcFailed { error: error },
                            needs_render: true,
                            stage: SessionStage::Idle,
                            ..t
                        },
                    ),
                }
            },
            SessionEvent::ResumeDone(outcome) => {
                match outcome {
                    Ok(Ok(_)) => {},
                    Ok(Err(error)) => lemma_refresh_keeps(
                        SessionState {
                            status: StatusMessage::ResumeFailed { error: error },
                            needs_render: true,
                            stage: SessionStage::Idle,
                            ..t
                        },
                    ),
                    Err(error) => lemma_refresh_keeps(
                        SessionState {
                            status: StatusMessage::RpcFailed { error: error },
                            needs_render: true,
                            stage: SessionStage::Idle,
                            ..t
                        },
                    ),
                }
            },
            SessionEvent::DownloadsListed(outcome) => {
                lemma_resume_keeps(listed_quietly(t, outcome));
                lemma_refresh_keeps(listed_quietly(t, outcome));
                match outcome {
                    Ok(downloads) => lemma_finish_keeps(
                        SessionState {
                            active_downloads: downloads,
                            needs_render: true,
                            stage: SessionStage::Idle,
                            ..t
                        },
                    ),
                    Err(error) => lemma_finish_keeps(
                        SessionState {
                            status: StatusMessage::RefreshFailed { error: error },
                            needs_render: true,
                            stage: SessionStage::Idle,
                            ..t
                        },
                    ),
                }
            },
        }
    }
}

/// A download list that aria2 returns, whether for the periodic refresh or
/// after a pause or a resume, becomes the list the session shows; a failed
/// listing leaves the shown list as it was.
#[verifier::rlimit(40)]
pub proof fn lemma_listed_downloads_shown(s: SessionState, e: SessionEvent, c: Clock)
    requires
        is_expected(s, e),
        e is DownloadsListed,
    ensures
        e matches SessionEvent::DownloadsListed(Ok(d)) ==> step(s, e, c).0.active_downloads == d,
        e matches SessionEvent::DownloadsListed(Err(_)) ==> step(s, e, c).0.active_downloads
            == s.active_downloads,
        s.stage is AwaitingRefresh ==> (e matches SessionEvent::DownloadsListed(Err(msg))
            ==> step(s, e, c).0.status == (StatusMessage::RefreshFailed { error: msg })),
{
    let t = timed(s, c);
    if let SessionEvent::DownloadsListed(outcome) = e {
        lemma_resume_keeps(listed_quietly(t, outcome));
        lemma_refresh_keeps(listed_quietly(t, outcome));
        match outcome {
            Ok(downloads) => lemma_finish_keeps(
                SessionState {
                    active_downloads: downloads,
                    needs_render: true,
                    stage: SessionStage::Idle,
                    ..t
                },
            ),
            Err(error) => lemma_finish_keeps(
                SessionState {
                    status: StatusMessage::RefreshFailed { error: error },
                    needs_render: true,
                    stage: SessionStage::Idle,
                    ..t
                },
            ),
        }
    }
}

/// The ready line shows a directory of at most 40 characters whole, and a
/// longer one as "..." and its last 37 characters, so that the line always
/// shows where the directory path ends.
pub proof fn lemma_ready_text_shows_directory_end(dir: Seq<char>)
    ensures
        ({
            let head = "Ready - Downloads: "@;
            let tail = " - Press 's' to search"@;
            let text = ready_text(dir);
            &&& text.subrange(0, head.len() as int) == head
            &&& text.subrange(text.len() - tail.len(), text.len() as int) == tail
            &&& dir.len() <= 40 ==> text == head + dir + tail
            &&& dir.len() > 40 ==> {
                &&& text.len() == head.len() + 40 + tail.len()
                &&& text.subrange(head.len() as int, head.len() + 3int) == "..."@
                &&& forall|k: int|
                    1 <= k <= 37 ==> #[trigger] text[text.len() - tail.len() - k] == dir[dir.len()
                        - k]
            }
        }),
{
    reveal_strlit("...");
    let head = "Ready - Downloads: "@;
    let tail = " - Press 's' to search"@;
    let text = ready_text(dir);
    let shown = shortened_dir(dir);
    assert(text == head + shown + tail);
    assert(text.subrange(0, head.len() as int) =~= head);
    assert(text.subrange(text.len() - tail.len(), text.len() as int) =~= tail);
    if dir.len() > 40 {
        assert(shown.len() == 40);
        assert(text.subrange(head.len() as int, head.len() + 3int) =~= "..."@);
        assert forall|k: int| 1 <= k <= 37 implies #[trigger] text[text.len() - tail.len() - k]
            == dir[dir.len() - k] by {
            assert(text[text.len() - tail.len() - k] == shown[40 - k]);
        }
    }
}

} // verus!
