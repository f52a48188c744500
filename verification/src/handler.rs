//! How the daemon answers a request. Some requests are answered from its state alone;
//! for the others the library says what is to be asked of the search engine, and then
//! what the engine's answer means for the client.

use crate::convert::{grep_page_to_wire, search_page_to_wire, GrepPage, SearchPage};
use crate::path::FsPath;
use crate::protocol::{
    GrepModeWire, HealthCheckWire, Request, Response, ScanProgressWire,
};
use crate::state::{Client, DaemonState, Ensured, OpenPlan, StateModel};
use crate::text::{decimal_text, prefixed};
use vstd::prelude::*;
use vstd::string::*;

verus! {

/// How the search engine reads the query of a content search.
#[derive(Debug, Clone, Copy, PartialEq, Eq, Structural)]
pub enum GrepMode {
    PlainText,
    Regex,
    Fuzzy,
}

/// What a file search is told besides its query.
#[derive(Debug)]
pub struct FuzzyOptions {
    pub max_threads: usize,
    pub current_file: Option<String>,
    pub combo_boost_score_multiplier: i32,
    pub min_combo_count: u32,
    /// Where the page starts.
    pub offset: usize,
    /// How much the page holds.
    pub limit: usize,
}

/// What a content search is told besides its query.
#[derive(Debug)]
pub struct GrepOptions {
    pub max_file_size: u64,
    pub max_matches_per_file: usize,
    pub smart_case: bool,
    pub file_offset: usize,
    pub page_limit: usize,
    pub mode: GrepMode,
    pub time_budget_ms: u64,
    pub trim_whitespace: bool,
}

/// What is to be asked of the search engine, on the handles of one directory.
#[derive(Debug)]
pub enum EngineCall {
    WaitForScan { timeout_ms: u64 },
    ScanProgress,
    IsScanning,
    FuzzySearch { query: String, options: FuzzyOptions },
    Grep { query: String, options: GrepOptions },
    TrackAccess { file_path: String },
    UpdateFrecency { file_path: String },
    TrackQuery { query: String, file_path: String },
    TrackGrepQuery { query: String },
    PastQuery { offset: usize },
    PastGrepQuery { offset: usize },
    RefreshGitStatus,
    GitRoot,
    BasePath,
    Rescan,
    StopMonitor,
    Health { path: FsPath },
}

/// For which request a directory is opened.
#[derive(Debug, Clone, Copy, PartialEq, Eq, Structural)]
pub enum Purpose {
    Index,
    Restart,
}

/// What a request comes to.
#[derive(Debug)]
pub enum Action<H> {
    /// The answer is known.
    Reply(Response),
    /// The search engine has to open a directory; `finish_open` has the answer.
    Open { plan: OpenPlan, purpose: Purpose },
    /// The search engine has to be asked; `respond` has the answer.
    Engine { handles: H, call: EngineCall },
    /// The search engine has to parse a query; `respond` has the answer.
    ParseGrep { query: String },
}

/// What came of taking a lock and looking behind it.
#[derive(Debug)]
pub enum Locked<T> {
    /// The lock could not be had.
    Failed(String),
    /// Nothing is there yet.
    Missing,
    Held(T),
}

/// What came of a task on another thread.
#[derive(Debug)]
pub enum Joined<T> {
    /// The task did not end in the regular way.
    Broken(String),
    Finished(T),
}

/// What the search engine knows of an indexed directory.
#[derive(Debug)]
pub struct PickerFacts {
    pub base_path: FsPath,
    pub progress: ScanProgressWire,
}

/// What a look for a repository found, starting from a directory.
#[derive(Debug)]
pub struct Repository {
    /// The repository's working directory, unless it is bare.
    pub workdir: Option<FsPath>,
}

/// What the search engine says.
#[derive(Debug)]
pub enum EngineOutcome {
    /// Whether the scan ended in time.
    WaitForScan(bool),
    ScanProgress(Locked<ScanProgressWire>),
    IsScanning(Locked<bool>),
    /// The picker is locked first, then the history of queries.
    FuzzySearch(Joined<Locked<Result<SearchPage, String>>>),
    Grep(Joined<Locked<GrepPage>>),
    /// A use of a file or a query has been noted, as far as that was possible.
    Noted,
    /// The picker is locked first, then the history of queries, which may fail itself.
    PastQuery(Joined<Locked<Locked<Result<Option<String>, String>>>>),
    RefreshGitStatus(Joined<Result<usize, String>>),
    GitRoot(Locked<Option<FsPath>>),
    BasePath(Locked<FsPath>),
    /// The lock for writing may fail.
    Rescan(Joined<Result<(), String>>),
    /// The lock for writing may fail.
    StopMonitor(Joined<Result<(), String>>),
    Health { repository: Option<Repository>, picker: Locked<PickerFacts> },
    ParseGrep { grep_text: String },
}

impl EngineOutcome {
    /// Every match of a page of matches lies in one of the page's files.
    pub open spec fn wf(self) -> bool {
        self matches EngineOutcome::Grep(Joined::Finished(Locked::Held(page))) ==> page.wf()
    }
}

/// What is said where a search comes before the search engine is ready.
pub open spec fn picker_missing() -> Seq<char> {
    "picker not initialized"@
}

/// What is said to those who want to destroy a database.
pub open spec fn destroy_refused() -> Seq<char> {
    "not supported in daemon mode — manage DB lifecycle via the daemon's directory management"@
}

/// What is said where a task did not end in the regular way.
pub open spec fn task_broken(reason: Seq<char>) -> Seq<char> {
    "task join error: "@ + reason
}

/// The paths of the request that have to be made canonical, in the order in which they
/// are looked at.
pub open spec fn named_paths(request: Request) -> Seq<FsPath> {
    match request {
        Request::Ping | Request::Shutdown | Request::ListDirectories => seq![],
        Request::InitDb { .. } | Request::ParseGrepQuery { .. } => seq![],
        Request::DestroyFrecencyDb | Request::DestroyQueryDb => seq![],
        Request::RestartIndex { path, new_path } => seq![path, path, new_path],
        Request::IndexDirectory { path, .. } => seq![path],
        Request::DropDirectory { path } => seq![path],
        Request::WaitForScan { path, .. } => seq![path],
        Request::GetScanProgress { path } => seq![path],
        Request::IsScanning { path } => seq![path],
        Request::FuzzySearch { path, .. } => seq![path],
        Request::GrepSearch { path, .. } => seq![path],
        Request::TrackAccess { path, .. } => seq![path],
        Request::UpdateSingleFileFrecency { path, .. } => seq![path],
        Request::TrackQueryCompletion { path, .. } => seq![path],
        Request::TrackGrepQuery { path, .. } => seq![path],
        Request::GetHistoricalQuery { path, .. } => seq![path],
        Request::GetHistoricalGrepQuery { path, .. } => seq![path],
        Request::RefreshGitStatus { path } => seq![path],
        Request::GetGitRoot { path } => seq![path],
        Request::GetBasePath { path } => seq![path],
        Request::TriggerRescan { path } => seq![path],
        Request::StopBackgroundMonitor { path } => seq![path],
        Request::CleanupFilePicker { path } => seq![path],
        Request::HealthCheck { path } => seq![path],
    }
}

/// How the search engine is to read a content query.
pub open spec fn grep_mode(mode: GrepModeWire) -> GrepMode {
    match mode {
        GrepModeWire::PlainText => GrepMode::PlainText,
        GrepModeWire::Regex => GrepMode::Regex,
        GrepModeWire::Fuzzy => GrepMode::Fuzzy,
    }
}

/// What the request asks of the search engine, where it asks something of the handles of
/// a directory.
pub open spec fn engine_call(request: Request) -> Option<EngineCall> {
    match request {
        Request::WaitForScan { timeout_ms, .. } => Some(EngineCall::WaitForScan { timeout_ms }),
        Request::GetScanProgress { .. } => Some(EngineCall::ScanProgress),
        Request::IsScanning { .. } => Some(EngineCall::IsScanning),
        Request::FuzzySearch {
            query,
            max_threads,
            current_file,
            combo_boost_score_multiplier,
            min_combo_count,
            page_index,
            page_size,
            ..
        } => Some(
            EngineCall::FuzzySearch {
                query,
                options: FuzzyOptions {
                    max_threads,
                    current_file,
                    combo_boost_score_multiplier,
                    min_combo_count,
                    offset: page_index,
                    limit: page_size,
                },
            },
        ),
        Request::GrepSearch {
            query,
            file_offset,
            page_size,
            max_file_size,
            max_matches_per_file,
            smart_case,
            grep_mode: mode,
            time_budget_ms,
            trim_whitespace,
            ..
        } => Some(
            EngineCall::Grep {
                query,
                options: GrepOptions {
                    max_file_size,
                    max_matches_per_file,
                    smart_case,
                    file_offset,
                    page_limit: page_size,
                    mode: grep_mode(mode),
                    time_budget_ms,
                    trim_whitespace,
                },
            },
        ),
        Request::TrackAccess { file_path, .. } => Some(EngineCall::TrackAccess { file_path }),
        Request::UpdateSingleFileFrecency { file_path, .. } => Some(
            EngineCall::UpdateFrecency { file_path },
        ),
        Request::TrackQueryCompletion { query, file_path, .. } => Some(
            EngineCall::TrackQuery { query, file_path },
        ),
        Request::TrackGrepQuery { query, .. } => Some(EngineCall::TrackGrepQuery { query }),
        Request::GetHistoricalQuery { offset, .. } => Some(EngineCall::PastQuery { offset }),
        Request::GetHistoricalGrepQuery { offset, .. } => Some(EngineCall::PastGrepQuery { offset }),
        Request::RefreshGitStatus { .. } => Some(EngineCall::RefreshGitStatus),
        Request::GetGitRoot { .. } => Some(EngineCall::GitRoot),
        Request::GetBasePath { .. } => Some(EngineCall::BasePath),
        Request::TriggerRescan { .. } => Some(EngineCall::Rescan),
        Request::StopBackgroundMonitor { .. } => Some(EngineCall::StopMonitor),
        Request::HealthCheck { path } => Some(EngineCall::Health { path }),
        _ => None,
    }
}

/// The state after the request. `resolved` holds what became of the request's paths.
pub open spec fn next_state<H>(
    before: StateModel<H>,
    request: Request,
    resolved: Seq<Result<FsPath, String>>,
    client: Client,
    now: u128,
) -> StateModel<H> {
    match request {
        Request::InitDb { frecency_db_path, history_db_path, use_unsafe_no_lock } => before.with_db(
            frecency_db_path,
            history_db_path,
            use_unsafe_no_lock,
        ),
        Request::IndexDirectory { .. } => before.ensured(resolved[0], client, now),
        Request::DropDirectory { .. } => before.dropped(resolved[0]),
        Request::RestartIndex { .. } => before.used(resolved[0], now).released(
            resolved[1],
            client,
        ).ensured(resolved[2], client, now),
        Request::CleanupFilePicker { .. } => before.released(resolved[0], client),
        _ => before,
    }
}

/// The answer where a directory has been opened or was open already.
pub open spec fn opened_answer(purpose: Purpose) -> Response {
    match purpose {
        Purpose::Index => Response::Bool(true),
        Purpose::Restart => Response::Done,
    }
}

/// `action` says no more than this.
pub open spec fn refuses<H>(action: Action<H>, message: Seq<char>) -> bool {
    action matches Action::Reply(Response::Error(text)) && text@ == message
}

/// `action` is what a request for a directory comes to.
pub open spec fn asked_for<H>(
    action: Action<H>,
    before: StateModel<H>,
    canonical: Result<FsPath, String>,
    watch_git_events: bool,
    client: Client,
    purpose: Purpose,
) -> bool {
    match canonical {
        Err(e) => refuses(action, crate::state::no_canonical_path(e@)),
        Ok(path) if before.dirs.contains_key(path@) => action == Action::<H>::Reply(
            opened_answer(purpose),
        ),
        Ok(path) => {
            &&& action matches Action::Open { plan, purpose: for_what }
            &&& for_what == purpose
            &&& plan.opens(path@, before.settings, watch_git_events, client)
        },
    }
}

/// `action` is what a question about an indexed directory comes to.
pub open spec fn looked_up<H: Clone>(
    action: Action<H>,
    before: StateModel<H>,
    path: Seq<u8>,
    canonical: Result<FsPath, String>,
    call: EngineCall,
) -> bool {
    match canonical {
        Err(e) => refuses(action, crate::state::no_canonical_path(e@)),
        Ok(at) if before.dirs.contains_key(at@) => {
            &&& action matches Action::Engine { handles, call: asked }
            &&& asked == call
            &&& cloned(before.dirs[at@].handles, handles)
        },
        Ok(at) => refuses(action, crate::state::not_indexed(path)),
    }
}

/// `health` is what is said of a directory that is not indexed.
pub open spec fn says_nothing(health: HealthCheckWire, version: Seq<char>) -> bool {
    &&& health.version@ == version
    &&& !health.git_available
    &&& !health.git_repository_found
    &&& health.git_libgit2_version@ == Seq::<char>::empty()
    &&& health.git_workdir is None
    &&& !health.file_picker_initialized
    &&& health.file_picker_base_path is None
    &&& health.file_picker_is_scanning is None
    &&& health.file_picker_indexed_files is None
}

/// `action` is what the request comes to.
pub open spec fn handled<H: Clone, F: Fn(&H) -> Option<ScanProgressWire>>(
    action: Action<H>,
    before: StateModel<H>,
    request: Request,
    resolved: Seq<Result<FsPath, String>>,
    client: Client,
    now: u128,
    version: Seq<char>,
    probe: F,
) -> bool {
    match request {
        Request::InitDb { .. } => action == Action::<H>::Reply(Response::Bool(true)),
        Request::IndexDirectory { watch_git_events, .. } => asked_for(
            action,
            before,
            resolved[0],
            watch_git_events,
            client,
            Purpose::Index,
        ),
        Request::DropDirectory { .. } | Request::CleanupFilePicker { .. } => action == Action::<
            H,
        >::Reply(Response::Bool(before.holds(resolved[0]))),
        Request::RestartIndex { .. } => asked_for(
            action,
            before.used(resolved[0], now).released(resolved[1], client),
            resolved[2],
            true,
            client,
            Purpose::Restart,
        ),
        _ => match access(request) {
            Access::Nothing => handled_alone(action, request),
            _ => handled_shared(action, before, request, resolved, version, probe),
        },
    }
}

/// What a request needs of the daemon's state.
#[derive(Debug, Clone, Copy, PartialEq, Eq, Structural)]
pub enum Access {
    /// Nothing at all.
    Nothing,
    /// A look at it, beside others.
    Shared,
    /// The state for itself.
    Exclusive,
}

/// What the request needs of the daemon's state.
pub open spec fn access(request: Request) -> Access {
    match request {
        Request::Ping | Request::Shutdown | Request::ParseGrepQuery { .. } => Access::Nothing,
        Request::DestroyFrecencyDb | Request::DestroyQueryDb => Access::Nothing,
        Request::InitDb { .. } | Request::IndexDirectory { .. } => Access::Exclusive,
        Request::DropDirectory { .. } | Request::RestartIndex { .. } => Access::Exclusive,
        Request::CleanupFilePicker { .. } => Access::Exclusive,
        _ => Access::Shared,
    }
}

/// Says what the request needs of the daemon's state.
pub fn access_for(request: &Request) -> (res: Access)
    ensures
        res == access(*request),
{
    match request {
        Request::Ping | Request::Shutdown | Request::ParseGrepQuery { .. } => Access::Nothing,
        Request::DestroyFrecencyDb | Request::DestroyQueryDb => Access::Nothing,
        Request::InitDb { .. } | Request::IndexDirectory { .. } => Access::Exclusive,
        Request::DropDirectory { .. } | Request::RestartIndex { .. } => Access::Exclusive,
        Request::CleanupFilePicker { .. } => Access::Exclusive,
        _ => Access::Shared,
    }
}

/// `action` is what a request that needs nothing of the state comes to.
pub open spec fn handled_alone<H>(action: Action<H>, request: Request) -> bool {
    match request {
        Request::Ping => action == Action::<H>::Reply(Response::Pong),
        Request::Shutdown => action == Action::<H>::Reply(Response::Done),
        Request::DestroyFrecencyDb | Request::DestroyQueryDb => refuses(action, destroy_refused()),
        Request::ParseGrepQuery { query } => action == Action::<H>::ParseGrep { query },
        _ => false,
    }
}

/// `action` is what a request that only looks at the state comes to.
pub open spec fn handled_shared<H: Clone, F: Fn(&H) -> Option<ScanProgressWire>>(
    action: Action<H>,
    before: StateModel<H>,
    request: Request,
    resolved: Seq<Result<FsPath, String>>,
    version: Seq<char>,
    probe: F,
) -> bool {
    match request {
        Request::ListDirectories => {
            &&& action matches Action::Reply(Response::Directories(infos))
            &&& crate::state::lists(infos@, before.dirs, probe)
        },
        Request::HealthCheck { path } if !before.holds(resolved[0]) => {
            &&& action matches Action::Reply(Response::HealthCheck(health))
            &&& says_nothing(health, version)
        },
        _ => looked_up(
            action,
            before,
            named_paths(request)[0]@,
            resolved[0],
            engine_call(request)->0,
        ),
    }
}

/// The paths of the request that have to be made canonical before it is handled.
pub fn paths_to_resolve(request: &Request) -> (res: Vec<FsPath>)
    ensures
        crate::order::bytes_of(res@) == crate::order::bytes_of(named_paths(*request)),
{
    let mut res: Vec<FsPath> = Vec::new();
    match request {
        Request::Ping | Request::Shutdown | Request::ListDirectories => {},
        Request::InitDb { .. } | Request::ParseGrepQuery { .. } => {},
        Request::DestroyFrecencyDb | Request::DestroyQueryDb => {},
        Request::RestartIndex { path, new_path } => {
            res.push(path.clone());
            res.push(path.clone());
            res.push(new_path.clone());
        },
        Request::IndexDirectory { path, .. } => res.push(path.clone()),
        Request::DropDirectory { path } => res.push(path.clone()),
        Request::WaitForScan { path, .. } => res.push(path.clone()),
        Request::GetScanProgress { path } => res.push(path.clone()),
        Request::IsScanning { path } => res.push(path.clone()),
        Request::FuzzySearch { path, .. } => res.push(path.clone()),
        Request::GrepSearch { path, .. } => res.push(path.clone()),
        Request::TrackAccess { path, .. } => res.push(path.clone()),
        Request::UpdateSingleFileFrecency { path, .. } => res.push(path.clone()),
        Request::TrackQueryCompletion { path, .. } => res.push(path.clone()),
        Request::TrackGrepQuery { path, .. } => res.push(path.clone()),
        Request::GetHistoricalQuery { path, .. } => res.push(path.clone()),
        Request::GetHistoricalGrepQuery { path, .. } => res.push(path.clone()),
        Request::RefreshGitStatus { path } => res.push(path.clone()),
        Request::GetGitRoot { path } => res.push(path.clone()),
        Request::GetBasePath { path } => res.push(path.clone()),
        Request::TriggerRescan { path } => res.push(path.clone()),
        Request::StopBackgroundMonitor { path } => res.push(path.clone()),
        Request::CleanupFilePicker { path } => res.push(path.clone()),
        Request::HealthCheck { path } => res.push(path.clone()),
    }
    assert(crate::order::bytes_of(res@) =~= crate::order::bytes_of(named_paths(*request)));
    res
}

/// What a request for a directory comes to.
fn ensured_action<H>(ensured: Ensured, purpose: Purpose) -> (res: Action<H>)
    ensures
        match ensured {
            Ensured::Present => res == Action::<H>::Reply(opened_answer(purpose)),
            Ensured::Missing(plan) => res == (Action::<H>::Open { plan, purpose }),
            Ensured::Failed(message) => res == Action::<H>::Reply(Response::Error(message)),
        },
{
    match ensured {
        Ensured::Present => match purpose {
            Purpose::Index => Action::Reply(Response::Bool(true)),
            Purpose::Restart => Action::Reply(Response::Done),
        },
        Ensured::Missing(plan) => Action::Open { plan, purpose },
        Ensured::Failed(message) => Action::Reply(Response::Error(message)),
    }
}

/// What a question about an indexed directory comes to.
fn engine_action<H: Clone>(
    state: &DaemonState<H>,
    path: &FsPath,
    canonical: &Result<FsPath, String>,
    call: EngineCall,
) -> (res: Action<H>)
    requires
        state.wf(),
    ensures
        looked_up(res, state@, path@, *canonical, call),
{
    match state.get_handles(path, canonical) {
        Ok(handles) => Action::Engine { handles, call },
        Err(e) => Action::Reply(Response::Error(e)),
    }
}

/// What the search engine is to take for the mode of a content search.
fn engine_grep_mode(mode: GrepModeWire) -> (res: GrepMode)
    ensures
        res is PlainText <==> mode is PlainText,
        res is Regex <==> mode is Regex,
        res is Fuzzy <==> mode is Fuzzy,
        res == grep_mode(mode),
{
    match mode {
        GrepModeWire::PlainText => GrepMode::PlainText,
        GrepModeWire::Regex => GrepMode::Regex,
        GrepModeWire::Fuzzy => GrepMode::Fuzzy,
    }
}

/// Handles a request that needs nothing of the state, or gives any other one back.
pub fn handle_alone<H>(request: Request) -> (res: Result<Action<H>, Request>)
    ensures
        match res {
            Ok(action) => access(request) == Access::Nothing && handled_alone(action, request),
            Err(other) => access(request) != Access::Nothing && other == request,
        },
{
    match request {
        Request::Ping => Ok(Action::Reply(Response::Pong)),
        Request::Shutdown => Ok(Action::Reply(Response::Done)),
        Request::DestroyFrecencyDb | Request::DestroyQueryDb => Ok(
            Action::Reply(
                Response::Error(
                    "not supported in daemon mode — manage DB lifecycle via the daemon's directory management".to_owned(),
                ),
            ),
        ),
        Request::ParseGrepQuery { query } => Ok(Action::ParseGrep { query }),
        other => Err(other),
    }
}

/// Handles a request that only looks at the state. `resolved` holds the canonical form of
/// every path that `paths_to_resolve` names, or why it has none; `probe` asks the search
/// engine how far a scan has come, and `version` is the version of the daemon.
pub fn handle_shared<H: Clone, F: Fn(&H) -> Option<ScanProgressWire>>(
    state: &DaemonState<H>,
    request: Request,
    resolved: &Vec<Result<FsPath, String>>,
    version: &str,
    probe: &F,
) -> (res: Action<H>)
    requires
        state.wf(),
        access(request) == Access::Shared,
        resolved@.len() == named_paths(request).len(),
        forall|handles: &H| #[trigger] call_requires(*probe, (handles,)),
    ensures
        handled_shared(res, state@, request, resolved@, version@, *probe),
{
    match request {
        Request::ListDirectories => {
            Action::Reply(Response::Directories(state.list_directories(probe)))
        },
        Request::WaitForScan { path, timeout_ms } => engine_action(
            state,
            &path,
            &resolved[0],
            EngineCall::WaitForScan { timeout_ms },
        ),
        Request::GetScanProgress { path } => engine_action(
            state,
            &path,
            &resolved[0],
            EngineCall::ScanProgress,
        ),
        Request::IsScanning { path } => engine_action(
            state,
            &path,
            &resolved[0],
            EngineCall::IsScanning,
        ),
        Request::FuzzySearch {
            path,
            query,
            max_threads,
            current_file,
            combo_boost_score_multiplier,
            min_combo_count,
            page_index,
            page_size,
        } => {
            let options = FuzzyOptions {
                max_threads,
                current_file,
                combo_boost_score_multiplier,
                min_combo_count,
                offset: page_index,
                limit: page_size,
            };
            engine_action(state, &path, &resolved[0], EngineCall::FuzzySearch { query, options })
        },
        Request::GrepSearch {
            path,
            query,
            file_offset,
            page_size,
            max_file_size,
            max_matches_per_file,
            smart_case,
            grep_mode: mode,
            time_budget_ms,
            trim_whitespace,
        } => {
            let options = GrepOptions {
                max_file_size,
                max_matches_per_file,
                smart_case,
                file_offset,
                page_limit: page_size,
                mode: engine_grep_mode(mode),
                time_budget_ms,
                trim_whitespace,
            };
            engine_action(state, &path, &resolved[0], EngineCall::Grep { query, options })
        },
        Request::TrackAccess { path, file_path } => engine_action(
            state,
            &path,
            &resolved[0],
            EngineCall::TrackAccess { file_path },
        ),
        Request::UpdateSingleFileFrecency { path, file_path } => engine_action(
            state,
            &path,
            &resolved[0],
            EngineCall::UpdateFrecency { file_path },
        ),
        Request::TrackQueryCompletion { path, query, file_path } => engine_action(
            state,
            &path,
            &resolved[0],
            EngineCall::TrackQuery { query, file_path },
        ),
        Request::TrackGrepQuery { path, query } => engine_action(
            state,
            &path,
            &resolved[0],
            EngineCall::TrackGrepQuery { query },
        ),
        Request::GetHistoricalQuery { path, offset } => engine_action(
            state,
            &path,
            &resolved[0],
            EngineCall::PastQuery { offset },
        ),
        Request::GetHistoricalGrepQuery { path, offset } => engine_action(
            state,
            &path,
            &resolved[0],
            EngineCall::PastGrepQuery { offset },
        ),
        Request::RefreshGitStatus { path } => engine_action(
            state,
            &path,
            &resolved[0],
            EngineCall::RefreshGitStatus,
        ),
        Request::GetGitRoot { path } => engine_action(
            state,
            &path,
            &resolved[0],
            EngineCall::GitRoot,
        ),
        Request::GetBasePath { path } => engine_action(
            state,
            &path,
            &resolved[0],
            EngineCall::BasePath,
        ),
        Request::TriggerRescan { path } => engine_action(
            state,
            &path,
            &resolved[0],
            EngineCall::Rescan,
        ),
        Request::StopBackgroundMonitor { path } => engine_action(
            state,
            &path,
            &resolved[0],
            EngineCall::StopMonitor,
        ),
        Request::HealthCheck { path } => match state.get_handles(&path, &resolved[0]) {
            Ok(handles) => Action::Engine { handles, call: EngineCall::Health { path } },
            Err(_) => Action::Reply(
                Response::HealthCheck(
                    HealthCheckWire {
                        version: version.to_owned(),
                        git_available: false,
                        git_repository_found: false,
                        git_libgit2_version: String::new(),
                        git_workdir: None,
                        file_picker_initialized: false,
                        file_picker_base_path: None,
                        file_picker_is_scanning: None,
                        file_picker_indexed_files: None,
                    },
                ),
            ),
        },
        _ => {
            assert(false);
            Action::Reply(Response::Done)
        },
    }
}

/// Handles one request of the client, with the state for itself. The other arguments are
/// those of `handle_shared`.
pub fn handle_request<H: Clone, F: Fn(&H) -> Option<ScanProgressWire>>(
    state: &mut DaemonState<H>,
    request: Request,
    resolved: &Vec<Result<FsPath, String>>,
    client: Client,
    now: u128,
    version: &str,
    probe: &F,
) -> (res: Action<H>)
    requires
        old(state).wf(),
        resolved@.len() == named_paths(request).len(),
        forall|handles: &H| #[trigger] call_requires(*probe, (handles,)),
    ensures
        final(state).wf(),
        final(state)@ == next_state(old(state)@, request, resolved@, client, now),
        handled(res, old(state)@, request, resolved@, client, now, version@, *probe),
{
    match request {
        Request::InitDb { frecency_db_path, history_db_path, use_unsafe_no_lock } => {
            state.init_db(frecency_db_path, history_db_path, use_unsafe_no_lock);
            Action::Reply(Response::Bool(true))
        },
        Request::IndexDirectory { path: _, watch_git_events } => {
            let ensured = state.ensure_directory(&resolved[0], watch_git_events, client, now);
            ensured_action(ensured, Purpose::Index)
        },
        Request::DropDirectory { .. } => {
            Action::Reply(Response::Bool(state.drop_directory(&resolved[0])))
        },
        Request::RestartIndex { .. } => {
            let _ = state.get_directory(&resolved[0], now);
            let _ = state.release_client(&resolved[1], client);
            let ensured = state.ensure_directory(&resolved[2], true, client, now);
            ensured_action(ensured, Purpose::Restart)
        },
        Request::CleanupFilePicker { .. } => {
            Action::Reply(Response::Bool(state.release_client(&resolved[0], client)))
        },
        other => match handle_alone(other) {
            Ok(action) => action,
            Err(looking) => handle_shared(state, looking, resolved, version, probe),
        },
    }
}

/// What opening a directory takes the state to, and what is answered.
pub open spec fn open_finished<H>(
    before: StateModel<H>,
    after: StateModel<H>,
    plan: OpenPlan,
    purpose: Purpose,
    opened: Result<H, String>,
    now: u128,
    response: Response,
) -> bool {
    match opened {
        Ok(handles) => {
            &&& response == opened_answer(purpose)
            &&& after == before.with_opened(plan.path@, handles, plan.client, now)
        },
        Err(e) => {
            &&& response matches Response::Error(message)
            &&& message@ == crate::state::no_picker(e@)
            &&& after == before
        },
    }
}

/// Takes in what became of opening a directory, and answers the request that asked for it.
pub fn finish_open<H>(
    state: &mut DaemonState<H>,
    plan: OpenPlan,
    purpose: Purpose,
    opened: Result<H, String>,
    now: u128,
) -> (res: Response)
    requires
        old(state).wf(),
        !old(state)@.dirs.contains_key(plan.path@),
    ensures
        final(state).wf(),
        open_finished(old(state)@, final(state)@, plan, purpose, opened, now, res),
{
    match state.directory_opened(plan, opened, now) {
        Ok(()) => match purpose {
            Purpose::Index => Response::Bool(true),
            Purpose::Restart => Response::Done,
        },
        Err(e) => Response::Error(e),
    }
}

/// The version of libgit2 as text.
pub open spec fn version_text(version: (u32, u32, u32)) -> Seq<char> {
    crate::text::decimal(version.0 as nat) + "."@ + crate::text::decimal(version.1 as nat) + "."@
        + crate::text::decimal(version.2 as nat)
}

/// `text` is the path as text, where there is a path.
pub open spec fn shows_path(text: Option<String>, path: Option<FsPath>) -> bool {
    match path {
        Some(path) => text matches Some(text) && text@ == crate::path::lossy_text(path@),
        None => text is None,
    }
}

/// `health` is what is said of an indexed directory.
pub open spec fn says_all(
    health: HealthCheckWire,
    repository: Option<Repository>,
    picker: Locked<PickerFacts>,
    version: Seq<char>,
    libgit2: (u32, u32, u32),
) -> bool {
    &&& health.version@ == version
    &&& health.git_available
    &&& health.git_repository_found == (repository is Some)
    &&& health.git_libgit2_version@ == version_text(libgit2)
    &&& shows_path(
        health.git_workdir,
        match repository {
            Some(repository) => repository.workdir,
            None => None,
        },
    )
    &&& match picker {
        Locked::Held(facts) => {
            &&& health.file_picker_initialized
            &&& shows_path(health.file_picker_base_path, Some(facts.base_path))
            &&& health.file_picker_is_scanning == Some(facts.progress.is_scanning)
            &&& health.file_picker_indexed_files == Some(facts.progress.scanned_files_count)
        },
        _ => {
            &&& !health.file_picker_initialized
            &&& health.file_picker_base_path is None
            &&& health.file_picker_is_scanning is None
            &&& health.file_picker_indexed_files is None
        },
    }
}

/// `response` is an error with this text.
pub open spec fn complains(response: Response, text: Seq<char>) -> bool {
    response matches Response::Error(message) && message@ == text
}

/// `response` is the answer that the engine's outcome means.
pub open spec fn replies(
    response: Response,
    outcome: EngineOutcome,
    version: Seq<char>,
    libgit2: (u32, u32, u32),
) -> bool {
    match outcome {
        EngineOutcome::WaitForScan(completed) => response == Response::Bool(completed),
        EngineOutcome::ScanProgress(Locked::Held(progress)) => response == Response::ScanProgress(
            progress,
        ),
        EngineOutcome::ScanProgress(Locked::Missing) => complains(response, picker_missing()),
        EngineOutcome::ScanProgress(Locked::Failed(e)) => response == Response::Error(e),
        EngineOutcome::IsScanning(Locked::Held(scanning)) => response == Response::Bool(scanning),
        EngineOutcome::IsScanning(Locked::Missing) => response == Response::Bool(false),
        EngineOutcome::IsScanning(Locked::Failed(e)) => response == Response::Error(e),
        EngineOutcome::FuzzySearch(Joined::Broken(e)) => complains(response, task_broken(e@)),
        EngineOutcome::FuzzySearch(Joined::Finished(Locked::Failed(e))) => response
            == Response::Error(e),
        EngineOutcome::FuzzySearch(Joined::Finished(Locked::Missing)) => complains(
            response,
            picker_missing(),
        ),
        EngineOutcome::FuzzySearch(Joined::Finished(Locked::Held(Err(e)))) => response
            == Response::Error(e),
        EngineOutcome::FuzzySearch(Joined::Finished(Locked::Held(Ok(page)))) => {
            &&& response matches Response::SearchResult(wire)
            &&& crate::convert::shows_search(wire, page)
        },
        EngineOutcome::Grep(Joined::Broken(e)) => complains(response, task_broken(e@)),
        EngineOutcome::Grep(Joined::Finished(Locked::Failed(e))) => response == Response::Error(e),
        EngineOutcome::Grep(Joined::Finished(Locked::Missing)) => complains(
            response,
            picker_missing(),
        ),
        EngineOutcome::Grep(Joined::Finished(Locked::Held(page))) => {
            &&& response matches Response::GrepResult(wire)
            &&& crate::convert::shows_grep(wire, page)
        },
        EngineOutcome::Noted => response == Response::Bool(true),
        EngineOutcome::PastQuery(Joined::Broken(e)) => response == Response::Error(e),
        EngineOutcome::PastQuery(Joined::Finished(Locked::Held(Locked::Held(Ok(query))))) => response
            == Response::OptionalString(query),
        EngineOutcome::PastQuery(_) => response == Response::OptionalString(None),
        EngineOutcome::RefreshGitStatus(Joined::Broken(e)) => response == Response::Error(e),
        EngineOutcome::RefreshGitStatus(Joined::Finished(Ok(count))) => response
            == Response::Usize(count),
        EngineOutcome::RefreshGitStatus(Joined::Finished(Err(e))) => response == Response::Error(e),
        EngineOutcome::GitRoot(root) => {
            &&& response matches Response::OptionalString(text)
            &&& shows_path(
                text,
                match root {
                    Locked::Held(root) => root,
                    _ => None,
                },
            )
        },
        EngineOutcome::BasePath(base) => {
            &&& response matches Response::OptionalString(text)
            &&& shows_path(
                text,
                match base {
                    Locked::Held(base) => Some(base),
                    _ => None,
                },
            )
        },
        EngineOutcome::Rescan(Joined::Broken(e)) => response == Response::Error(e),
        EngineOutcome::Rescan(Joined::Finished(Err(e))) => response == Response::Error(e),
        EngineOutcome::Rescan(Joined::Finished(Ok(_))) => response == Response::Done,
        EngineOutcome::StopMonitor(Joined::Broken(e)) => response == Response::Error(e),
        EngineOutcome::StopMonitor(Joined::Finished(Err(e))) => response == Response::Error(e),
        EngineOutcome::StopMonitor(Joined::Finished(Ok(_))) => response == Response::Bool(true),
        EngineOutcome::Health { repository, picker } => {
            &&& response matches Response::HealthCheck(health)
            &&& says_all(health, repository, picker, version, libgit2)
        },
        EngineOutcome::ParseGrep { grep_text } => response == (Response::ParsedGrepQuery {
            grep_text,
        }),
    }
}

/// The outcome is one that the call can have.
pub open spec fn fits(call: EngineCall, outcome: EngineOutcome) -> bool {
    match call {
        EngineCall::WaitForScan { .. } => outcome is WaitForScan,
        EngineCall::ScanProgress => outcome is ScanProgress,
        EngineCall::IsScanning => outcome is IsScanning,
        EngineCall::FuzzySearch { .. } => outcome is FuzzySearch,
        EngineCall::Grep { .. } => outcome is Grep,
        EngineCall::TrackAccess { .. } | EngineCall::UpdateFrecency { .. } => outcome is Noted,
        EngineCall::TrackQuery { .. } | EngineCall::TrackGrepQuery { .. } => outcome is Noted,
        EngineCall::PastQuery { .. } | EngineCall::PastGrepQuery { .. } => outcome is PastQuery,
        EngineCall::RefreshGitStatus => outcome is RefreshGitStatus,
        EngineCall::GitRoot => outcome is GitRoot,
        EngineCall::BasePath => outcome is BasePath,
        EngineCall::Rescan => outcome is Rescan,
        EngineCall::StopMonitor => outcome is StopMonitor,
        EngineCall::Health { .. } => outcome is Health,
    }
}

/// The response is of the kind that the request asks for.
pub open spec fn own_kind(request: Request, response: Response) -> bool {
    match request {
        Request::Ping => response is Pong,
        Request::Shutdown | Request::TriggerRescan { .. } => response is Done,
        Request::RestartIndex { .. } => response is Done,
        Request::IndexDirectory { .. } | Request::DropDirectory { .. } => response is Bool,
        Request::WaitForScan { .. } | Request::IsScanning { .. } => response is Bool,
        Request::InitDb { .. } | Request::TrackAccess { .. } => response is Bool,
        Request::UpdateSingleFileFrecency { .. } => response is Bool,
        Request::TrackQueryCompletion { .. } | Request::TrackGrepQuery { .. } => response is Bool,
        Request::StopBackgroundMonitor { .. } => response is Bool,
        Request::CleanupFilePicker { .. } => response is Bool,
        Request::ListDirectories => response is Directories,
        Request::GetScanProgress { .. } => response is ScanProgress,
        Request::FuzzySearch { .. } => response is SearchResult,
        Request::GrepSearch { .. } => response is GrepResult,
        Request::GetHistoricalQuery { .. } => response is OptionalString,
        Request::GetHistoricalGrepQuery { .. } => response is OptionalString,
        Request::GetGitRoot { .. } | Request::GetBasePath { .. } => response is OptionalString,
        Request::RefreshGitStatus { .. } => response is Usize,
        Request::DestroyFrecencyDb | Request::DestroyQueryDb => false,
        Request::ParseGrepQuery { .. } => response is ParsedGrepQuery,
        Request::HealthCheck { .. } => response is HealthCheck,
    }
}

/// What comes of an action: the state goes from `before` to `after`, and the request gets
/// this response. `outcome` and `opened` are what the search engine says, where it is asked.
pub open spec fn performed<H>(
    action: Action<H>,
    before: StateModel<H>,
    after: StateModel<H>,
    outcome: EngineOutcome,
    opened: Result<H, String>,
    now: u128,
    version: Seq<char>,
    libgit2: (u32, u32, u32),
    response: Response,
) -> bool {
    match action {
        Action::Reply(reply) => after == before && response == reply,
        Action::Open { plan, purpose } => open_finished(
            before,
            after,
            plan,
            purpose,
            opened,
            now,
            response,
        ),
        Action::Engine { call, .. } => {
            &&& after == before
            &&& fits(call, outcome)
            &&& replies(response, outcome, version, libgit2)
        },
        Action::ParseGrep { .. } => {
            &&& after == before
            &&& outcome is ParseGrep
            &&& replies(response, outcome, version, libgit2)
        },
    }
}

/// Calls `git2::Version::get` and `libgit2_version` on its result: the version of the
/// library that the program is linked with. Nothing is claimed of it.
#[verifier::external_body]
fn linked_libgit2() -> (res: (u32, u32, u32)) {
    git2::Version::get().libgit2_version()
}

/// The path as text, where there is a path.
fn path_text(path: Option<FsPath>) -> (res: Option<String>)
    ensures
        shows_path(res, path),
{
    match path {
        Some(path) => Some(path.display()),
        None => None,
    }
}

/// What is said of an indexed directory.
fn health(
    repository: Option<Repository>,
    picker: Locked<PickerFacts>,
    version: &str,
    libgit2: (u32, u32, u32),
) -> (res: HealthCheckWire)
    ensures
        says_all(res, repository, picker, version@, libgit2),
{
    let major = decimal_text(libgit2.0 as u64);
    let minor = decimal_text(libgit2.1 as u64);
    let rev = decimal_text(libgit2.2 as u64);
    let libgit2_version = major.concat(".").concat(minor.as_str()).concat(".").concat(
        rev.as_str(),
    );
    let git_repository_found = repository.is_some();
    let git_workdir = match repository {
        Some(repository) => path_text(repository.workdir),
        None => None,
    };
    let (initialized, base_path, is_scanning, indexed_files) = match picker {
        Locked::Held(facts) => (
            true,
            path_text(Some(facts.base_path)),
            Some(facts.progress.is_scanning),
            Some(facts.progress.scanned_files_count),
        ),
        Locked::Failed(_) | Locked::Missing => (false, None, None, None),
    };
    HealthCheckWire {
        version: version.to_owned(),
        git_available: true,
        git_repository_found,
        git_libgit2_version: libgit2_version,
        git_workdir,
        file_picker_initialized: initialized,
        file_picker_base_path: base_path,
        file_picker_is_scanning: is_scanning,
        file_picker_indexed_files: indexed_files,
    }
}

/// The answer that the engine's outcome means, with `libgit2` for the version of that
/// library.
pub fn respond_with(outcome: EngineOutcome, version: &str, libgit2: (u32, u32, u32)) -> (res:
    Response)
    requires
        outcome.wf(),
    ensures
        replies(res, outcome, version@, libgit2),
{
    match outcome {
        EngineOutcome::WaitForScan(completed) => Response::Bool(completed),
        EngineOutcome::ScanProgress(progress) => match progress {
            Locked::Held(progress) => Response::ScanProgress(progress),
            Locked::Missing => Response::Error("picker not initialized".to_owned()),
            Locked::Failed(e) => Response::Error(e),
        },
        EngineOutcome::IsScanning(scanning) => match scanning {
            Locked::Held(scanning) => Response::Bool(scanning),
            Locked::Missing => Response::Bool(false),
            Locked::Failed(e) => Response::Error(e),
        },
        EngineOutcome::FuzzySearch(found) => match found {
            Joined::Finished(Locked::Held(Ok(page))) => Response::SearchResult(
                search_page_to_wire(&page),
            ),
            Joined::Finished(Locked::Held(Err(e))) => Response::Error(e),
            Joined::Finished(Locked::Missing) => Response::Error(
                "picker not initialized".to_owned(),
            ),
            Joined::Finished(Locked::Failed(e)) => Response::Error(e),
            Joined::Broken(e) => Response::Error(prefixed("task join error: ", e.as_str())),
        },
        EngineOutcome::Grep(found) => match found {
            Joined::Finished(Locked::Held(page)) => Response::GrepResult(grep_page_to_wire(&page)),
            Joined::Finished(Locked::Missing) => Response::Error(
                "picker not initialized".to_owned(),
            ),
            Joined::Finished(Locked::Failed(e)) => Response::Error(e),
            Joined::Broken(e) => Response::Error(prefixed("task join error: ", e.as_str())),
        },
        EngineOutcome::Noted => Response::Bool(true),
        EngineOutcome::PastQuery(query) => match query {
            Joined::Finished(Locked::Held(Locked::Held(Ok(query)))) => Response::OptionalString(
                query,
            ),
            Joined::Finished(_) => Response::OptionalString(None),
            Joined::Broken(e) => Response::Error(e),
        },
        EngineOutcome::RefreshGitStatus(refreshed) => match refreshed {
            Joined::Finished(Ok(count)) => Response::Usize(count),
            Joined::Finished(Err(e)) => Response::Error(e),
            Joined::Broken(e) => Response::Error(e),
        },
        EngineOutcome::GitRoot(root) => match root {
            Locked::Held(root) => Response::OptionalString(path_text(root)),
            Locked::Missing | Locked::Failed(_) => Response::OptionalString(None),
        },
        EngineOutcome::BasePath(base) => match base {
            Locked::Held(base) => Response::OptionalString(path_text(Some(base))),
            Locked::Missing | Locked::Failed(_) => Response::OptionalString(None),
        },
        EngineOutcome::Rescan(done) => match done {
            Joined::Finished(Ok(())) => Response::Done,
            Joined::Finished(Err(e)) => Response::Error(e),
            Joined::Broken(e) => Response::Error(e),
        },
        EngineOutcome::StopMonitor(done) => match done {
            Joined::Finished(Ok(())) => Response::Bool(true),
            Joined::Finished(Err(e)) => Response::Error(e),
            Joined::Broken(e) => Response::Error(e),
        },
        EngineOutcome::Health { repository, picker } => Response::HealthCheck(
            health(repository, picker, version, libgit2),
        ),
        EngineOutcome::ParseGrep { grep_text } => Response::ParsedGrepQuery { grep_text },
    }
}

/// The answer that the engine's outcome means.
pub fn respond(outcome: EngineOutcome, version: &str) -> (res: Response)
    requires
        outcome.wf(),
    ensures
        exists|libgit2: (u32, u32, u32)| #[trigger] replies(res, outcome, version@, libgit2),
{
    let libgit2 = match &outcome {
        EngineOutcome::Health { .. } => linked_libgit2(),
        _ => (0, 0, 0),
    };
    respond_with(outcome, version, libgit2)
}

/// The requests that only ask, and those that are refused, leave the state as it is.
pub proof fn questions_change_nothing<H>(
    before: StateModel<H>,
    request: Request,
    resolved: Seq<Result<FsPath, String>>,
    client: Client,
    now: u128,
)
    requires
        access(request) != Access::Exclusive,
    ensures
        next_state(before, request, resolved, client, now) == before,
{
}

/// A request none of whose paths can be made canonical changes no directory.
pub proof fn unknown_paths_change_no_directory<H>(
    before: StateModel<H>,
    request: Request,
    resolved: Seq<Result<FsPath, String>>,
    client: Client,
    now: u128,
)
    requires
        resolved.len() == named_paths(request).len(),
        forall|k: int| 0 <= k < resolved.len() ==> #[trigger] resolved[k] is Err,
    ensures
        next_state(before, request, resolved, client, now).dirs == before.dirs,
        next_state(before, request, resolved, client, now).lru == before.lru,
{
    if named_paths(request).len() > 0 {
        assert(resolved[0] is Err);
    }
    if request is RestartIndex {
        assert(resolved[1] is Err);
        assert(resolved[2] is Err);
    }
}

/// No request other than to drop one takes away a directory that some other client uses,
/// be it another connection of the same process.
pub proof fn used_directories_survive_requests<H>(
    before: StateModel<H>,
    request: Request,
    resolved: Seq<Result<FsPath, String>>,
    client: Client,
    now: u128,
    path: Seq<u8>,
    other: Client,
)
    requires
        !(request is DropDirectory),
        before.dirs.contains_key(path),
        before.dirs[path].clients.contains_key(other.connection),
        client.connection != other.connection,
    ensures
        ({
            let after = next_state(before, request, resolved, client, now);
            &&& after.dirs.contains_key(path)
            &&& after.dirs[path].handles == before.dirs[path].handles
            &&& after.dirs[path].clients.contains_key(other.connection)
        }),
{
    let max = before.settings.max_directories as nat;
    match request {
        Request::IndexDirectory { .. } => {
            crate::state::used_directories_stay(before.dirs, before.lru, max, now, 0, path);
        },
        Request::RestartIndex { .. } => {
            let mid = before.used(resolved[0], now).released(resolved[1], client);
            assert(mid.dirs[path].clients.contains_key(other.connection));
            crate::state::used_directories_stay(mid.dirs, mid.lru, max, now, 0, path);
        },
        _ => {},
    }
}

/// A health check is never refused, whatever directory it names.
pub proof fn health_checks_are_answered<H: Clone, F: Fn(&H) -> Option<ScanProgressWire>>(
    action: Action<H>,
    before: StateModel<H>,
    path: FsPath,
    resolved: Seq<Result<FsPath, String>>,
    client: Client,
    now: u128,
    version: Seq<char>,
    probe: F,
)
    requires
        handled(
            action,
            before,
            Request::HealthCheck { path },
            resolved,
            client,
            now,
            version,
            probe,
        ),
    ensures
        match action {
            Action::Reply(response) => response is HealthCheck && !before.holds(resolved[0]),
            Action::Engine { call, .. } => call == EngineCall::Health { path } && before.holds(
                resolved[0],
            ),
            _ => false,
        },
{
}

/// Every request is answered with a response of its own kind, or with an error.
pub proof fn answers_are_of_the_requests_kind<
    H: Clone,
    F: Fn(&H) -> Option<ScanProgressWire>,
>(
    action: Action<H>,
    before: StateModel<H>,
    after: StateModel<H>,
    request: Request,
    resolved: Seq<Result<FsPath, String>>,
    client: Client,
    now: u128,
    version: Seq<char>,
    probe: F,
    outcome: EngineOutcome,
    opened: Result<H, String>,
    later: u128,
    libgit2: (u32, u32, u32),
    response: Response,
)
    requires
        handled(action, before, request, resolved, client, now, version, probe),
        performed(
            action,
            next_state(before, request, resolved, client, now),
            after,
            outcome,
            opened,
            later,
            version,
            libgit2,
            response,
        ),
    ensures
        own_kind(request, response) || response is Error,
{
}

/// The requests to destroy a database are always refused, and change nothing.
pub proof fn databases_are_never_destroyed<H: Clone, F: Fn(&H) -> Option<ScanProgressWire>>(
    action: Action<H>,
    before: StateModel<H>,
    request: Request,
    resolved: Seq<Result<FsPath, String>>,
    client: Client,
    now: u128,
    version: Seq<char>,
    probe: F,
)
    requires
        request is DestroyFrecencyDb || request is DestroyQueryDb,
        handled(action, before, request, resolved, client, now, version, probe),
    ensures
        refuses(action, destroy_refused()),
        next_state(before, request, resolved, client, now) == before,
{
}

/// A directory that was dropped is not found by the next question about it.
pub proof fn dropped_directory_is_unknown<H: Clone>(
    before: StateModel<H>,
    action: Action<H>,
    path: FsPath,
    canonical: Result<FsPath, String>,
    call: EngineCall,
)
    requires
        canonical is Ok,
        looked_up(action, before.dropped(canonical), path@, canonical, call),
    ensures
        refuses(action, crate::state::not_indexed(path@)),
{
}

/// A directory that was opened is found by the next question about it, and a second
/// request for it is granted without the search engine.
pub proof fn opened_directory_is_known<H: Clone>(
    before: StateModel<H>,
    question: Action<H>,
    request: Action<H>,
    path: FsPath,
    canonical: FsPath,
    handles: H,
    first: Client,
    second: Client,
    watch_git_events: bool,
    now: u128,
    call: EngineCall,
)
    requires
        ({
            let after = before.with_opened(canonical@, handles, first, now);
            let found = Ok::<FsPath, String>(canonical);
            &&& looked_up(question, after, path@, found, call)
            &&& asked_for(request, after, found, watch_git_events, second, Purpose::Index)
        }),
    ensures
        question matches Action::Engine { handles: given, call: asked } && asked == call && cloned(
            handles,
            given,
        ),
        request == Action::<H>::Reply(Response::Bool(true)),
{
}

} // verus!
