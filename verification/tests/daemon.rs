use fff_daemon::connection::{paths_to_track, AfterAnswer, Connection};
use fff_daemon::convert::{FileItem, GrepMatch, GrepPage, Location, Score, SearchPage};
use fff_daemon::handler::{
    access_for, finish_open, handle_alone, handle_request, handle_shared, paths_to_resolve,
    respond, Access, Action, EngineCall, EngineOutcome, GrepMode, Joined, Locked, PickerFacts,
    Repository,
};
use fff_daemon::path::FsPath;
use fff_daemon::protocol::{GrepModeWire, Request, Response, ScanProgressWire};
use fff_daemon::state::{Client, DaemonState};
use std::collections::BTreeMap;

const VERSION: &str = "0.1.0";
const PID: u32 = 4242;

/// The files of a directory, held in memory, with a plain search over them.
#[derive(Clone, Debug)]
struct Engine {
    base_path: FsPath,
    files: Vec<(String, String)>,
}

impl Engine {
    fn item(&self, at: usize) -> FileItem {
        let path = &self.files[at].0;
        FileItem {
            relative_path: path.clone(),
            name: path.rsplit('/').next().unwrap().to_string(),
            size: self.files[at].1.len() as u64,
            modified: 7,
            access_frecency_score: 1,
            modification_frecency_score: 2,
            total_frecency_score: 3,
            git_status: "clean".to_string(),
            is_binary: false,
        }
    }

    fn progress(&self) -> ScanProgressWire {
        ScanProgressWire { scanned_files_count: self.files.len(), is_scanning: false }
    }

    fn ask(&self, call: EngineCall) -> EngineOutcome {
        match call {
            EngineCall::WaitForScan { timeout_ms } => EngineOutcome::WaitForScan(timeout_ms > 0),
            EngineCall::ScanProgress => EngineOutcome::ScanProgress(Locked::Held(self.progress())),
            EngineCall::IsScanning => EngineOutcome::IsScanning(Locked::Held(false)),
            EngineCall::FuzzySearch { query, options } => {
                let found: Vec<usize> =
                    (0..self.files.len()).filter(|i| self.files[*i].0.contains(&query)).collect();
                let page: Vec<usize> =
                    found.iter().skip(options.offset).take(options.limit).copied().collect();
                EngineOutcome::FuzzySearch(Joined::Finished(Locked::Held(Ok(SearchPage {
                    items: page.iter().map(|i| self.item(*i)).collect(),
                    scores: page.iter().map(|_| score(12)).collect(),
                    total_matched: found.len(),
                    total_files: self.files.len(),
                    location: Some(Location::Position { line: 3, col: 4 }),
                }))))
            }
            EngineCall::Grep { query, options } => {
                assert_eq!(options.mode, GrepMode::PlainText);
                let mut matches = Vec::new();
                for (file_index, file) in self.files.iter().enumerate() {
                    if let Some(at) = file.1.find(&query) {
                        matches.push(GrepMatch {
                            file_index,
                            line_number: 1,
                            col: at,
                            byte_offset: 0,
                            line_content: file.1.clone(),
                            match_byte_offsets: vec![(at as u32, (at + query.len()) as u32)],
                            fuzzy_score: None,
                        });
                    }
                }
                EngineOutcome::Grep(Joined::Finished(Locked::Held(GrepPage {
                    matches,
                    files: (0..self.files.len()).map(|i| self.item(i)).collect(),
                    total_files_searched: self.files.len(),
                    total_files: self.files.len(),
                    filtered_file_count: self.files.len(),
                    next_file_offset: 0,
                    regex_fallback_error: None,
                })))
            }
            EngineCall::Health { path } => {
                assert_eq!(path.bytes, self.base_path.bytes);
                EngineOutcome::Health {
                    repository: Some(Repository { workdir: Some(self.base_path.clone()) }),
                    picker: Locked::Held(PickerFacts {
                        base_path: self.base_path.clone(),
                        progress: self.progress(),
                    }),
                }
            }
            other => panic!("unexpected call {other:?}"),
        }
    }
}

fn score(total: i32) -> Score {
    Score {
        total,
        base_score: 1,
        filename_bonus: 2,
        special_filename_bonus: 3,
        frecency_boost: 4,
        git_status_boost: 5,
        distance_penalty: 6,
        current_file_penalty: 7,
        combo_match_boost: 8,
        path_alignment_bonus: 9,
        exact_match: true,
        match_type: "fuzzy".to_string(),
    }
}

struct TestDaemon {
    state: DaemonState<Engine>,
    connections: BTreeMap<u64, Connection>,
    running: bool,
}

impl TestDaemon {
    fn start() -> Self {
        TestDaemon {
            state: DaemonState::new(20, 1_800_000_000_000),
            connections: BTreeMap::new(),
            running: true,
        }
    }

    /// Sends the request over the connection of the process, and does what is due once it
    /// has been answered.
    fn send_over(&mut self, client: Client, request: &Request) -> Response {
        let response = self.answer(client, request);
        let canonical: Vec<Result<FsPath, String>> =
            paths_to_track(request, &response).iter().map(resolve).collect();
        let connection =
            self.connections.entry(client.connection).or_insert_with(|| Connection::new(client));
        if connection.answered(request, &response, &canonical) == AfterAnswer::Shutdown {
            self.running = false;
        }
        response
    }

    fn close(&mut self, client: Client) {
        let connection = self.connections.remove(&client.connection).unwrap();
        connection.finish(&mut self.state, &resolve);
    }

    fn answer(&mut self, client: Client, request: &Request) -> Response {
        let resolved: Vec<Result<FsPath, String>> =
            paths_to_resolve(request).iter().map(resolve).collect();
        let probe = |engine: &Engine| Some(engine.progress());
        let action = handle_request(
            &mut self.state,
            request.clone(),
            &resolved,
            client,
            1,
            VERSION,
            &probe,
        );
        match action {
            Action::Reply(response) => response,
            Action::Open { plan, purpose } => {
                let engine = Engine { base_path: plan.path.clone(), files: test_files() };
                finish_open(&mut self.state, plan, purpose, Ok(engine), 2)
            }
            Action::Engine { handles, call } => respond(handles.ask(call), VERSION),
            Action::ParseGrep { query } => {
                respond(EngineOutcome::ParseGrep { grep_text: query }, VERSION)
            }
        }
    }

    fn send_as(&mut self, pid: u32, request: &Request) -> Response {
        self.send_over(Client { connection: pid as u64, pid: Some(pid) }, request)
    }

    fn send(&mut self, request: &Request) -> Response {
        self.send_as(PID, request)
    }
}

fn resolve(path: &FsPath) -> Result<FsPath, String> {
    if path.bytes.starts_with(b"/nonexistent") {
        Err("No such file or directory (os error 2)".to_string())
    } else {
        Ok(path.clone())
    }
}

fn test_files() -> Vec<(String, String)> {
    vec![
        ("hello.txt".to_string(), "hello world\n".to_string()),
        ("foo.rs".to_string(), "fn main() { println!(\"foo\"); }\n".to_string()),
        ("bar.rs".to_string(), "fn bar() { println!(\"bar\"); }\n".to_string()),
        ("sub/nested.txt".to_string(), "nested content\n".to_string()),
    ]
}

fn test_dir() -> FsPath {
    FsPath::from_text("/tmp/fff-test")
}

fn fuzzy(query: &str) -> Request {
    Request::FuzzySearch {
        path: test_dir(),
        query: query.to_string(),
        max_threads: 1,
        current_file: None,
        combo_boost_score_multiplier: 0,
        min_combo_count: 3,
        page_index: 0,
        page_size: 10,
    }
}

fn index() -> Request {
    Request::IndexDirectory { path: test_dir(), watch_git_events: false }
}

fn wait() -> Request {
    Request::WaitForScan { path: test_dir(), timeout_ms: 5000 }
}

#[test]
fn test_ping_pong() {
    let mut daemon = TestDaemon::start();
    let resp = daemon.send(&Request::Ping);
    assert!(matches!(resp, Response::Pong));
}

#[test]
fn test_index_directory_and_search() {
    let mut daemon = TestDaemon::start();

    let resp = daemon.send(&index());
    assert!(matches!(resp, Response::Bool(true)), "IndexDirectory failed: {resp:?}");

    let resp = daemon.send(&wait());
    assert!(matches!(resp, Response::Bool(true)), "WaitForScan failed: {resp:?}");

    let resp = daemon.send(&Request::GetScanProgress { path: test_dir() });
    match &resp {
        Response::ScanProgress(p) => {
            assert!(!p.is_scanning);
            assert!(p.scanned_files_count >= 4, "expected >= 4 files, got {}", p.scanned_files_count);
        }
        other => panic!("expected ScanProgress, got {other:?}"),
    }

    let resp = daemon.send(&fuzzy("foo"));
    match &resp {
        Response::SearchResult(r) => {
            assert!(r.total_matched > 0, "expected matches for 'foo'");
            let paths: Vec<&str> = r.items.iter().map(|i| i.relative_path.as_str()).collect();
            assert!(paths.iter().any(|p| p.contains("foo.rs")), "expected foo.rs: {paths:?}");
        }
        other => panic!("expected SearchResult, got {other:?}"),
    }

    let resp = daemon.send(&fuzzy("nested"));
    match &resp {
        Response::SearchResult(r) => {
            assert!(r.total_matched > 0, "expected matches for 'nested'");
            let paths: Vec<&str> = r.items.iter().map(|i| i.relative_path.as_str()).collect();
            assert!(
                paths.iter().any(|p| p.contains("nested.txt")),
                "expected nested.txt: {paths:?}"
            );
        }
        other => panic!("expected SearchResult, got {other:?}"),
    }
}

#[test]
fn test_grep_search() {
    let mut daemon = TestDaemon::start();
    daemon.send(&index());
    daemon.send(&wait());

    let resp = daemon.send(&Request::GrepSearch {
        path: test_dir(),
        query: "println".to_string(),
        file_offset: 0,
        page_size: 50,
        max_file_size: 10 * 1024 * 1024,
        max_matches_per_file: 200,
        smart_case: true,
        grep_mode: GrepModeWire::PlainText,
        time_budget_ms: 0,
        trim_whitespace: false,
    });
    match &resp {
        Response::GrepResult(r) => {
            assert!(r.total_matched >= 2, "expected >= 2 matches, got {}", r.total_matched);
            let files: Vec<&str> = r.items.iter().map(|i| i.relative_path.as_str()).collect();
            assert!(files.iter().any(|f| f.contains("foo.rs")), "expected foo.rs: {files:?}");
            assert_eq!(r.items[0].match_ranges, vec![(12, 19)]);
            assert_eq!(r.items[1].name, "bar.rs");
        }
        other => panic!("expected GrepResult, got {other:?}"),
    }
}

#[test]
fn test_list_directories() {
    let mut daemon = TestDaemon::start();
    daemon.send(&index());
    daemon.send(&wait());

    let resp = daemon.send(&Request::ListDirectories);
    match &resp {
        Response::Directories(dirs) => {
            assert!(!dirs.is_empty(), "expected at least 1 directory");
            assert!(dirs[0].file_count >= 4, "expected >= 4 files, got {}", dirs[0].file_count);
            assert!(dirs[0].client_count >= 1, "expected a client, got {}", dirs[0].client_count);
            assert!(
                dirs[0].client_pids.contains(&PID),
                "expected client pid list to hold {}: {:?}",
                PID,
                dirs[0].client_pids
            );
        }
        other => panic!("expected Directories, got {other:?}"),
    }
}

#[test]
fn test_health_check() {
    let mut daemon = TestDaemon::start();
    daemon.send(&index());
    daemon.send(&wait());

    let resp = daemon.send(&Request::HealthCheck { path: test_dir() });
    match &resp {
        Response::HealthCheck(h) => {
            assert!(h.file_picker_initialized);
            assert!(h.file_picker_base_path.is_some());
            assert!(!h.version.is_empty());
            assert_eq!(h.file_picker_base_path.as_deref(), Some("/tmp/fff-test"));
            assert_eq!(h.git_workdir.as_deref(), Some("/tmp/fff-test"));
            assert_eq!(h.file_picker_indexed_files, Some(4));
            let (major, minor, rev) = git2::Version::get().libgit2_version();
            assert_eq!(h.git_libgit2_version, format!("{major}.{minor}.{rev}"));
        }
        other => panic!("expected HealthCheck, got {other:?}"),
    }
}

#[test]
fn test_health_check_unknown_directory() {
    let mut daemon = TestDaemon::start();
    let resp =
        daemon.send(&Request::HealthCheck { path: FsPath::from_text("/nonexistent/path") });
    match &resp {
        Response::HealthCheck(h) => {
            assert!(!h.file_picker_initialized);
        }
        other => panic!("expected HealthCheck, got {other:?}"),
    }
}

#[test]
fn test_multiple_clients() {
    let mut daemon = TestDaemon::start();
    daemon.send_as(1, &index());
    daemon.send_as(1, &wait());

    let resp = daemon.send_as(2, &fuzzy("bar"));
    match &resp {
        Response::SearchResult(r) => {
            assert!(r.total_matched > 0, "client2 should find 'bar'");
        }
        other => panic!("expected SearchResult, got {other:?}"),
    }
}

#[test]
fn test_cleanup_and_drop_directory() {
    let mut daemon = TestDaemon::start();
    daemon.send(&index());
    daemon.send(&wait());

    let resp = daemon.send(&Request::DropDirectory { path: test_dir() });
    assert!(matches!(resp, Response::Bool(true)));

    let resp = daemon.send(&Request::ListDirectories);
    match &resp {
        Response::Directories(dirs) => {
            assert!(dirs.is_empty(), "expected 0 directories after drop");
        }
        other => panic!("expected Directories, got {other:?}"),
    }
}

#[test]
fn test_shutdown() {
    let mut daemon = TestDaemon::start();
    let resp = daemon.send(&Request::Shutdown);
    assert!(matches!(resp, Response::Done));
    assert!(!daemon.running, "daemon should have shut down");
}

#[test]
fn test_parse_grep_query() {
    let mut daemon = TestDaemon::start();
    let resp = daemon.send(&Request::ParseGrepQuery { query: "hello world".to_string() });
    match &resp {
        Response::ParsedGrepQuery { grep_text } => {
            assert!(!grep_text.is_empty());
        }
        other => panic!("expected ParsedGrepQuery, got {other:?}"),
    }
}

#[test]
fn test_destroy_db_returns_error() {
    let mut daemon = TestDaemon::start();
    let resp = daemon.send(&Request::DestroyFrecencyDb);
    assert!(matches!(resp, Response::Error(_)));

    let resp = daemon.send(&Request::DestroyQueryDb);
    match resp {
        Response::Error(e) => assert_eq!(
            e,
            "not supported in daemon mode — manage DB lifecycle via the daemon's directory management"
        ),
        other => panic!("expected Error, got {other:?}"),
    }
}

#[test]
fn test_is_scanning() {
    let mut daemon = TestDaemon::start();
    daemon.send(&index());
    daemon.send(&wait());

    let resp = daemon.send(&Request::IsScanning { path: test_dir() });
    assert!(
        matches!(resp, Response::Bool(false)),
        "expected not scanning after wait, got {resp:?}"
    );
}

#[test]
fn search_page_keeps_scores_and_location() {
    let mut daemon = TestDaemon::start();
    daemon.send(&index());
    match daemon.send(&fuzzy("foo")) {
        Response::SearchResult(r) => {
            assert_eq!(r.scores.len(), 1);
            assert_eq!(r.scores[0].total, 12);
            assert_eq!(r.scores[0].path_alignment_bonus, 9);
            assert_eq!(r.scores[0].match_type, "fuzzy");
            assert_eq!(format!("{:?}", r.location), "Some(Position { line: 3, col: 4 })");
            assert_eq!(r.total_files, 4);
        }
        other => panic!("expected SearchResult, got {other:?}"),
    }
}

#[test]
fn unknown_directories_are_refused() {
    let mut daemon = TestDaemon::start();
    match daemon.send(&fuzzy("foo")) {
        Response::Error(e) => assert_eq!(e, "directory not indexed: /tmp/fff-test"),
        other => panic!("expected Error, got {other:?}"),
    }
    let gone = FsPath::from_text("/nonexistent/path");
    match daemon.send(&Request::GetBasePath { path: gone.clone() }) {
        Response::Error(e) => assert_eq!(
            e,
            "failed to canonicalize path: No such file or directory (os error 2)"
        ),
        other => panic!("expected Error, got {other:?}"),
    }
    match daemon.send(&Request::IndexDirectory { path: gone.clone(), watch_git_events: true }) {
        Response::Error(e) => assert_eq!(
            e,
            "failed to canonicalize path: No such file or directory (os error 2)"
        ),
        other => panic!("expected Error, got {other:?}"),
    }
    assert!(matches!(daemon.send(&Request::DropDirectory { path: gone.clone() }), Response::Bool(false)));
    assert!(matches!(daemon.send(&Request::CleanupFilePicker { path: gone }), Response::Bool(false)));
    assert!(daemon.state.is_empty());
}

#[test]
fn restart_moves_the_client() {
    let mut daemon = TestDaemon::start();
    daemon.send_as(1, &index());
    let other = FsPath::from_text("/tmp/other");
    let resp = daemon
        .send_as(1, &Request::RestartIndex { path: test_dir(), new_path: other.clone() });
    assert!(matches!(resp, Response::Done));
    match daemon.send(&Request::ListDirectories) {
        Response::Directories(dirs) => {
            assert_eq!(dirs.len(), 2);
            for dir in dirs {
                if dir.path.same(&other) {
                    assert_eq!(dir.client_pids, vec![1]);
                } else {
                    assert_eq!(dir.client_count, 0);
                }
            }
        }
        other => panic!("expected Directories, got {other:?}"),
    }
    // Once the directory is there, moving to it again needs no engine.
    let resp = daemon.send_as(2, &Request::RestartIndex { path: test_dir(), new_path: other });
    assert!(matches!(resp, Response::Done));
}

#[test]
fn two_connections_of_one_process_are_two_clients() {
    let mut daemon = TestDaemon::start();
    let first = Client { connection: 1, pid: Some(PID) };
    let second = Client { connection: 2, pid: Some(PID) };
    daemon.send_over(first, &index());
    daemon.send_over(second, &index());
    daemon.close(first);
    match daemon.send_over(second, &Request::ListDirectories) {
        Response::Directories(dirs) => assert_eq!(dirs[0].client_pids, vec![PID]),
        other => panic!("expected Directories, got {other:?}"),
    }
    // The second connection still keeps the directory.
    daemon.state.evict_idle(u128::MAX);
    assert!(!daemon.state.is_empty());
    daemon.close(second);
    daemon.state.evict_idle(u128::MAX);
    assert!(daemon.state.is_empty());
}

#[test]
fn ended_connections_use_no_directory() {
    let mut daemon = TestDaemon::start();
    let client = Client { connection: 1, pid: Some(PID) };
    let other = FsPath::from_text("/tmp/other");
    daemon.send_over(client, &index());
    daemon.send_over(
        client,
        &Request::IndexDirectory { path: other.clone(), watch_git_events: true },
    );
    daemon.send_over(
        client,
        &Request::RestartIndex { path: other, new_path: FsPath::from_text("/tmp/third") },
    );
    daemon.close(client);
    for info in daemon.state.list_directories(&|_: &Engine| None) {
        assert_eq!(info.client_count, 0);
    }
    daemon.state.evict_idle(u128::MAX);
    assert!(daemon.state.is_empty());
}

#[test]
fn requests_get_answers_of_their_kind() {
    let mut daemon = TestDaemon::start();
    daemon.send(&index());
    assert!(matches!(daemon.send(&wait()), Response::Bool(true)));
    let progress = Request::GetScanProgress { path: test_dir() };
    assert!(matches!(daemon.send(&progress), Response::ScanProgress(_)));
    assert!(matches!(daemon.send(&Request::IsScanning { path: test_dir() }), Response::Bool(false)));
    assert!(matches!(daemon.send(&fuzzy("foo")), Response::SearchResult(_)));
    assert!(matches!(daemon.send(&Request::DestroyQueryDb), Response::Error(_)));
    let parse = Request::ParseGrepQuery { query: "x".to_string() };
    assert!(matches!(daemon.send(&parse), Response::ParsedGrepQuery { .. }));
}

#[test]
fn engine_outcomes_become_answers() {
    let error = |response: Response| match response {
        Response::Error(e) => e,
        other => panic!("expected Error, got {other:?}"),
    };
    let lost = || "poisoned".to_string();
    assert_eq!(
        error(respond(EngineOutcome::ScanProgress(Locked::Missing), VERSION)),
        "picker not initialized"
    );
    assert_eq!(error(respond(EngineOutcome::ScanProgress(Locked::Failed(lost())), VERSION)), "poisoned");
    assert!(matches!(
        respond(EngineOutcome::IsScanning(Locked::Missing), VERSION),
        Response::Bool(false)
    ));
    assert_eq!(error(respond(EngineOutcome::IsScanning(Locked::Failed(lost())), VERSION)), "poisoned");
    assert_eq!(
        error(respond(EngineOutcome::FuzzySearch(Joined::Broken(lost())), VERSION)),
        "task join error: poisoned"
    );
    assert_eq!(
        error(respond(EngineOutcome::FuzzySearch(Joined::Finished(Locked::Missing)), VERSION)),
        "picker not initialized"
    );
    assert_eq!(
        error(respond(
            EngineOutcome::FuzzySearch(Joined::Finished(Locked::Held(Err(lost())))),
            VERSION
        )),
        "poisoned"
    );
    assert_eq!(
        error(respond(EngineOutcome::Grep(Joined::Broken(lost())), VERSION)),
        "task join error: poisoned"
    );
    assert!(matches!(respond(EngineOutcome::Noted, VERSION), Response::Bool(true)));
    assert_eq!(error(respond(EngineOutcome::PastQuery(Joined::Broken(lost())), VERSION)), "poisoned");
    match respond(
        EngineOutcome::PastQuery(Joined::Finished(Locked::Held(Locked::Held(Ok(Some(
            "abc".to_string(),
        )))))),
        VERSION,
    ) {
        Response::OptionalString(Some(text)) => assert_eq!(text, "abc"),
        other => panic!("expected text, got {other:?}"),
    }
    assert!(matches!(
        respond(
            EngineOutcome::PastQuery(Joined::Finished(Locked::Held(Locked::Held(Err(lost()))))),
            VERSION
        ),
        Response::OptionalString(None)
    ));
    assert!(matches!(
        respond(EngineOutcome::RefreshGitStatus(Joined::Finished(Ok(5))), VERSION),
        Response::Usize(5)
    ));
    assert_eq!(
        error(respond(EngineOutcome::RefreshGitStatus(Joined::Finished(Err(lost()))), VERSION)),
        "poisoned"
    );
    assert!(matches!(
        respond(EngineOutcome::GitRoot(Locked::Failed(lost())), VERSION),
        Response::OptionalString(None)
    ));
    match respond(EngineOutcome::BasePath(Locked::Held(FsPath { bytes: vec![47, 255] })), VERSION) {
        Response::OptionalString(Some(text)) => assert_eq!(text, "/\u{fffd}"),
        other => panic!("expected text, got {other:?}"),
    }
    assert!(matches!(
        respond(EngineOutcome::Rescan(Joined::Finished(Ok(()))), VERSION),
        Response::Done
    ));
    assert!(matches!(
        respond(EngineOutcome::StopMonitor(Joined::Finished(Ok(()))), VERSION),
        Response::Bool(true)
    ));
    assert_eq!(
        error(respond(EngineOutcome::StopMonitor(Joined::Finished(Err(lost()))), VERSION)),
        "poisoned"
    );
}

#[test]
fn health_of_a_directory_without_repository() {
    let resp = fff_daemon::handler::respond_with(
        EngineOutcome::Health { repository: None, picker: Locked::Missing },
        "9.9.9",
        (1, 20, 3),
    );
    match resp {
        Response::HealthCheck(h) => {
            assert_eq!(h.version, "9.9.9");
            assert!(h.git_available);
            assert!(!h.git_repository_found);
            assert_eq!(h.git_libgit2_version, "1.20.3");
            assert!(h.git_workdir.is_none());
            assert!(!h.file_picker_initialized);
            assert!(h.file_picker_is_scanning.is_none());
        }
        other => panic!("expected HealthCheck, got {other:?}"),
    }
}

#[test]
fn requests_take_no_more_of_the_state_than_they_need() {
    assert_eq!(access_for(&Request::Ping), Access::Nothing);
    assert_eq!(access_for(&Request::DestroyQueryDb), Access::Nothing);
    assert_eq!(access_for(&index()), Access::Exclusive);
    assert_eq!(access_for(&Request::CleanupFilePicker { path: test_dir() }), Access::Exclusive);
    assert_eq!(access_for(&fuzzy("x")), Access::Shared);
    assert_eq!(access_for(&Request::ListDirectories), Access::Shared);

    assert!(matches!(
        handle_alone::<Engine>(Request::Ping),
        Ok(Action::Reply(Response::Pong))
    ));
    assert!(matches!(handle_alone::<Engine>(wait()), Err(Request::WaitForScan { .. })));

    let mut daemon = TestDaemon::start();
    daemon.send(&index());
    let action = handle_shared(
        &daemon.state,
        Request::GetHistoricalQuery { path: test_dir(), offset: 2 },
        &vec![Ok(test_dir())],
        VERSION,
        &|_: &Engine| None,
    );
    assert!(matches!(
        action,
        Action::Engine { call: EngineCall::PastQuery { offset: 2 }, .. }
    ));
}

#[test]
fn paths_are_resolved_in_the_order_of_their_use() {
    let request = Request::RestartIndex {
        path: FsPath::from_text("/old"),
        new_path: FsPath::from_text("/new"),
    };
    let paths: Vec<String> = paths_to_resolve(&request).iter().map(|p| p.display()).collect();
    assert_eq!(paths, vec!["/old", "/old", "/new"]);
    assert!(paths_to_resolve(&Request::ListDirectories).is_empty());
}
