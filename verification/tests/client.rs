use fff_daemon::client::{spawn_error, ClientError, FffClient, SpawnFailure};
use fff_daemon::lua::{client_lock_error, grep_mode_of, LuaBridge, Need};
use fff_daemon::path::FsPath;
use fff_daemon::protocol::{
    DirectoryInfoWire, FileItemWire, GrepMatchWire, GrepModeWire, GrepResultWire, HealthCheckWire,
    LocationWire, Request, Response, ScanProgressWire, ScoreWire, SearchResultWire,
};
use fff_daemon::table::{Key, Value};
use std::cell::RefCell;
use std::rc::Rc;

type Exchange = Box<dyn Fn(&Request) -> Result<Response, ClientError>>;
type Show = fn(&Response) -> String;

fn show(response: &Response) -> String {
    format!("{response:?}")
}

type Seen = Rc<RefCell<Vec<String>>>;

/// A line to a daemon that gives the answers one after the other, and then breaks, and the
/// requests it gets.
fn answering(answers: Vec<Response>) -> (Exchange, Seen) {
    let seen: Seen = Rc::new(RefCell::new(Vec::new()));
    let log = seen.clone();
    let exchange: Exchange = Box::new(move |request: &Request| {
        let mut log = log.borrow_mut();
        log.push(format!("{request:?}"));
        match answers.get(log.len() - 1) {
            Some(answer) => Ok(answer.clone()),
            None => Err(ClientError::from(std::io::Error::other("broken pipe"))),
        }
    });
    (exchange, seen)
}

/// A client of a daemon that answers `answer` to everything, and the requests it gets.
fn scripted(answer: Response) -> (FffClient<Exchange, Show>, Seen) {
    let (exchange, seen) = answering(vec![answer; 40]);
    (FffClient::connect_to(&FsPath::from_text("/base"), exchange, show as Show), seen)
}

/// A first connection for a script.
fn first(answers: Vec<Response>) -> (Option<Result<(Exchange, Show), ClientError>>, Seen) {
    let (exchange, seen) = answering(answers);
    (Some(Ok((exchange, show as Show))), seen)
}

fn init_db_text(frecency: &str, history: &str, no_lock: bool) -> String {
    format!(
        "InitDb {{ frecency_db_path: {frecency:?}, history_db_path: {history:?}, \
         use_unsafe_no_lock: {no_lock} }}"
    )
}

fn index_text(path: &str, watch: bool) -> String {
    format!("IndexDirectory {{ path: {}, watch_git_events: {watch} }}", base(path))
}

fn last(seen: &Seen) -> String {
    seen.borrow().last().unwrap().clone()
}

fn base(text: &str) -> String {
    format!("{:?}", FsPath::from_text(text))
}

fn daemon_error<T>(res: Result<T, ClientError>) -> String {
    match res {
        Err(ClientError::DaemonError(e)) => e,
        Err(other) => panic!("expected a daemon error, got {other:?}"),
        Ok(_) => panic!("expected a daemon error"),
    }
}

#[test]
fn calls_name_the_directory() {
    let (mut client, seen) = scripted(Response::Bool(false));
    assert_eq!(client.is_scanning().unwrap(), false);
    assert_eq!(last(&seen), format!("IsScanning {{ path: {} }}", base("/base")));
    assert_eq!(client.init_file_picker("/new", true).unwrap(), false);
    assert_eq!(
        last(&seen),
        format!("IndexDirectory {{ path: {}, watch_git_events: true }}", base("/new"))
    );
    assert_eq!(client.track_access("/new/a").unwrap(), false);
    assert_eq!(
        last(&seen),
        format!("TrackAccess {{ path: {}, file_path: \"/new/a\" }}", base("/new"))
    );
    assert!(client.restart_index_in_path("/third").is_ok());
    assert_eq!(
        last(&seen),
        format!("RestartIndex {{ path: {}, new_path: {} }}", base("/new"), base("/third"))
    );
    assert!(client.scan_files().is_ok());
    assert_eq!(last(&seen), format!("TriggerRescan {{ path: {} }}", base("/third")));
    assert_eq!(client.wait_for_initial_scan(70).unwrap(), false);
    assert_eq!(last(&seen), format!("WaitForScan {{ path: {}, timeout_ms: 70 }}", base("/third")));
    assert_eq!(client.init_db("f", "h", true).unwrap(), false);
    assert_eq!(
        last(&seen),
        "InitDb { frecency_db_path: \"f\", history_db_path: \"h\", use_unsafe_no_lock: true }"
    );
    assert_eq!(client.track_query_completion("q", "p").unwrap(), false);
    assert_eq!(
        last(&seen),
        format!("TrackQueryCompletion {{ path: {}, query: \"q\", file_path: \"p\" }}", base("/third"))
    );
    assert_eq!(client.get_historical_grep_query(2).unwrap(), None);
    assert_eq!(
        last(&seen),
        format!("GetHistoricalGrepQuery {{ path: {}, offset: 2 }}", base("/third"))
    );
}

#[test]
fn other_answers_have_defaults() {
    let (mut client, _) = scripted(Response::Done);
    assert_eq!(client.init_db("f", "h", false).unwrap(), true);
    assert_eq!(client.init_file_picker("/x", false).unwrap(), true);
    assert_eq!(client.track_access("f").unwrap(), true);
    assert_eq!(client.update_single_file_frecency("f").unwrap(), true);
    assert_eq!(client.stop_background_monitor().unwrap(), true);
    assert_eq!(client.cleanup_file_picker().unwrap(), true);
    assert_eq!(client.wait_for_initial_scan(1).unwrap(), true);
    assert_eq!(client.track_query_completion("q", "f").unwrap(), true);
    assert_eq!(client.track_grep_query("q").unwrap(), true);
    assert_eq!(client.is_scanning().unwrap(), false);
    assert_eq!(client.get_git_root().unwrap(), None);
    assert_eq!(client.get_base_path().unwrap(), None);
    assert_eq!(client.get_historical_query(0).unwrap(), None);
    assert_eq!(client.refresh_git_status().unwrap(), 0);
    assert_eq!(daemon_error(client.ping()), "unexpected response: Done");
    assert_eq!(daemon_error(client.get_scan_progress()), "unexpected response: Done");
    assert_eq!(daemon_error(client.parse_grep_query("q")), "unexpected response: Done");
    assert_eq!(daemon_error(client.health_check()), "unexpected response: Done");
    assert_eq!(daemon_error(client.list_directories()), "unexpected response: Done");
    assert_eq!(
        daemon_error(client.fuzzy_search_files("q", 1, None, 0, 3, 0, 10)),
        "unexpected response: Done"
    );
    assert_eq!(
        daemon_error(client.live_grep("q", 0, 1, 1, 1, true, GrepModeWire::Fuzzy, 0, false)),
        "unexpected response: Done"
    );
    assert!(client.shutdown().is_ok());
}

#[test]
fn refusals_are_errors() {
    let (mut client, _) = scripted(Response::Error("no".to_string()));
    assert_eq!(daemon_error(client.ping()), "no");
    assert_eq!(daemon_error(client.init_db("f", "h", false)), "no");
    assert_eq!(daemon_error(client.scan_files()), "no");
    assert_eq!(daemon_error(client.get_git_root()), "no");
    assert_eq!(daemon_error(client.refresh_git_status()), "no");
    assert!(client.shutdown().is_ok());
    let broken: Exchange =
        Box::new(|_: &Request| Err(ClientError::from(std::io::Error::other("broken pipe"))));
    let mut client = FffClient::connect_to(&FsPath::from_text("/"), broken, show as Show);
    assert!(matches!(client.ping(), Err(ClientError::Io(_))));
    assert!(client.shutdown().is_ok());
}

#[test]
fn answers_are_taken_apart() {
    let (mut client, _) = scripted(Response::Pong);
    assert!(client.ping().is_ok());
    let (mut client, _) = scripted(Response::Usize(9));
    assert_eq!(client.refresh_git_status().unwrap(), 9);
    let (mut client, _) = scripted(Response::OptionalString(Some("/r".to_string())));
    assert_eq!(client.get_git_root().unwrap().as_deref(), Some("/r"));
    let (mut client, seen) = scripted(Response::ParsedGrepQuery { grep_text: "abc".to_string() });
    assert_eq!(client.parse_grep_query("abc *.rs").unwrap(), "abc");
    assert_eq!(last(&seen), "ParseGrepQuery { query: \"abc *.rs\" }");
    let progress = ScanProgressWire { scanned_files_count: 3, is_scanning: true };
    let (mut client, _) = scripted(Response::ScanProgress(progress));
    assert_eq!(client.get_scan_progress().unwrap().scanned_files_count, 3);
    let (mut client, seen) = scripted(Response::SearchResult(found()));
    let page = client.fuzzy_search_files("q", 4, Some("cur"), -1, 3, 1, 20).unwrap();
    assert_eq!(page.total_matched, 11);
    assert_eq!(
        last(&seen),
        format!(
            "FuzzySearch {{ path: {}, query: \"q\", max_threads: 4, current_file: Some(\"cur\"), \
             combo_boost_score_multiplier: -1, min_combo_count: 3, page_index: 1, page_size: 20 }}",
            base("/base")
        )
    );
}

#[test]
fn errors_read_with_their_cause() {
    let io = ClientError::from(std::io::Error::other("broken pipe"));
    assert_eq!(io.message(), "io error: broken pipe");
    let decode: Result<u8, rmp_serde::decode::Error> = rmp_serde::from_slice(&[0xc0]);
    let cause = decode.unwrap_err();
    let text = format!("{cause}");
    assert_eq!(ClientError::from(cause).message(), format!("decode error: {text}"));
    let encode = rmp_serde::encode::Error::UnknownLength;
    let text = format!("{encode}");
    assert_eq!(ClientError::from(encode).message(), format!("encode error: {text}"));
    assert_eq!(ClientError::DaemonError("no".to_string()).message(), "daemon error: no");
    assert_eq!(
        spawn_error(SpawnFailure::NoProgram).message(),
        "spawn failed: fff-daemon binary not found"
    );
    assert_eq!(
        spawn_error(SpawnFailure::NoSocketDir("denied".to_string())).message(),
        "spawn failed: failed to create socket dir: denied"
    );
    assert_eq!(
        spawn_error(SpawnFailure::NotStarted {
            program: FsPath::from_text("/bin/fff-daemon"),
            reason: "denied".to_string(),
        })
        .message(),
        "spawn failed: failed to spawn /bin/fff-daemon: denied"
    );
}

fn found() -> SearchResultWire {
    SearchResultWire {
        items: vec![FileItemWire {
            relative_path: "src/a.rs".to_string(),
            name: "a.rs".to_string(),
            size: 10,
            modified: 20,
            access_frecency_score: -1,
            modification_frecency_score: 2,
            total_frecency_score: 1,
            git_status: "clean".to_string(),
            is_binary: false,
        }],
        scores: vec![ScoreWire {
            total: 50,
            base_score: 40,
            filename_bonus: 10,
            special_filename_bonus: 0,
            frecency_boost: 0,
            git_status_boost: 0,
            distance_penalty: 0,
            current_file_penalty: 0,
            combo_match_boost: 0,
            path_alignment_bonus: 0,
            exact_match: false,
            match_type: "fuzzy".to_string(),
        }],
        total_matched: 11,
        total_files: 12,
        location: Some(LocationWire::Range { start: (1, 2), end: (3, 4) }),
    }
}

/// A value as a script would write it.
fn script(value: &Value) -> String {
    match value {
        Value::Bool(b) => format!("{b}"),
        Value::Signed(n) => format!("{n}"),
        Value::Unsigned(n) => format!("{n}"),
        Value::Text(t) => format!("'{t}'"),
        Value::Table(fields) => {
            let inner: Vec<String> = fields
                .iter()
                .map(|field| match &field.key {
                    Key::Name(name) => format!("{name}={}", script(&field.value)),
                    Key::Number(number) => format!("[{number}]={}", script(&field.value)),
                })
                .collect();
            format!("{{{}}}", inner.join(","))
        }
    }
}

fn bridge(answer: Response) -> (LuaBridge<Exchange, Show>, Seen) {
    let (client, seen) = scripted(answer);
    let mut bridge: LuaBridge<Exchange, Show> = LuaBridge::new();
    bridge.client = Some(client);
    (bridge, seen)
}

#[test]
fn scripts_get_tables() {
    let (mut lua, seen) = bridge(Response::SearchResult(found()));
    let value = lua.fuzzy_search_files("q", 4, None, 7, None, None, None).unwrap();
    assert!(last(&seen).ends_with(
        "max_threads: 4, current_file: None, combo_boost_score_multiplier: 7, \
         min_combo_count: 3, page_index: 0, page_size: 0 }"
    ));
    assert_eq!(
        script(&value),
        "{items={[1]={relative_path='src/a.rs',name='a.rs',size=10,modified=20,\
         access_frecency_score=-1,modification_frecency_score=2,total_frecency_score=1,\
         git_status='clean',is_binary=false}},\
         scores={[1]={total=50,base_score=40,filename_bonus=10,special_filename_bonus=0,\
         frecency_boost=0,git_status_boost=0,distance_penalty=0,current_file_penalty=0,\
         combo_match_boost=0,path_alignment_bonus=0,exact_match=false,match_type='fuzzy'}},\
         total_matched=11,total_files=12,\
         location={start={line=1,col=2},end={line=3,col=4}}}"
    );

    let (mut lua, seen) = bridge(Response::GrepResult(GrepResultWire {
        items: vec![GrepMatchWire {
            relative_path: "a".to_string(),
            name: "a".to_string(),
            is_binary: false,
            git_status: "new".to_string(),
            size: 1,
            modified: 2,
            total_frecency_score: 3,
            access_frecency_score: 4,
            modification_frecency_score: 5,
            line_number: 6,
            col: 7,
            byte_offset: 8,
            line_content: "x".to_string(),
            match_ranges: vec![(0, 1), (4, 6)],
            fuzzy_score: Some(77),
        }],
        total_matched: 1,
        total_files_searched: 2,
        total_files: 3,
        filtered_file_count: 4,
        next_file_offset: 5,
        regex_fallback_error: Some("bad".to_string()),
    }));
    let value = lua
        .live_grep("q", None, None, None, None, None, Some("regex".to_string()), None, None)
        .unwrap();
    assert!(last(&seen).ends_with(
        "file_offset: 0, page_size: 50, max_file_size: 10485760, max_matches_per_file: 200, \
         smart_case: true, grep_mode: Regex, time_budget_ms: 0, trim_whitespace: false }"
    ));
    assert_eq!(
        script(&value),
        "{items={[1]={relative_path='a',name='a',is_binary=false,git_status='new',size=1,\
         modified=2,total_frecency_score=3,access_frecency_score=4,\
         modification_frecency_score=5,line_number=6,col=7,byte_offset=8,line_content='x',\
         match_ranges={[1]={[1]=0,[2]=1},[2]={[1]=4,[2]=6}},fuzzy_score=77}},\
         total_matched=1,total_files_searched=2,total_files=3,filtered_file_count=4,\
         next_file_offset=5,regex_fallback_error='bad'}"
    );
}

#[test]
fn scripts_get_small_tables() {
    let (mut lua, _) = bridge(Response::HealthCheck(HealthCheckWire {
        version: "1".to_string(),
        git_available: true,
        git_repository_found: false,
        git_libgit2_version: "1.9.0".to_string(),
        git_workdir: None,
        file_picker_initialized: true,
        file_picker_base_path: Some("/b".to_string()),
        file_picker_is_scanning: Some(false),
        file_picker_indexed_files: None,
    }));
    assert_eq!(
        script(&lua.health_check().unwrap()),
        "{version='1',git={available=true,repository_found=false,libgit2_version='1.9.0'},\
         file_picker={initialized=true,base_path='/b',is_scanning=false},\
         frecency={initialized=true},query_tracker={initialized=true}}"
    );
    let (mut lua, _) = bridge(Response::Directories(vec![DirectoryInfoWire {
        path: FsPath::from_text("/b"),
        is_scanning: true,
        file_count: 2,
        client_count: 2,
        client_pids: vec![5, 8],
    }]));
    assert_eq!(
        script(&lua.list_directories().unwrap()),
        "{[1]={path='/b',is_scanning=true,file_count=2,client_count=2,client_pids={[1]=5,[2]=8}}}"
    );
    let progress = ScanProgressWire { scanned_files_count: 3, is_scanning: true };
    let (mut lua, _) = bridge(Response::ScanProgress(progress));
    assert_eq!(
        script(&lua.get_scan_progress().unwrap()),
        "{scanned_files_count=3,is_scanning=true}"
    );
    let (mut lua, _) = bridge(Response::ParsedGrepQuery { grep_text: "x".to_string() });
    assert_eq!(script(&lua.parse_grep_query("x").unwrap()), "{grep_text='x'}");
    let mut line = found();
    line.location = Some(LocationWire::Line(5));
    line.items.clear();
    line.scores.clear();
    let (mut lua, _) = bridge(Response::SearchResult(line));
    assert_eq!(
        script(&lua.fuzzy_search_files("", 0, None, 0, None, None, None).unwrap()),
        "{items={},scores={},total_matched=11,total_files=12,location={line=5}}"
    );
}

#[test]
fn scripts_learn_of_errors() {
    let mut lua: LuaBridge<Exchange, Show> = LuaBridge::new();
    assert_eq!(
        lua.is_scanning(),
        Err("daemon client not initialized — call init_file_picker first".to_string())
    );
    assert!(lua.health_check().is_err());
    let (mut lua, _) = bridge(Response::Error("no".to_string()));
    assert_eq!(lua.scan_files(), Err("daemon error: daemon error: no".to_string()));
    assert_eq!(lua.get_base_path(), Err("daemon error: daemon error: no".to_string()));
    assert!(lua.list_directories().is_err());
    assert_eq!(client_lock_error("x"), "failed to lock daemon client: x");
    assert_eq!(lua.cancel_scan(), Ok(true));
    assert_eq!(lua.destroy_frecency_db(), Ok(false));
    assert_eq!(lua.destroy_query_db(), Ok(false));
}

#[test]
fn scripts_may_leave_arguments_out() {
    let (mut lua, seen) = bridge(Response::Bool(true));
    assert_eq!(lua.wait_for_initial_scan(None), Ok(true));
    assert_eq!(last(&seen), format!("WaitForScan {{ path: {}, timeout_ms: 500 }}", base("/base")));
    assert_eq!(lua.track_grep_query("q"), Ok(true));
    assert_eq!(grep_mode_of(&Some("fuzzy".to_string())), GrepModeWire::Fuzzy);
    assert_eq!(grep_mode_of(&Some("Regex".to_string())), GrepModeWire::PlainText);
    assert_eq!(grep_mode_of(&None), GrepModeWire::PlainText);
    assert_eq!(lua.restart_index_in_path("/other"), Ok(()));
    assert_eq!(lua.track_access("f"), Ok(true));
    assert!(last(&seen).contains(&base("/other")));
}

#[test]
fn databases_are_announced_on_the_first_connection() {
    let mut lua: LuaBridge<Exchange, Show> = LuaBridge::new();
    assert_eq!(lua.init_db("f".to_string(), "h".to_string(), false), Ok(true));
    assert!(lua.pending.is_some());
    assert_eq!(lua.connection_needed(), Need::First);
    let (line, seen) = first(vec![Response::Bool(true); 4]);
    assert_eq!(lua.init_file_picker("/p", None, line), Ok(true));
    assert!(lua.pending.is_none());
    assert_eq!(lua.connection_needed(), Need::Nothing);
    assert_eq!(
        *seen.borrow(),
        vec![
            init_db_text("f", "h", false),
            format!("IndexDirectory {{ path: {}, watch_git_events: true }}", base("/p")),
        ]
    );
    assert_eq!(lua.init_file_picker("/q", Some(false), None), Ok(true));
    assert_eq!(
        last(&seen),
        format!("IndexDirectory {{ path: {}, watch_git_events: false }}", base("/q"))
    );
    assert_eq!(lua.init_db("f2".to_string(), "h".to_string(), true), Ok(true));
    assert_eq!(last(&seen), init_db_text("f2", "h", true));
    assert_eq!(seen.borrow().len(), 4);
}

#[test]
fn failed_first_connections_leave_no_client() {
    let mut lua: LuaBridge<Exchange, Show> = LuaBridge::new();
    let _ = lua.init_db("f".to_string(), "h".to_string(), false);
    let missing = ClientError::SpawnFailed("fff-daemon binary not found".to_string());
    assert_eq!(
        lua.init_file_picker("/p", None, Some(Err(missing))),
        Err("failed to connect to daemon: spawn failed: fff-daemon binary not found".to_string())
    );
    // The daemon that refuses the databases is not asked for the directory.
    let no = Response::Error("no".to_string());
    let (line, seen) = first(vec![no.clone(), Response::Bool(true)]);
    assert_eq!(
        lua.init_file_picker("/p", None, line),
        Err("daemon error: daemon error: no".to_string())
    );
    assert_eq!(*seen.borrow(), vec![init_db_text("f", "h", false)]);
    assert!(lua.client.is_none());
    assert!(lua.pending.is_some());
    // What is kept in mind stays in mind until the client is kept.
    let (line, seen) = first(vec![Response::Bool(true), no]);
    assert!(lua.init_file_picker("/p", None, line).is_err());
    assert_eq!(seen.borrow().len(), 2);
    assert!(lua.client.is_none());
    assert!(lua.pending.is_some());
    let (line, seen) = first(vec![Response::Bool(true), Response::Bool(true)]);
    assert_eq!(lua.init_file_picker("/p", None, line), Ok(true));
    assert_eq!(seen.borrow()[0], init_db_text("f", "h", false));
    assert!(lua.pending.is_none());
}

#[test]
fn new_connections_are_told_of_the_databases_first() {
    let (exchange, seen) = answering(vec![Response::Bool(true), Response::Pong]);
    let mut client = FffClient::connect_to(&FsPath::from_text("/b"), exchange, show as Show);
    assert!(client.init_db("f", "h", true).unwrap());
    assert!(client.ping().is_ok());
    assert!(!client.lost);
    assert!(matches!(client.ping(), Err(ClientError::Io(_))));
    assert!(client.lost);
    assert_eq!(seen.borrow().len(), 3);

    for _ in 0..2 {
        let (exchange, seen) = answering(vec![Response::Bool(true), Response::Pong]);
        assert!(client.reconnect(exchange).is_ok());
        assert!(!client.lost);
        assert!(client.ping().is_ok());
        assert_eq!(*seen.borrow(), vec![init_db_text("f", "h", true), "Ping".to_string()]);
    }

    let (exchange, _) = answering(vec![Response::Error("no".to_string())]);
    assert_eq!(daemon_error(client.reconnect(exchange)), "no");
    assert!(client.lost);

    // Places that the daemon has not accepted are not remembered.
    let (exchange, _) = answering(vec![Response::Error("no".to_string())]);
    let mut client = FffClient::connect_to(&FsPath::from_text("/b"), exchange, show as Show);
    assert!(client.init_db("f", "h", true).is_err());
    let (exchange, seen) = answering(Vec::new());
    assert!(client.reconnect(exchange).is_ok());
    assert!(seen.borrow().is_empty());
}

#[test]
fn scripts_go_on_over_another_connection() {
    let mut lua: LuaBridge<Exchange, Show> = LuaBridge::new();
    let (exchange, _) = answering(Vec::new());
    assert!(lua.reconnect(Ok(exchange)).is_err());
    let _ = lua.init_db("f".to_string(), "h".to_string(), false);
    let (line, _) = first(vec![Response::Bool(true), Response::Bool(true)]);
    assert_eq!(lua.init_file_picker("/p", None, line), Ok(true));
    assert_eq!(lua.is_scanning(), Err("daemon error: io error: broken pipe".to_string()));
    assert_eq!(lua.connection_needed(), Need::Another);
    let missing = ClientError::SpawnFailed("no program".to_string());
    assert_eq!(
        lua.reconnect(Err(missing)),
        Err("failed to connect to daemon: spawn failed: no program".to_string())
    );
    assert_eq!(lua.connection_needed(), Need::Another);
    let (exchange, seen) = answering(vec![Response::Bool(true); 3]);
    assert_eq!(lua.reconnect(Ok(exchange)), Ok(()));
    assert_eq!(lua.connection_needed(), Need::Nothing);
    assert_eq!(lua.is_scanning(), Ok(true));
    assert_eq!(
        *seen.borrow(),
        vec![
            init_db_text("f", "h", false),
            index_text("/p", true),
            format!("IsScanning {{ path: {} }}", base("/p")),
        ]
    );
}

#[test]
fn new_connections_are_asked_for_the_directory() {
    let yes = Response::Bool(true);
    let (exchange, _) = answering(vec![yes.clone()]);
    let mut client = FffClient::connect_to(&FsPath::from_text("/b"), exchange, show as Show);
    assert_eq!(client.uses, None);
    assert!(client.init_file_picker("/p", false).unwrap());
    assert_eq!(client.uses, Some(false));
    assert!(client.scan_files().is_err());
    assert!(client.lost);

    let (exchange, seen) = answering(vec![yes.clone(), Response::Done]);
    assert!(client.reconnect(exchange).is_ok());
    assert_eq!(*seen.borrow(), vec![index_text("/p", false)]);

    // The directory that the client has moved to is the one that counts.
    assert!(client.restart_index_in_path("/q").is_ok());
    let (exchange, seen) = answering(Vec::new());
    assert!(matches!(client.reconnect(exchange), Err(ClientError::Io(_))));
    assert_eq!(*seen.borrow(), vec![index_text("/q", true)]);
    assert!(client.lost);
    assert_eq!(client.uses, Some(true));

    // A refusal is no fault of the connection, and ends the use of the directory.
    let (exchange, seen) = answering(vec![Response::Error("gone".to_string()), yes.clone()]);
    assert_eq!(daemon_error(client.reconnect(exchange)), "gone");
    assert!(!client.lost);
    assert_eq!(client.uses, None);
    assert!(client.init_file_picker("/r", true).unwrap());
    assert_eq!(seen.borrow().len(), 2);

    // A client that is done with its directory does not ask for it.
    let (exchange, _) = answering(vec![yes.clone(), yes]);
    assert!(client.reconnect(exchange).is_ok());
    assert!(client.cleanup_file_picker().unwrap());
    assert_eq!(client.uses, None);
    let (exchange, seen) = answering(Vec::new());
    assert!(client.reconnect(exchange).is_ok());
    assert!(seen.borrow().is_empty());
}

#[test]
fn refused_databases_come_before_the_directory() {
    let yes = Response::Bool(true);
    let (exchange, _) = answering(vec![yes.clone(), yes.clone()]);
    let mut client = FffClient::connect_to(&FsPath::from_text("/b"), exchange, show as Show);
    assert!(client.init_db("f", "h", false).unwrap());
    assert!(client.init_file_picker("/p", true).unwrap());
    let (exchange, seen) = answering(vec![Response::Error("no".to_string()), yes]);
    assert_eq!(daemon_error(client.reconnect(exchange)), "no");
    assert_eq!(*seen.borrow(), vec![init_db_text("f", "h", false)]);
    assert!(client.lost);
    assert_eq!(client.uses, Some(true));
}
