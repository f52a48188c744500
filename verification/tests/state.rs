use fff_daemon::handler::{finish_open, Purpose};
use fff_daemon::lifecycle::{after_check, seconds, startup, IdleMonitor, Startup};
use fff_daemon::path::FsPath;
use fff_daemon::protocol::{Response, ScanProgressWire};
use fff_daemon::state::{Client, DaemonState, Ensured, OpenPlan};

fn at(path: &str) -> Result<FsPath, String> {
    Ok(FsPath::from_text(path))
}

/// The only connection of a process.
fn of(pid: u32) -> Client {
    Client { connection: pid as u64, pid: Some(pid) }
}

fn plan_for(state: &mut DaemonState<u8>, path: &str, client: Client, now: u128) -> OpenPlan {
    match state.ensure_directory(&at(path), true, client, now) {
        Ensured::Missing(plan) => plan,
        other => panic!("expected a plan, got {other:?}"),
    }
}

/// Opens the directory, for the process where one is named, and otherwise for a client that
/// leaves at once.
fn open(state: &mut DaemonState<u8>, path: &str, pid: Option<u32>, handles: u8, now: u128) {
    let client = match pid {
        Some(pid) => of(pid),
        None => Client { connection: u64::MAX, pid: None },
    };
    let plan = plan_for(state, path, client, now);
    assert!(state.directory_opened(plan, Ok(handles), now).is_ok());
    if pid.is_none() {
        assert!(state.release_client(&at(path), client));
    }
}

fn listing(state: &DaemonState<u8>) -> Vec<(String, Vec<u32>)> {
    let mut all: Vec<(String, Vec<u32>)> = state
        .list_directories(&|_: &u8| None)
        .into_iter()
        .map(|info| (info.path.display(), info.client_pids))
        .collect();
    all.sort();
    all
}

fn names(state: &DaemonState<u8>) -> Vec<String> {
    listing(state).into_iter().map(|(path, _)| path).collect()
}

#[test]
fn least_recently_used_directory_makes_room() {
    let mut state: DaemonState<u8> = DaemonState::new(2, 100);
    open(&mut state, "/a", None, 1, 1);
    open(&mut state, "/b", None, 2, 2);
    assert!(state.get_directory(&at("/a"), 3).is_some());
    open(&mut state, "/c", None, 3, 4);
    assert_eq!(names(&state), vec!["/a", "/c"]);
}

#[test]
fn used_directories_are_not_evicted() {
    let mut state: DaemonState<u8> = DaemonState::new(2, 100);
    open(&mut state, "/a", Some(7), 1, 1);
    open(&mut state, "/b", Some(8), 2, 2);
    open(&mut state, "/c", None, 3, 3);
    assert_eq!(names(&state), vec!["/a", "/b", "/c"]);
    // Only the unused one goes.
    open(&mut state, "/d", None, 4, 4);
    assert_eq!(names(&state), vec!["/a", "/b", "/d"]);
    // Once nobody uses them, the limit holds again.
    assert!(state.release_client(&at("/a"), of(7)));
    assert!(state.release_client(&at("/b"), of(8)));
    open(&mut state, "/e", None, 5, 5);
    assert_eq!(names(&state), vec!["/d", "/e"]);
}

#[test]
fn search_for_room_keeps_the_order() {
    let mut state: DaemonState<u8> = DaemonState::new(3, 100);
    open(&mut state, "/a", Some(7), 1, 1);
    open(&mut state, "/b", None, 2, 2);
    open(&mut state, "/c", None, 3, 3);
    open(&mut state, "/d", None, 4, 4);
    assert_eq!(names(&state), vec!["/a", "/c", "/d"]);
    // The one that was in use is still the one that was used longest ago.
    assert!(state.release_client(&at("/a"), of(7)));
    open(&mut state, "/e", None, 5, 5);
    assert_eq!(names(&state), vec!["/c", "/d", "/e"]);
    // A use of a directory puts it behind all others.
    assert_eq!(state.get_directory(&at("/c"), 6).unwrap().last_accessed, 6);
    open(&mut state, "/f", None, 6, 7);
    assert_eq!(names(&state), vec!["/c", "/e", "/f"]);
}

#[test]
fn room_is_made_by_the_time_of_the_last_use() {
    let mut state: DaemonState<u8> = DaemonState::new(3, 100);
    open(&mut state, "/a", None, 1, 5);
    open(&mut state, "/b", Some(7), 2, 6);
    // A clock that runs backwards does not make a directory look older.
    open(&mut state, "/c", None, 3, 2);
    assert_eq!(state.get_directory(&at("/c"), 1).unwrap().last_accessed, 6);
    assert_eq!(state.get_directory(&at("/a"), 9).unwrap().last_accessed, 9);
    state.evict_if_needed();
    assert_eq!(names(&state), vec!["/a", "/b"]);
    state.evict_if_needed();
    assert_eq!(names(&state), vec!["/a", "/b"]);
}

#[test]
fn every_connection_is_a_client() {
    let first = Client { connection: 1, pid: Some(9) };
    let second = Client { connection: 2, pid: Some(9) };
    let nameless = Client { connection: 3, pid: None };
    let mut state: DaemonState<u8> = DaemonState::new(1, 100);
    let plan = plan_for(&mut state, "/a", first, 1);
    assert!(state.directory_opened(plan, Ok(1), 1).is_ok());
    assert!(matches!(state.ensure_directory(&at("/a"), true, second, 2), Ensured::Present));
    assert!(state.release_client(&at("/a"), first));
    assert_eq!(listing(&state), vec![("/a".to_string(), vec![9])]);
    state.evict_idle(1000);
    open(&mut state, "/b", None, 2, 1000);
    assert_eq!(names(&state), vec!["/a", "/b"]);
    // A client without a known process keeps the directory too.
    assert!(matches!(state.ensure_directory(&at("/a"), true, nameless, 1001), Ensured::Present));
    assert!(state.release_client(&at("/a"), second));
    state.evict_idle(2000);
    assert_eq!(listing(&state), vec![("/a".to_string(), vec![])]);
    assert!(state.release_client(&at("/a"), nameless));
    state.evict_idle(2000);
    assert!(state.is_empty());
}

#[test]
fn no_room_for_a_limit_of_zero() {
    let mut state: DaemonState<u8> = DaemonState::new(0, 100);
    open(&mut state, "/a", None, 1, 1);
    open(&mut state, "/b", Some(1), 2, 2);
    assert_eq!(names(&state), vec!["/b"]);
    open(&mut state, "/c", None, 3, 3);
    assert_eq!(names(&state), vec!["/b", "/c"]);
}

#[test]
fn failed_opening_keeps_the_room_that_was_made() {
    let mut state: DaemonState<u8> = DaemonState::new(1, 100);
    open(&mut state, "/a", None, 1, 1);
    let plan = plan_for(&mut state, "/b", of(1), 2);
    let failed = state.directory_opened(plan, Err("disk full".to_string()), 2);
    assert_eq!(failed, Err("failed to init file picker: disk full".to_string()));
    assert!(state.is_empty());
    let plan = plan_for(&mut state, "/b", of(1), 3);
    assert!(!state.is_indexed(&plan.path));
    match finish_open(&mut state, plan, Purpose::Restart, Err("no".to_string()), 3) {
        Response::Error(e) => assert_eq!(e, "failed to init file picker: no"),
        other => panic!("expected Error, got {other:?}"),
    }
}

#[test]
fn second_client_shares_the_directory() {
    let mut state: DaemonState<u8> = DaemonState::new(5, 100);
    open(&mut state, "/a", Some(30), 9, 1);
    assert!(matches!(state.ensure_directory(&at("/a"), true, of(20), 2), Ensured::Present));
    assert!(matches!(state.ensure_directory(&at("/a"), true, of(30), 2), Ensured::Present));
    assert_eq!(listing(&state), vec![("/a".to_string(), vec![20, 30])]);
    assert_eq!(state.get_handles(&FsPath::from_text("/a/"), &at("/a")), Ok(9));
    assert!(state.release_client(&at("/a"), of(30)));
    assert!(state.release_client(&at("/a"), of(40)));
    assert_eq!(listing(&state), vec![("/a".to_string(), vec![20])]);
    assert!(!state.release_client(&at("/b"), of(20)));
    assert!(!state.release_client(&Err("gone".to_string()), of(20)));
}

#[test]
fn idle_directories_are_dropped_after_the_timeout() {
    let mut state: DaemonState<u8> = DaemonState::new(5, 100);
    open(&mut state, "/a", None, 1, 10);
    open(&mut state, "/b", Some(1), 2, 10);
    open(&mut state, "/c", None, 3, 60);
    state.evict_idle(110);
    assert_eq!(names(&state), vec!["/a", "/b", "/c"]);
    state.evict_idle(111);
    assert_eq!(names(&state), vec!["/b", "/c"]);
    state.evict_idle(111);
    assert_eq!(names(&state), vec!["/b", "/c"]);
    state.evict_idle(5);
    assert_eq!(names(&state), vec!["/b", "/c"]);
}

#[test]
fn dropped_directory_is_gone() {
    let mut state: DaemonState<u8> = DaemonState::new(5, 100);
    open(&mut state, "/a", Some(1), 1, 10);
    assert!(state.drop_directory(&at("/a")));
    assert!(!state.drop_directory(&at("/a")));
    assert!(!state.drop_directory(&Err("gone".to_string())));
    assert!(state.is_empty());
    assert_eq!(
        state.get_handles(&FsPath::from_text("x/../a"), &at("/a")),
        Err("directory not indexed: x/../a".to_string())
    );
    assert_eq!(
        state.get_handles(&FsPath::from_text("/a"), &Err("gone".to_string())),
        Err("failed to canonicalize path: gone".to_string())
    );
}

#[test]
fn plan_names_the_databases() {
    let mut state: DaemonState<u8> = DaemonState::new(5, 100);
    let plan = plan_for(&mut state, "/tmp/a", of(3), 1);
    assert!(plan.frecency_db.is_none());
    assert!(plan.history_db.is_none());
    assert!(!plan.db_unsafe_no_lock);
    state.init_db("/db/frecency".to_string(), "/db/history/".to_string(), true);
    let plan = plan_for(&mut state, "/tmp/a", of(3), 1);
    assert_eq!(plan.frecency_db.unwrap().display(), "/db/frecency/6cc13bddf2746ce7");
    assert_eq!(plan.history_db.unwrap().display(), "/db/history/6cc13bddf2746ce7");
    assert!(plan.db_unsafe_no_lock);
    assert_eq!(plan.base_path, "/tmp/a");
    assert!(plan.watch && plan.watch_git_events);
    assert!(plan.enable_mmap_cache && plan.enable_content_indexing);
    assert_eq!(plan.client, of(3));
}

#[test]
fn listing_shows_what_the_engine_says() {
    let mut state: DaemonState<u8> = DaemonState::new(5, 100);
    open(&mut state, "/a", Some(2), 1, 10);
    let infos = state.list_directories(&|handles: &u8| {
        Some(ScanProgressWire { scanned_files_count: *handles as usize + 1, is_scanning: true })
    });
    assert_eq!(infos.len(), 1);
    assert!(infos[0].is_scanning);
    assert_eq!(infos[0].file_count, 2);
    assert_eq!(infos[0].client_count, 1);
    let infos = state.list_directories(&|_: &u8| None);
    assert!(!infos[0].is_scanning);
    assert_eq!(infos[0].file_count, 0);
}

#[test]
fn looking_at_a_directory_is_a_use_of_it() {
    let mut state: DaemonState<u8> = DaemonState::new(5, 100);
    open(&mut state, "/a", Some(2), 1, 10);
    let entry = state.get_directory(&at("/a"), 11).unwrap();
    assert_eq!((entry.handles, entry.last_accessed), (1, 11));
    assert_eq!(entry.clients.get(&2), Some(&Some(2)));
    assert!(state.get_directory(&at("/b"), 11).is_none());
    assert!(state.get_directory(&Err("gone".to_string()), 11).is_none());
}

#[test]
fn daemon_stops_after_a_while_without_directories() {
    let mut state: DaemonState<u8> = DaemonState::new(5, seconds(10));
    let mut monitor = IdleMonitor { last_activity: 0, auto_shutdown_secs: 60 };
    open(&mut state, "/a", Some(1), 1, 0);
    assert_eq!(monitor.tick(&mut state, false, seconds(100)), None);
    assert!(state.release_client(&at("/a"), of(1)));
    assert_eq!(monitor.tick(&mut state, false, seconds(160)), None);
    assert!(state.is_empty());
    assert_eq!(monitor.tick(&mut state, false, seconds(161)), Some(61));
    // A connected client keeps the daemon though it uses no directory.
    assert_eq!(monitor.tick(&mut state, true, seconds(170)), None);
    assert_eq!(monitor.tick(&mut state, false, seconds(230)), None);
    assert_eq!(monitor.tick(&mut state, false, seconds(231)), Some(61));
    let mut forever = IdleMonitor { last_activity: 0, auto_shutdown_secs: 0 };
    assert_eq!(forever.tick(&mut state, false, seconds(1_000_000)), None);
}

#[test]
fn stale_sockets_are_replaced() {
    assert_eq!(startup(false, Some("12")), Startup::Bind);
    assert_eq!(startup(true, None), Startup::RemoveSocket);
    assert_eq!(startup(true, Some("rubbish")), Startup::RemoveSocket);
    assert_eq!(startup(true, Some(" 12\n")), Startup::CheckProcess(12));
    assert_eq!(after_check(12, false), Ok(Startup::RemoveSocket));
    assert_eq!(after_check(12, true), Err("fff-daemon already running (pid 12)".to_string()));
    assert_eq!(after_check(-3, true), Err("fff-daemon already running (pid -3)".to_string()));
}
