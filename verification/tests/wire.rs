use fff_daemon::bench::{
    can_match, contiguous_matches, parity_line, plan, queries, repo_name, tops, Hit, Tops,
};
use fff_daemon::connection::{
    after_header, after_payload, canonicalize_or_original, paths_to_track, AfterAnswer,
    AfterHeader, Connection, HeaderRead,
};
use fff_daemon::frame::{
    frame_header, read_frame, too_large_message, write_frame, FrameError, MAX_FRAME_SIZE,
};
use fff_daemon::hash::stable_path_hash;
use fff_daemon::path::{split, FsPath};
use fff_daemon::pid::{pid_file_text, recorded_pid};
use fff_daemon::protocol::{GrepModeWire, Request, Response};
use fff_daemon::socket::{pid_file_path, socket_path, Surroundings};
use fff_daemon::spawn::{
    connect_with_retry, daemon_candidates, find_daemon_binary, spawn_arguments, starts_daemon,
    timeout_message, wait_for_daemon, ConnectFailure, DaemonHints, Retry,
};
use fff_daemon::state::{Client, DaemonState, Ensured};
use std::cell::RefCell;

fn path(text: &str) -> FsPath {
    FsPath::from_text(text)
}

fn shown(paths: &[FsPath]) -> Vec<String> {
    paths.iter().map(|p| p.display()).collect()
}

#[test]
fn oversized_frames_are_refused() {
    let mut wire: Vec<u8> = frame_header(MAX_FRAME_SIZE + 1).to_vec();
    wire.extend_from_slice(b"rest");
    assert!(matches!(read_frame(&wire), Err(FrameError::TooLarge { len: 67108865 })));
    assert_eq!(too_large_message(67108865), "frame too large: 67108865 bytes");
    assert_eq!(frame_header(0x01020304), [1, 2, 3, 4]);
}

#[test]
fn two_frames_follow_each_other() {
    let mut wire: Vec<u8> = Vec::new();
    write_frame(&mut wire, b"");
    write_frame(&mut wire, b"xy");
    let first = read_frame(&wire).unwrap();
    assert_eq!(first.payload, b"");
    let second = read_frame(&wire[first.consumed..]).unwrap();
    assert_eq!(second.payload, b"xy");
    assert!(matches!(read_frame(&wire[..2]), Err(FrameError::UnexpectedEof { missing: 2 })));
}

#[test]
fn hashes_stay_the_same() {
    assert_eq!(stable_path_hash(&path("")), "cbf29ce484222325");
    assert_eq!(stable_path_hash(&path("a")), "af63dc4c8601ec8c");
    assert_eq!(stable_path_hash(&path("/home/user/project")), "f8a71a04e8340307");
}

#[test]
fn socket_lies_in_the_runtime_directory() {
    let mut at = Surroundings {
        linux: true,
        runtime_dir: Some("/run/user/1000".to_string()),
        uid: 1000,
        temp_dir: path("/tmp"),
    };
    assert_eq!(socket_path(&at).display(), "/run/user/1000/fff/fff.sock");
    assert_eq!(pid_file_path(&at).display(), "/run/user/1000/fff/fff.pid");
    at.linux = false;
    assert_eq!(socket_path(&at).display(), "/tmp/fff-1000/fff.sock");
    at.linux = true;
    at.runtime_dir = None;
    assert_eq!(pid_file_path(&at).display(), "/tmp/fff-1000/fff.pid");
}

#[test]
fn paths_are_joined_like_components() {
    assert_eq!(path("/a").join(&path("b")).display(), "/a/b");
    assert_eq!(path("/a/").join(&path("b")).display(), "/a/b");
    assert_eq!(path("/a").join(&path("/b")).display(), "/b");
    assert_eq!(path("").join(&path("b")).display(), "b");
}

#[test]
fn paths_are_alike_by_their_components() {
    assert!(path("/a/b").alike(&path("/a//b/")));
    assert!(path("/a/b").alike(&path("/a/./b/.")));
    assert!(!path("/a/b").alike(&path("a/b")));
    assert!(!path("./a").alike(&path("a")));
    assert!(path("./a").alike(&path(".//a/")));
    assert!(!path("/a/b").alike(&path("/a")));
    assert!(!path("/a/..").alike(&path("/a")));
    assert!(!path("/a/b").same(&path("/a//b")));
    assert_eq!(
        split(b"a::b", b':'),
        vec![b"a".to_vec(), Vec::new(), b"b".to_vec()]
    );
}

#[test]
fn pid_files_are_read() {
    assert_eq!(recorded_pid("123"), Some(123));
    assert_eq!(recorded_pid("\u{2003} 123 \r\n"), Some(123));
    assert_eq!(recorded_pid("+7"), Some(7));
    assert_eq!(recorded_pid("-7"), Some(-7));
    assert_eq!(recorded_pid("007"), Some(7));
    assert_eq!(recorded_pid("-2147483648"), Some(-2147483648));
    assert_eq!(recorded_pid("2147483647"), Some(2147483647));
    assert_eq!(recorded_pid("2147483648"), None);
    assert_eq!(recorded_pid("99999999999999999999"), None);
    assert_eq!(recorded_pid(""), None);
    assert_eq!(recorded_pid("+"), None);
    assert_eq!(recorded_pid("+-1"), None);
    assert_eq!(recorded_pid("1 2"), None);
    assert_eq!(recorded_pid("12a"), None);
    assert_eq!(recorded_pid(&pid_file_text(40500)), Some(40500));
    for text in ["123", " -5\n", "x", "2147483648", "\t+0 ", "1_0"] {
        assert_eq!(recorded_pid(text), text.trim().parse::<i32>().ok());
    }
}

#[test]
fn daemon_is_looked_for_in_order() {
    let hints = DaemonHints {
        explicit: Some("/opt/fff".to_string()),
        exe_dir: Some(path("/usr/lib")),
        path_var: Some("/bin::/usr/bin/".to_string()),
        cargo_target_dir: None,
    };
    let places = daemon_candidates(&hints);
    assert_eq!(
        shown(&places),
        vec![
            "/opt/fff",
            "/usr/lib/fff-daemon",
            "/bin/fff-daemon",
            "fff-daemon",
            "/usr/bin/fff-daemon",
            "target/release/fff-daemon",
            "target/debug/fff-daemon",
        ]
    );
    let mut exists = vec![false, false, false, false, true, false, true];
    assert_eq!(find_daemon_binary(&places, &exists).unwrap().display(), "/usr/bin/fff-daemon");
    exists[0] = true;
    assert_eq!(find_daemon_binary(&places, &exists).unwrap().display(), "/opt/fff");
    assert!(find_daemon_binary(&places, &vec![false; 7]).is_none());
    let bare = DaemonHints {
        explicit: None,
        exe_dir: None,
        path_var: None,
        cargo_target_dir: Some("/build".to_string()),
    };
    assert_eq!(
        shown(&daemon_candidates(&bare)),
        vec!["/build/release/fff-daemon", "/build/debug/fff-daemon"]
    );
}

#[test]
fn client_waits_for_the_daemon() {
    assert!(starts_daemon(ConnectFailure::NotFound));
    assert!(starts_daemon(ConnectFailure::ConnectionRefused));
    assert!(!starts_daemon(ConnectFailure::Other));
    assert_eq!(wait_for_daemon(0), Retry::TryAgain { after_ms: 100 });
    assert_eq!(wait_for_daemon(4), Retry::TryAgain { after_ms: 100 });
    assert_eq!(wait_for_daemon(5), Retry::ReportLast);
    assert_eq!(connect_with_retry(2, 3, 7), Retry::TryAgain { after_ms: 7 });
    assert_eq!(connect_with_retry(3, 3, 7), Retry::ReportLast);
    assert_eq!(connect_with_retry(0, 0, 7), Retry::ReportTimeout);
    assert_eq!(timeout_message(), "daemon did not start in time");
    assert_eq!(
        shown(&spawn_arguments(&path("/run/s.sock"))),
        vec!["--foreground", "--socket", "/run/s.sock"]
    );
}

#[test]
fn headers_decide_what_is_read() {
    assert!(matches!(
        after_header(HeaderRead::Full(frame_header(300))),
        AfterHeader::ReadPayload(300)
    ));
    assert!(matches!(
        after_header(HeaderRead::Full(frame_header(MAX_FRAME_SIZE))),
        AfterHeader::ReadPayload(67108864)
    ));
    match after_header(HeaderRead::Full([255, 0, 0, 0])) {
        AfterHeader::Answer(Response::Error(e)) => assert_eq!(e, "frame too large"),
        other => panic!("expected an answer, got {other:?}"),
    }
    assert!(matches!(after_header(HeaderRead::Closed), AfterHeader::Finish));
    assert!(matches!(after_header(HeaderRead::Broken), AfterHeader::Finish));
    match after_payload(Err("bad byte".to_string())) {
        Err(Response::Error(e)) => assert_eq!(e, "decode error: bad byte"),
        other => panic!("expected an answer, got {other:?}"),
    }
    assert!(matches!(after_payload(Ok(Request::Ping)), Ok(Request::Ping)));
}

/// The paths that the end of the connection releases.
fn released(connection: &Connection) -> Vec<String> {
    let seen: RefCell<Vec<String>> = RefCell::new(Vec::new());
    let mut state: DaemonState<u8> = DaemonState::new(5, 100);
    connection.finish(&mut state, &|path: &FsPath| {
        seen.borrow_mut().push(path.display());
        Ok(path.clone())
    });
    seen.into_inner()
}

#[test]
fn connection_releases_what_its_client_used() {
    let client = Client { connection: 3, pid: Some(5) };
    let mut state: DaemonState<u8> = DaemonState::new(5, 100);
    for name in ["/a", "/b"] {
        match state.ensure_directory(&Ok(path(name)), true, client, 1) {
            Ensured::Missing(plan) => assert!(state.directory_opened(plan, Ok(1), 1).is_ok()),
            other => panic!("expected a plan, got {other:?}"),
        }
    }
    let mut connection = Connection::new(client);
    let index = |name: &str| Request::IndexDirectory { path: path(name), watch_git_events: true };
    let yes = Response::Bool(true);
    assert_eq!(shown(&paths_to_track(&index("/x/../a"), &yes)), vec!["/x/../a"]);
    assert_eq!(
        connection.answered(&index("/x/../a"), &yes, &vec![Ok(path("/a"))]),
        AfterAnswer::ReadOn
    );
    connection.answered(&index("/b"), &yes, &vec![Ok(path("/b"))]);
    connection.answered(&index("/a/"), &yes, &vec![Err("gone".to_string())]);
    assert_eq!(released(&connection), vec!["/a", "/b"]);

    let refused = Response::Error("no".to_string());
    assert!(paths_to_track(&index("/c"), &refused).is_empty());
    connection.answered(&index("/c"), &refused, &Vec::new());

    let restart = Request::RestartIndex { path: path("/b"), new_path: path("/c") };
    assert_eq!(shown(&paths_to_track(&restart, &Response::Done)), vec!["/b", "/c"]);
    connection.answered(&restart, &Response::Done, &vec![Ok(path("/b")), Ok(path("/c"))]);
    assert_eq!(released(&connection), vec!["/a", "/c"]);

    let cleanup = Request::CleanupFilePicker { path: path("/c") };
    connection.answered(&cleanup, &yes, &vec![Ok(path("/c"))]);
    assert_eq!(released(&connection), vec!["/a"]);
    assert!(!connection.uses_nothing());
    assert!(Connection::new(Client { connection: 4, pid: None }).uses_nothing());

    assert_eq!(
        connection.answered(&Request::Shutdown, &Response::Done, &Vec::new()),
        AfterAnswer::Shutdown
    );
    // The directory is released though its path leads nowhere by now.
    connection.finish(&mut state, &|_: &FsPath| Err("gone".to_string()));
    for info in state.list_directories(&|_: &u8| None) {
        assert_eq!(info.client_count, if info.path.same(&path("/a")) { 0 } else { 1 });
    }
}

#[test]
fn connection_remembers_paths_in_canonical_form() {
    let client = Client { connection: 3, pid: Some(5) };
    let mut connection = Connection::new(client);
    let yes = Response::Bool(true);
    let index = Request::IndexDirectory { path: path("/x/a/"), watch_git_events: true };
    connection.answered(&index, &yes, &vec![Ok(path("/x/a"))]);
    assert_eq!(released(&connection), vec!["/x/a"]);
    // A path that is alike is not remembered beside it.
    connection.answered(&index, &yes, &vec![Err("gone".to_string())]);
    assert_eq!(released(&connection), vec!["/x/a"]);
    let drop = Request::DropDirectory { path: path("/x/a/.") };
    connection.answered(&drop, &yes, &vec![Err("gone".to_string())]);
    assert!(connection.uses_nothing());
}

#[test]
fn paths_without_canonical_form_stay_as_they_are() {
    let original = path("/a/./b");
    assert_eq!(canonicalize_or_original(&original, &Ok(path("/c"))).display(), "/c");
    assert_eq!(canonicalize_or_original(&original, &Err("gone".to_string())).display(), "/a/./b");
}

#[test]
fn default_grep_mode_is_plain_text() {
    assert_eq!(GrepModeWire::default(), GrepModeWire::PlainText);
}

#[test]
fn comparison_is_planned_from_the_arguments() {
    let args = |list: &[&str]| list.iter().map(|s| s.to_string()).collect::<Vec<String>>();
    assert!(plan(&args(&["bench"])).is_none());
    let short = plan(&args(&["bench", "/repo"])).unwrap();
    assert_eq!((short.repo_path.as_str(), short.query.as_str()), ("/repo", "controller"));
    let long = plan(&args(&["bench", "/repo", "multi"])).unwrap();
    let all = queries(&long.query);
    assert_eq!(all.len(), 8);
    assert_eq!(all[2], "Button");
    assert_eq!(queries(&"x".to_string()), vec!["x"]);
    assert_eq!(repo_name("/home/me/linux"), "linux");
    assert_eq!(repo_name("linux"), "linux");
    assert_eq!(repo_name("/home/me/"), "");
}

#[test]
fn contiguous_matches_come_best_first() {
    let paths: Vec<String> = ["src/util.rs", "README.md", "tests/util_test.rs", "util"]
        .iter()
        .map(|s| s.to_string())
        .collect();
    let hits = contiguous_matches("util", &paths, 2);
    assert!(!hits.is_empty());
    assert_eq!(hits[0].index, 3);
    for pair in hits.windows(2) {
        assert!(
            pair[0].score > pair[1].score
                || (pair[0].score == pair[1].score && pair[0].index < pair[1].index)
        );
    }
    let all: Vec<Hit> = (0..4).map(|index| Hit { index, score: 0 }).collect();
    assert_eq!(contiguous_matches("", &paths, 2), all);
    assert!(contiguous_matches("util", &paths, 0).is_empty());
    // Two characters may be missing, and no more; how many threads there are does not show.
    assert_eq!(contiguous_matches("utilxy", &paths, 1), contiguous_matches("utilxy", &paths, 3));
    assert!(contiguous_matches("utilxy", &paths, 1).iter().any(|hit| hit.index == 3));
    assert!(contiguous_matches("utilxyz", &paths, 1).iter().all(|hit| hit.index != 3));
}

#[test]
fn paths_out_of_range_are_not_matched() {
    let list = |path: String| vec!["src/a.rs".to_string(), path];
    assert!(can_match("ab", &list("b".to_string())));
    assert!(can_match("", &list(String::new())));
    assert!(can_match("abc", &list(String::new())));
    assert!(!can_match("ab", &list(String::new())));
    assert!(can_match(&"q".repeat(3275), &list("p".repeat(512))));
    assert!(!can_match(&"q".repeat(3276), &list("p".to_string())));
    assert!(!can_match(&"q".repeat(600), &list("p".repeat(599))));
    assert!(!can_match(&"q".repeat(600), &list("p".repeat(598))));
    assert!(can_match(&"q".repeat(600), &list("p".repeat(597))));
    assert!(can_match(&"q".repeat(600), &list("p".repeat(600))));
    assert!(can_match("q", &list("p".repeat(65000))));
    assert!(!can_match("q", &list("p".repeat(65001))));
    assert!(contiguous_matches(&"q".repeat(600), &list("p".repeat(597)), 1).is_empty());
    assert_eq!(contiguous_matches(&"q".repeat(600), &list("q".repeat(600)), 1).len(), 1);
}

#[test]
fn parity_is_reported() {
    let a = Hit { index: 4, score: 90 };
    let b = Hit { index: 5, score: 90 };
    assert_eq!(tops(&vec![a, b], &vec![b]), Some(Tops { contiguous: a, chunked: b }));
    assert_eq!(tops(&vec![], &vec![b]), None);
    assert_eq!(
        parity_line(Tops { contiguous: a, chunked: a }),
        "  Parity:     OK (top match: idx=4, score=90)"
    );
    assert_eq!(
        parity_line(Tops { contiguous: a, chunked: b }),
        "  Parity:     MISMATCH! seg=(idx=4, score=90) chunk=(idx=5, score=90)"
    );
}
