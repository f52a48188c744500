//! How a client gets hold of a daemon: when it starts one, where it looks for the program,
//! and how long it waits.

use crate::path::{split, FsPath};
use crate::protocol::DAEMON_BIN_NAME;
use vstd::prelude::*;
use vstd::string::*;
use vstd::utf8::*;

verus! {

/// How often a client tries to reach a daemon that it has started.
pub const CONNECT_ATTEMPTS: usize = 5;

/// How many milliseconds it waits before every try.
pub const CONNECT_DELAY_MS: u64 = 100;

/// For how many seconds a client waits for an answer.
pub const READ_TIMEOUT_SECS: u64 = 30;

/// For how many seconds a client waits to send a request.
pub const WRITE_TIMEOUT_SECS: u64 = 5;

/// Why a client did not reach the daemon.
#[derive(Debug, Clone, Copy, PartialEq, Eq, Structural)]
pub enum ConnectFailure {
    /// There is no socket.
    NotFound,
    /// Nobody listens at the socket.
    ConnectionRefused,
    /// Anything else.
    Other,
}

/// Whether such a failure shows that no daemon is there.
pub open spec fn daemon_missing(failure: ConnectFailure) -> bool {
    failure != ConnectFailure::Other
}

/// Whether the client starts a daemon after such a failure.
pub fn starts_daemon(failure: ConnectFailure) -> (res: bool)
    ensures
        res == daemon_missing(failure),
{
    match failure {
        ConnectFailure::NotFound | ConnectFailure::ConnectionRefused => true,
        ConnectFailure::Other => false,
    }
}

/// What a client does that waits for its daemon.
#[derive(Debug, Clone, Copy, PartialEq, Eq, Structural)]
pub enum Retry {
    /// It waits for so many milliseconds and tries again.
    TryAgain { after_ms: u64 },
    /// It reports why the last try failed.
    ReportLast,
    /// It reports that the daemon did not start in time, without having tried.
    ReportTimeout,
}

/// What a client does after `failed` tries of at most `max_attempts`, with `delay_ms`
/// milliseconds before every one.
pub open spec fn retry_after(failed: nat, max_attempts: nat, delay_ms: u64) -> Retry {
    if failed < max_attempts {
        Retry::TryAgain { after_ms: delay_ms }
    } else if max_attempts > 0 {
        Retry::ReportLast
    } else {
        Retry::ReportTimeout
    }
}

/// Says what a client does after `failed` tries.
pub fn connect_with_retry(failed: usize, max_attempts: usize, delay_ms: u64) -> (res: Retry)
    ensures
        res == retry_after(failed as nat, max_attempts as nat, delay_ms),
{
    if failed < max_attempts {
        Retry::TryAgain { after_ms: delay_ms }
    } else if max_attempts > 0 {
        Retry::ReportLast
    } else {
        Retry::ReportTimeout
    }
}

/// Says what a client does that has started a daemon and tried `failed` times to reach it.
pub fn wait_for_daemon(failed: usize) -> (res: Retry)
    ensures
        res == retry_after(failed as nat, CONNECT_ATTEMPTS as nat, CONNECT_DELAY_MS),
{
    connect_with_retry(failed, CONNECT_ATTEMPTS, CONNECT_DELAY_MS)
}

/// What is said where the daemon did not start in time.
pub fn timeout_message() -> (res: String)
    ensures
        res@ == "daemon did not start in time"@,
{
    "daemon did not start in time".to_owned()
}

/// What the client knows of where the daemon's program may lie.
#[derive(Debug)]
pub struct DaemonHints {
    /// The value of `FFF_DAEMON_BIN`, where it is set.
    pub explicit: Option<String>,
    /// The directory of the running program, where it is known.
    pub exe_dir: Option<FsPath>,
    /// The value of `PATH`, where it is set.
    pub path_var: Option<String>,
    /// The value of `CARGO_TARGET_DIR`, where it is set.
    pub cargo_target_dir: Option<String>,
}

/// The daemon's program in a directory.
pub open spec fn daemon_in(dir: Seq<u8>) -> Seq<u8> {
    crate::path::joined(dir, encode_utf8(DAEMON_BIN_NAME@))
}

/// What separates the directories of `PATH`.
pub const PATH_SEPARATOR: u8 = 58;

/// The program that the user names.
pub open spec fn named_program(hints: DaemonHints) -> Seq<Seq<u8>> {
    match hints.explicit {
        Some(path) => seq![encode_utf8(path@)],
        None => seq![],
    }
}

/// The program beside the running one.
pub open spec fn neighbour_program(hints: DaemonHints) -> Seq<Seq<u8>> {
    match hints.exe_dir {
        Some(dir) => seq![daemon_in(dir@)],
        None => seq![],
    }
}

/// The programs in the directories of `PATH`.
pub open spec fn path_programs(hints: DaemonHints) -> Seq<Seq<u8>> {
    match hints.path_var {
        Some(dirs) => crate::path::split_on(encode_utf8(dirs@), PATH_SEPARATOR).map_values(
            |dir: Seq<u8>| daemon_in(dir),
        ),
        None => seq![],
    }
}

/// The programs that a developer has built.
pub open spec fn built_programs(hints: DaemonHints) -> Seq<Seq<u8>> {
    let target = match hints.cargo_target_dir {
        Some(dir) => encode_utf8(dir@),
        None => encode_utf8("target"@),
    };
    seq![
        daemon_in(crate::path::joined(target, encode_utf8("release"@))),
        daemon_in(crate::path::joined(target, encode_utf8("debug"@))),
    ]
}

/// Where the daemon's program may lie, the first choice first.
pub open spec fn candidates(hints: DaemonHints) -> Seq<Seq<u8>> {
    named_program(hints) + neighbour_program(hints) + path_programs(hints) + built_programs(hints)
}

/// Lists where the daemon's program may lie.
pub fn daemon_candidates(hints: &DaemonHints) -> (res: Vec<FsPath>)
    ensures
        crate::order::bytes_of(res@) == candidates(*hints),
{
    let name = FsPath::from_text(DAEMON_BIN_NAME);
    let mut res: Vec<FsPath> = Vec::new();
    let ghost explicit = named_program(*hints);
    let ghost beside = neighbour_program(*hints);
    if let Some(path) = &hints.explicit {
        res.push(FsPath::from_text(path.as_str()));
    }
    assert(crate::order::bytes_of(res@) =~= explicit);
    if let Some(dir) = &hints.exe_dir {
        res.push(dir.join(&name));
    }
    assert(crate::order::bytes_of(res@) =~= explicit + beside);
    if let Some(dirs) = &hints.path_var {
        let pieces = split(dirs.as_str().as_bytes(), PATH_SEPARATOR);
        let ghost dirs_there = crate::path::all_bytes(pieces@);
        let ghost wanted = dirs_there.map_values(|dir: Seq<u8>| daemon_in(dir));
        let mut i: usize = 0;
        while i < pieces.len()
            invariant
                i <= pieces@.len(),
                name@ == encode_utf8(DAEMON_BIN_NAME@),
                dirs_there == crate::path::all_bytes(pieces@),
                wanted == dirs_there.map_values(|dir: Seq<u8>| daemon_in(dir)),
                crate::order::bytes_of(res@) == explicit + beside + wanted.take(i as int),
            decreases pieces@.len() - i,
        {
            let mut bytes: Vec<u8> = Vec::new();
            crate::path::append_bytes(&mut bytes, pieces[i].as_slice());
            let dir = FsPath { bytes };
            let ghost before = crate::order::bytes_of(res@);
            assert(dir@ =~= dirs_there[i as int]);
            res.push(dir.join(&name));
            proof {
                assert(crate::order::bytes_of(res@) =~= before.push(wanted[i as int]));
                assert(before.push(wanted[i as int]) =~= explicit + beside + wanted.take(i + 1));
            }
            i += 1;
        }
        assert(wanted.take(wanted.len() as int) =~= wanted);
        assert(wanted =~= path_programs(*hints));
    }
    assert(crate::order::bytes_of(res@) =~= explicit + beside + path_programs(*hints));
    let target = match &hints.cargo_target_dir {
        Some(dir) => FsPath::from_text(dir.as_str()),
        None => FsPath::from_text("target"),
    };
    res.push(target.join(&FsPath::from_text("release")).join(&name));
    res.push(target.join(&FsPath::from_text("debug")).join(&name));
    assert(crate::order::bytes_of(res@) =~= candidates(*hints));
    res
}

/// `res` is the first of the places at which there is a file.
pub open spec fn first_found(
    places: Seq<FsPath>,
    exists: Seq<bool>,
    res: Option<FsPath>,
) -> bool {
    match res {
        Some(path) => exists|k: int| #[trigger] first_true(exists, k) && path@ == places[k]@,
        None => forall|k: int| 0 <= k < exists.len() ==> !#[trigger] exists[k],
    }
}

/// The first of the places at which there is a file. `exists` says of each place whether
/// there is one.
pub fn find_daemon_binary(places: &Vec<FsPath>, exists: &Vec<bool>) -> (res: Option<FsPath>)
    requires
        places@.len() == exists@.len(),
    ensures
        first_found(places@, exists@, res),
{
    let mut i: usize = 0;
    while i < places.len()
        invariant
            i <= places@.len(),
            places@.len() == exists@.len(),
            forall|k: int| 0 <= k < i ==> !#[trigger] exists@[k],
        decreases places@.len() - i,
    {
        if exists[i] {
            assert(first_true(exists@, i as int));
            return Some(places[i].clone());
        }
        i += 1;
    }
    None
}

/// The `k`th is the first that is true.
pub open spec fn first_true(flags: Seq<bool>, k: int) -> bool {
    0 <= k < flags.len() && flags[k] && forall|j: int| 0 <= j < k ==> !#[trigger] flags[j]
}

/// What the daemon is started with, to listen at this socket.
pub open spec fn arguments(socket_path: Seq<u8>) -> Seq<Seq<u8>> {
    seq![encode_utf8("--foreground"@), encode_utf8("--socket"@), socket_path]
}

/// What the daemon is started with.
pub fn spawn_arguments(socket_path: &FsPath) -> (res: Vec<FsPath>)
    ensures
        crate::order::bytes_of(res@) == arguments(socket_path@),
{
    let mut res: Vec<FsPath> = Vec::new();
    res.push(FsPath::from_text("--foreground"));
    res.push(FsPath::from_text("--socket"));
    res.push(socket_path.clone());
    assert(crate::order::bytes_of(res@) =~= seq![
        encode_utf8("--foreground"@),
        encode_utf8("--socket"@),
        socket_path@,
    ]);
    res
}

/// A client tries to reach the daemon that it has started five times, a tenth of a second
/// apart, and then reports why the last try failed.
pub proof fn tries_are_limited(failed: nat)
    ensures
        retry_after(failed, CONNECT_ATTEMPTS as nat, CONNECT_DELAY_MS) == (if failed < 5 {
            Retry::TryAgain { after_ms: 100 }
        } else {
            Retry::ReportLast
        }),
{
}

/// A program that is named explicitly is taken wherever it exists.
pub proof fn explicit_program_wins(hints: DaemonHints, exists: Seq<bool>, k: int)
    requires
        hints.explicit is Some,
        exists.len() == candidates(hints).len(),
        exists[0],
        first_true(exists, k),
    ensures
        candidates(hints)[k] == encode_utf8(hints.explicit->0@),
{
    if k > 0 {
        assert(exists[0]);
    }
}

} // verus!
