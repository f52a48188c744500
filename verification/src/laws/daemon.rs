//! How the daemon starts, what it reads from a connection, what a connection remembers, and when
//! the daemon stops.

use crate::connection::{
    header_taken, next_step, paths_after, payload_taken, settled, tracked_paths, AfterHeader,
    HeaderRead,
};
use crate::frame::{be_value_of_be_bytes, framed, read_result, FrameError, MAX_FRAME_SIZE};
use crate::lifecycle::{checked, first_step, idle_report, last_needed, Startup};
use crate::path::{key, FsPath};
use crate::pid::{pid_in, pid_text};
use crate::protocol::{Request, Response};
use vstd::prelude::*;
use vstd::string::*;

verus! {

/// A daemon that finds no socket starts. One that finds a socket first looks for the process that
/// the pid file names, and takes the socket for a leftover where it names none.
pub proof fn sockets_are_looked_into(socket_exists: bool, pid_file: Option<Seq<char>>)
    ensures
        first_step(socket_exists, pid_file) is Bind <==> !socket_exists,
        forall|pid: i32|
            first_step(socket_exists, pid_file) == Startup::CheckProcess(pid) <==> socket_exists
                && pid_file is Some && #[trigger] pid_in(pid_file->0) == Some(pid),
        first_step(socket_exists, pid_file) is RemoveSocket <==> socket_exists && (pid_file is None
            || pid_in(pid_file->0) is None),
{
}

/// A daemon that finds the socket and the pid file of another one looks for that very process, and
/// does not start beside it while it lives. Once it is gone, its socket is removed.
pub proof fn no_second_daemon_starts(pid: u32, alive: bool, res: Result<Startup, String>)
    requires
        0 < pid <= i32::MAX,
        first_step(true, Some(pid_text(pid as int))) matches Startup::CheckProcess(found) && checked(
            found,
            alive,
            res,
        ),
    ensures
        first_step(true, Some(pid_text(pid as int))) == Startup::CheckProcess(pid as i32),
        alive ==> res is Err,
        !alive ==> res matches Ok(Startup::RemoveSocket),
        alive ==> res->Err_0@ == "fff-daemon already running (pid "@ + pid_text(pid as int) + ")"@,
{
    crate::pid::pid_file_round_trip(pid);
}

/// While a client is connected or a directory is indexed, the daemon is needed, and does not stop.
pub proof fn needed_daemons_do_not_stop(
    before: u128,
    connected: bool,
    indexed: bool,
    auto_shutdown_secs: u64,
    now: u128,
)
    requires
        connected || indexed,
    ensures
        last_needed(before, connected, indexed, now) == now,
        idle_report(last_needed(before, connected, indexed, now), auto_shutdown_secs, now) is None,
{
}

/// A daemon that nobody needs stops as soon as it has not been needed for longer than it may be,
/// and not before; it never stops where no limit is set. It says for how many whole seconds it
/// has not been needed.
pub proof fn unneeded_daemons_stop(before: u128, auto_shutdown_secs: u64, now: u128)
    requires
        before <= now,
    ensures
        last_needed(before, false, false, now) == before,
        auto_shutdown_secs == 0 ==> idle_report(before, auto_shutdown_secs, now) is None,
        auto_shutdown_secs > 0 ==> (idle_report(before, auto_shutdown_secs, now) is Some <==> now
            - before > auto_shutdown_secs * 1000000000),
        idle_report(before, auto_shutdown_secs, now) matches Some(secs) ==> secs * 1000000000
            <= now - before < (secs + 1) * 1000000000,
{
    let idle = now - before;
    assert(idle / 1000000000 * 1000000000 <= idle < (idle / 1000000000 + 1) * 1000000000)
        by (nonlinear_arith)
        requires
            idle >= 0,
    ;
    assert(0 <= idle / 1000000000 <= idle) by (nonlinear_arith)
        requires
            idle >= 0,
    ;
}

/// A daemon that would stop now would also stop later, as long as nobody needs it.
pub proof fn unneeded_daemons_stay_unneeded(
    before: u128,
    auto_shutdown_secs: u64,
    now: u128,
    later: u128,
)
    requires
        now <= later,
        idle_report(before, auto_shutdown_secs, now) is Some,
    ensures
        idle_report(last_needed(before, false, false, later), auto_shutdown_secs, later) is Some,
{
}

/// The four bytes before a payload write its length, the most significant one first, and the
/// payload follows them unchanged.
pub proof fn frames_start_with_their_length(payload: Seq<u8>)
    requires
        payload.len() < 4294967296,
    ensures
        framed(payload).len() == payload.len() + 4,
        framed(payload)[0] * 16777216 + framed(payload)[1] * 65536 + framed(payload)[2] * 256
            + framed(payload)[3] == payload.len(),
        framed(payload).skip(4) == payload,
{
    be_value_of_be_bytes(payload.len() % 4294967296, payload);
    assert(framed(payload).skip(4) =~= payload);
}

/// A frame that has not arrived in full is not read, however much of it is there: the reader says
/// how many bytes are still missing from its header or, behind that, from its payload.
pub proof fn cut_frames_are_not_read(payload: Seq<u8>, count: int)
    requires
        payload.len() <= 67108864,
        0 <= count < payload.len() + 4,
    ensures
        read_result(framed(payload).take(count)) == Err::<(Seq<u8>, nat), FrameError>(
            FrameError::UnexpectedEof {
                missing: if count < 4 {
                    (4 - count) as usize
                } else {
                    (payload.len() + 4 - count) as usize
                },
            },
        ),
{
    let part = framed(payload).take(count);
    be_value_of_be_bytes(payload.len() % 4294967296, payload);
    if count >= 4 {
        assert(part[0] == framed(payload)[0]);
        assert(part[1] == framed(payload)[1]);
        assert(part[2] == framed(payload)[2]);
        assert(part[3] == framed(payload)[3]);
    }
}

/// The header of a written frame has the daemon read just the payload. A payload of more than 64
/// MiB is refused, and the connection goes on; where there is no header the connection has come
/// to its end, whether it was closed or broke.
pub proof fn headers_announce_payloads(read: HeaderRead, payload: Seq<u8>, res: AfterHeader)
    requires
        header_taken(read, res),
        payload.len() < 4294967296,
    ensures
        read matches HeaderRead::Full(header) ==> {
            header@ == framed(payload).take(4) ==> if payload.len() <= 67108864 {
                res matches AfterHeader::ReadPayload(len) && len == payload.len()
            } else {
                res matches AfterHeader::Answer(Response::Error(message)) && message@
                    == "frame too large"@
            }
        },
        read is Closed || read is Broken ==> res is Finish,
        res is Finish ==> !(read is Full),
{
    if let HeaderRead::Full(header) = read {
        if header@ == framed(payload).take(4) {
            be_value_of_be_bytes(payload.len() % 4294967296, payload);
            assert(header@[0] == framed(payload)[0]);
            assert(header@[1] == framed(payload)[1]);
            assert(header@[2] == framed(payload)[2]);
            assert(header@[3] == framed(payload)[3]);
        }
    }
}

/// A request that can be decoded is handled as it is. One that cannot is answered with the reason.
pub proof fn requests_are_taken_as_they_are(
    decoded: Result<Request, String>,
    res: Result<Request, Response>,
)
    requires
        payload_taken(decoded, res),
    ensures
        decoded matches Ok(request) ==> res matches Ok(taken) && taken == request,
        decoded matches Err(reason) ==> res matches Err(Response::Error(message)) && message@
            == "decode error: "@ + reason@,
{
}

/// The request to stop is the only one after which the daemon stops.
pub proof fn only_one_request_stops_the_daemon(request: Request)
    ensures
        next_step(request) is Shutdown <==> request is Shutdown,
        next_step(request) is ReadOn <==> !(request is Shutdown),
{
}

/// Some path of the list is another way to write this one.
pub open spec fn remembers(paths: Seq<Seq<u8>>, path: Seq<u8>) -> bool {
    exists|k: int| 0 <= k < paths.len() && key(#[trigger] paths[k]) == key(path)
}

/// A directory that was granted is remembered from then on; one that was cleaned up or dropped is
/// not; and after a move the new one is. `at` is where the path of the request leads.
pub proof fn granted_directories_are_remembered(
    paths: Seq<Seq<u8>>,
    path: FsPath,
    at: FsPath,
    new_path: FsPath,
    new_at: FsPath,
    watch_git_events: bool,
)
    ensures
        ({
            let found = seq![Ok::<FsPath, String>(at)];
            let both = seq![Ok::<FsPath, String>(at), Ok::<FsPath, String>(new_at)];
            let yes = Response::Bool(true);
            let index = Request::IndexDirectory { path, watch_git_events };
            let cleanup = Request::CleanupFilePicker { path };
            let drop = Request::DropDirectory { path };
            let restart = Request::RestartIndex { path, new_path };
            let moved = paths_after(paths, restart, Response::Done, both);
            &&& remembers(paths_after(paths, index, yes, found), at@)
            &&& !remembers(paths_after(paths, cleanup, yes, found), at@)
            &&& !remembers(paths_after(paths, drop, yes, found), at@)
            &&& remembers(moved, new_at@)
            &&& key(at@) != key(new_at@) ==> !remembers(moved, at@)
        }),
{
    let found = seq![Ok::<FsPath, String>(at)];
    let both = seq![Ok::<FsPath, String>(at), Ok::<FsPath, String>(new_at)];
    let index = Request::IndexDirectory { path, watch_git_events };
    let restart = Request::RestartIndex { path, new_path };
    lemma_remembered(paths, at@);
    lemma_forgotten(paths, at@);
    let rest = crate::connection::without_path(paths, at@);
    lemma_remembered(rest, new_at@);
    assert(paths_after(paths, index, Response::Bool(true), found)
        == crate::connection::with_path(paths, at@));
    let moved = paths_after(paths, restart, Response::Done, both);
    assert(moved == crate::connection::with_path(rest, new_at@));
    if key(at@) != key(new_at@) && remembers(moved, at@) {
        let k = choose|k: int| 0 <= k < moved.len() && key(#[trigger] moved[k]) == key(at@);
        assert(k < rest.len());
        assert(key(rest[k]) == key(at@));
    }
}

proof fn lemma_remembered(paths: Seq<Seq<u8>>, path: Seq<u8>)
    ensures
        remembers(crate::connection::with_path(paths, path), path),
{
    let after = crate::connection::with_path(paths, path);
    if !crate::connection::holds_alike(paths, path) {
        assert(after[paths.len() as int] == path);
        assert(key(after[paths.len() as int]) == key(path));
    }
}

proof fn lemma_forgotten(paths: Seq<Seq<u8>>, path: Seq<u8>)
    ensures
        !remembers(crate::connection::without_path(paths, path), path),
{
    let after = crate::connection::without_path(paths, path);
    crate::order::filter_members(paths, crate::connection::unlike(path));
    if remembers(after, path) {
        let k = choose|k: int| 0 <= k < after.len() && key(#[trigger] after[k]) == key(path);
        assert(after.contains(after[k]));
    }
}

/// Whatever a request comes to, a remembered directory that it does not name stays remembered, and
/// none is remembered that neither was before nor is named by it.
pub proof fn other_directories_stay_remembered(
    paths: Seq<Seq<u8>>,
    request: Request,
    response: Response,
    canonical: Seq<Result<FsPath, String>>,
    other: Seq<u8>,
)
    requires
        canonical.len() == tracked_paths(request, response).len(),
        forall|k: int|
            0 <= k < canonical.len() ==> key(
                settled(tracked_paths(request, response)[k]@, #[trigger] canonical[k]),
            ) != key(other),
    ensures
        remembers(paths_after(paths, request, response, canonical), other) <==> remembers(
            paths,
            other,
        ),
{
    match (request, response) {
        (Request::IndexDirectory { path, .. }, Response::Bool(true)) => {
            assert(key(settled(path@, canonical[0])) != key(other));
            lemma_others_with(paths, settled(path@, canonical[0]), other);
        },
        (Request::RestartIndex { path, new_path }, Response::Done) => {
            let gone = settled(path@, canonical[0]);
            let added = settled(new_path@, canonical[1]);
            assert(key(gone) != key(other));
            assert(key(added) != key(other));
            lemma_others_without(paths, gone, other);
            lemma_others_with(crate::connection::without_path(paths, gone), added, other);
        },
        (Request::CleanupFilePicker { path }, Response::Bool(true)) => {
            assert(key(settled(path@, canonical[0])) != key(other));
            lemma_others_without(paths, settled(path@, canonical[0]), other);
        },
        (Request::DropDirectory { path }, Response::Bool(true)) => {
            assert(key(settled(path@, canonical[0])) != key(other));
            lemma_others_without(paths, settled(path@, canonical[0]), other);
        },
        _ => {},
    }
}

proof fn lemma_others_with(paths: Seq<Seq<u8>>, path: Seq<u8>, other: Seq<u8>)
    requires
        key(path) != key(other),
    ensures
        remembers(crate::connection::with_path(paths, path), other) <==> remembers(paths, other),
{
    let after = crate::connection::with_path(paths, path);
    if remembers(paths, other) {
        let k = choose|k: int| 0 <= k < paths.len() && key(#[trigger] paths[k]) == key(other);
        assert(after[k] == paths[k]);
    }
    if remembers(after, other) {
        let k = choose|k: int| 0 <= k < after.len() && key(#[trigger] after[k]) == key(other);
        assert(paths[k] == after[k]);
    }
}

proof fn lemma_others_without(paths: Seq<Seq<u8>>, path: Seq<u8>, other: Seq<u8>)
    requires
        key(path) != key(other),
    ensures
        remembers(crate::connection::without_path(paths, path), other) <==> remembers(paths, other),
{
    let after = crate::connection::without_path(paths, path);
    crate::order::filter_members(paths, crate::connection::unlike(path));
    if remembers(paths, other) {
        let k = choose|k: int| 0 <= k < paths.len() && key(#[trigger] paths[k]) == key(other);
        assert(paths.contains(paths[k]));
        assert(after.contains(paths[k]));
        let j = choose|j: int| 0 <= j < after.len() && after[j] == paths[k];
        assert(key(after[j]) == key(other));
    }
    if remembers(after, other) {
        let k = choose|k: int| 0 <= k < after.len() && key(#[trigger] after[k]) == key(other);
        assert(after.contains(after[k]));
        let j = choose|j: int| 0 <= j < paths.len() && paths[j] == after[k];
        assert(key(paths[j]) == key(other));
    }
}

/// The paths that an answer concerns are those that its request names, where it was granted.
pub proof fn answers_concern_the_paths_of_their_request(
    request: Request,
    response: Response,
    path: FsPath,
    new_path: FsPath,
    watch_git_events: bool,
)
    ensures
        ({
            let yes = Response::Bool(true);
            let index = Request::IndexDirectory { path, watch_git_events };
            let restart = Request::RestartIndex { path, new_path };
            &&& tracked_paths(index, yes) == seq![path]
            &&& tracked_paths(Request::CleanupFilePicker { path }, yes) == seq![path]
            &&& tracked_paths(Request::DropDirectory { path }, yes) == seq![path]
            &&& tracked_paths(restart, Response::Done) == seq![path, new_path]
            &&& response is Error || response == Response::Bool(false) ==> tracked_paths(
                request,
                response,
            ).len() == 0
        }),
{
}

/// A path is remembered in its canonical form, and as it was written only where it has none.
pub proof fn canonical_forms_are_preferred(path: Seq<u8>, canonical: Result<FsPath, String>)
    ensures
        canonical matches Ok(form) ==> settled(path, canonical) == form@,
        canonical is Err ==> settled(path, canonical) == path,
{
}

/// The limit of a payload is 64 MiB, and the daemon looks every minute whether it is needed.
pub proof fn limits()
    ensures
        MAX_FRAME_SIZE == 64 * 1024 * 1024,
        crate::lifecycle::TICK_SECS == 60,
        crate::protocol::PROTOCOL_VERSION == 1,
{
}

} // verus!
