//! How a client gets hold of a daemon: where the socket lies, when a daemon is started, where its
//! program is looked for, and what is said where that fails.

use crate::client::{reads, spawn_failure_text, ClientError, SpawnFailure};
use crate::path::FsPath;
use crate::socket::{pid_file_place, socket_dir, socket_place, Surroundings};
use crate::spawn::{
    arguments, candidates, daemon_missing, first_found, path_programs, ConnectFailure, DaemonHints,
};
use vstd::prelude::*;
use vstd::string::*;
use vstd::utf8::*;

verus! {

/// A daemon is started where there is no socket or nobody listens at it, and for no other reason.
pub proof fn daemons_are_started_where_none_is(failure: ConnectFailure)
    ensures
        daemon_missing(failure) <==> failure is NotFound || failure is ConnectionRefused,
{
}

/// A client waits for half a minute for an answer, and for five seconds to send a request.
pub proof fn clients_do_not_wait_for_ever()
    ensures
        crate::spawn::READ_TIMEOUT_SECS == 30,
        crate::spawn::WRITE_TIMEOUT_SECS == 5,
{
}

/// The daemon is told to stay in the foreground and to listen at the client's socket.
pub proof fn daemons_listen_where_clients_look(socket_path: Seq<u8>)
    ensures
        arguments(socket_path).len() == 3,
        arguments(socket_path)[0] == encode_utf8("--foreground"@),
        arguments(socket_path)[1] == encode_utf8("--socket"@),
        arguments(socket_path)[2] == socket_path,
{
}

/// What is found is one of the places at which there is a file, and none before it has one; where
/// there is a file at some place, one is found.
pub proof fn first_program_is_taken(places: Seq<FsPath>, exists: Seq<bool>, res: Option<FsPath>)
    requires
        places.len() == exists.len(),
        first_found(places, exists, res),
    ensures
        res matches Some(path) ==> exists|k: int|
            0 <= k < places.len() && #[trigger] exists[k] && path@ == places[k]@ && forall|j: int|
                0 <= j < k ==> !#[trigger] exists[j],
        res is None ==> forall|k: int| 0 <= k < exists.len() ==> !#[trigger] exists[k],
{
    if let Some(path) = res {
        let k = choose|k: int| #[trigger]
            crate::spawn::first_true(exists, k) && path@ == places[k]@;
        assert(exists[k]);
    }
}

/// How many of these there are.
pub open spec fn count_of<T>(item: Option<T>) -> int {
    if item is Some {
        1
    } else {
        0
    }
}

/// The program is looked for in this order: where the user says, beside the running program, in
/// the directories of `PATH` in their order, and among what a developer has built, the release
/// before the debug build.
pub proof fn programs_are_looked_for_in_order(hints: DaemonHints, k: int)
    requires
        0 <= k < path_programs(hints).len(),
    ensures
        ({
            let all = candidates(hints);
            let named = count_of(hints.explicit);
            let beside = named + count_of(hints.exe_dir);
            let found = path_programs(hints).len();
            &&& all.len() == beside + found + 2
            &&& hints.explicit matches Some(path) ==> all[0] == encode_utf8(path@)
            &&& hints.exe_dir matches Some(dir) ==> all[named] == crate::path::joined(
                dir@,
                encode_utf8("fff-daemon"@),
            )
            &&& all[beside + k] == path_programs(hints)[k]
            &&& hints.path_var is Some
            &&& path_programs(hints)[k] == crate::path::joined(
                crate::path::split_on(encode_utf8(hints.path_var->0@), 58)[k],
                encode_utf8("fff-daemon"@),
            )
        }),
{
}

/// Behind all others come the release and then the debug build, below the directory that is set for
/// builds or `target`.
pub proof fn built_programs_come_last(hints: DaemonHints)
    ensures
        ({
            let all = candidates(hints);
            let target = match hints.cargo_target_dir {
                Some(dir) => encode_utf8(dir@),
                None => encode_utf8("target"@),
            };
            let name = encode_utf8("fff-daemon"@);
            &&& all.len() >= 2
            &&& all[all.len() - 2] == crate::path::joined(
                crate::path::joined(target, encode_utf8("release"@)),
                name,
            )
            &&& all[all.len() - 1] == crate::path::joined(
                crate::path::joined(target, encode_utf8("debug"@)),
                name,
            )
            &&& hints.path_var is None ==> all.len() == count_of(hints.explicit) + count_of(
                hints.exe_dir,
            ) + 2
        }),
{
}

/// The socket and the pid file lie in one directory. On Linux that is `fff` in the runtime
/// directory where there is one, whoever the user is; otherwise it lies among the temporary files.
pub proof fn socket_and_pid_file_lie_together(at: Surroundings)
    ensures
        socket_place(at) == crate::path::joined(socket_dir(at), encode_utf8("fff.sock"@)),
        pid_file_place(at) == crate::path::joined(socket_dir(at), encode_utf8("fff.pid"@)),
        at.linux ==> (at.runtime_dir matches Some(dir) ==> socket_dir(at) == crate::path::joined(
            encode_utf8(dir@),
            encode_utf8("fff"@),
        )),
        !at.linux || at.runtime_dir is None ==> socket_dir(at) == crate::path::joined(
            at.temp_dir@,
            encode_utf8("fff-"@ + crate::text::decimal(at.uid as nat)),
        ),
{
}

proof fn lemma_plain(n: nat)
    ensures
        is_ascii_chars("fff-"@ + crate::text::decimal(n)),
{
    reveal_strlit("fff-");
    crate::laws::words::decimals_are_written_digit_by_digit(n);
    let all = "fff-"@ + crate::text::decimal(n);
    assert forall|i: int| 0 <= i < all.len() implies '\0' <= #[trigger] all[i] <= '\u{7f}' by {
        if i >= 4 {
            assert(all[i] == crate::text::decimal(n)[i - 4]);
        } else {
            assert("fff-"@[0] == 'f' && "fff-"@[1] == 'f' && "fff-"@[2] == 'f' && "fff-"@[3] == '-');
            assert(i == 0 || i == 1 || i == 2 || i == 3);
            assert(all[i] == "fff-"@[i]);
        }
    }
}

/// Among the temporary files every user has a directory of their own.
pub proof fn users_have_sockets_of_their_own(a: Surroundings, b: Surroundings)
    requires
        a.runtime_dir is None,
        b.runtime_dir is None,
        a.temp_dir@ == b.temp_dir@,
        socket_dir(a) == socket_dir(b),
    ensures
        a.uid == b.uid,
{
    let first = "fff-"@ + crate::text::decimal(a.uid as nat);
    let second = "fff-"@ + crate::text::decimal(b.uid as nat);
    reveal_strlit("fff-");
    crate::laws::words::decimals_are_written_digit_by_digit(a.uid as nat);
    crate::laws::words::decimals_are_written_digit_by_digit(b.uid as nat);
    lemma_plain(a.uid as nat);
    lemma_plain(b.uid as nat);
    is_ascii_chars_encode_utf8(first);
    is_ascii_chars_encode_utf8(second);
    let x = encode_utf8(first);
    let y = encode_utf8(second);
    assert(x[0] == 102 && y[0] == 102);
    let base = a.temp_dir@;
    let start = if base.len() > 0 && base.last() != 47 {
        base.len() as int + 1
    } else {
        base.len() as int
    };
    assert(crate::path::joined(base, x).skip(start) =~= x);
    assert(crate::path::joined(base, y).skip(start) =~= y);
    encode_utf8_decode_utf8(first);
    encode_utf8_decode_utf8(second);
    assert(first == second);
    assert(first.skip(4) =~= crate::text::decimal(a.uid as nat));
    assert(second.skip(4) =~= crate::text::decimal(b.uid as nat));
    crate::laws::words::decimals_can_be_told_apart(a.uid as nat, b.uid as nat);
}

/// An error reads as what went wrong and why: in the connection, in encoding, in decoding, at the
/// daemon or at its start.
pub proof fn errors_say_what_went_wrong(error: ClientError, text: Seq<char>)
    requires
        reads(error, text),
    ensures
        match error {
            ClientError::Io(_) => "io error: "@.is_prefix_of(text),
            ClientError::Encode(_) => "encode error: "@.is_prefix_of(text),
            ClientError::Decode(_) => "decode error: "@.is_prefix_of(text),
            ClientError::DaemonError(cause) => text == "daemon error: "@ + cause@,
            ClientError::SpawnFailed(cause) => text == "spawn failed: "@ + cause@,
        },
{
}

/// A daemon that could not be started is reported with the reason: no program, no directory for
/// the socket, or a program that did not start, which is named.
pub proof fn failed_starts_are_explained(failure: SpawnFailure)
    ensures
        match failure {
            SpawnFailure::NoProgram => spawn_failure_text(failure)
                == "fff-daemon binary not found"@,
            SpawnFailure::NoSocketDir(reason) => spawn_failure_text(failure)
                == "failed to create socket dir: "@ + reason@,
            SpawnFailure::NotStarted { program, reason } => spawn_failure_text(failure)
                == "failed to spawn "@ + crate::path::lossy_text(program@) + ": "@ + reason@,
        },
{
}

} // verus!
