//! Where the daemon's socket and its pid file lie.

use crate::path::{append_bytes, FsPath};
use crate::text::{decimal_text, prefixed};
use vstd::prelude::*;
use vstd::string::*;
use vstd::utf8::*;

verus! {

/// What the place of the socket depends on.
#[derive(Debug)]
pub struct Surroundings {
    /// Whether the operating system is Linux.
    pub linux: bool,
    /// The value of `XDG_RUNTIME_DIR`, where it is set.
    pub runtime_dir: Option<String>,
    /// The id of the user.
    pub uid: u32,
    /// The directory for temporary files.
    pub temp_dir: FsPath,
}

/// The directory that holds the socket: `fff` in the runtime directory on Linux
/// where there is one, and one for this user among the temporary files otherwise.
pub open spec fn socket_dir(at: Surroundings) -> Seq<u8> {
    match at.runtime_dir {
        Some(dir) if at.linux => crate::path::joined(encode_utf8(dir@), encode_utf8("fff"@)),
        _ => crate::path::joined(
            at.temp_dir@,
            encode_utf8("fff-"@ + crate::text::decimal(at.uid as nat)),
        ),
    }
}

/// Where the socket lies.
pub open spec fn socket_place(at: Surroundings) -> Seq<u8> {
    crate::path::joined(socket_dir(at), encode_utf8("fff.sock"@))
}

/// Where the pid file lies.
pub open spec fn pid_file_place(at: Surroundings) -> Seq<u8> {
    crate::path::joined(socket_dir(at), encode_utf8("fff.pid"@))
}

/// The socket's path.
pub fn socket_path(at: &Surroundings) -> (res: FsPath)
    ensures
        res@ == socket_place(*at),
{
    let name = FsPath::from_text("fff.sock");
    if at.linux {
        if let Some(dir) = &at.runtime_dir {
            return FsPath::from_text(dir.as_str()).join(&FsPath::from_text("fff")).join(&name);
        }
    }
    let uid = decimal_text(at.uid as u64);
    let own = prefixed("fff-", uid.as_str());
    at.temp_dir.join(&FsPath::from_text(own.as_str())).join(&name)
}

/// The path of the pid file, which lies beside the socket under the same name with
/// the extension `pid`.
pub fn pid_file_path(at: &Surroundings) -> (res: FsPath)
    ensures
        res@ == pid_file_place(*at),
{
    let mut path = socket_path(at);
    proof {
        reveal_strlit("fff.sock");
        reveal_strlit("fff.pid");
        reveal_strlit("pid");
        is_ascii_chars_encode_utf8("fff.sock"@);
        is_ascii_chars_encode_utf8("fff.pid"@);
        is_ascii_chars_encode_utf8("pid"@);
    }
    let keep: usize = path.bytes.len() - 4;
    path.bytes.truncate(keep);
    append_bytes(&mut path.bytes, "pid".as_bytes());
    assert(path@ =~= crate::path::joined(socket_dir(*at), encode_utf8("fff.pid"@)));
    path
}

} // verus!
