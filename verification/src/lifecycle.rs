//! How the daemon starts and when it stops by itself.

use crate::pid::{already_running, recorded_pid};
use crate::state::DaemonState;
use vstd::prelude::*;
use vstd::string::*;

verus! {

/// The nanoseconds of a second.
pub const NANOS_PER_SECOND: u128 = 1000000000;

/// The seconds between two looks at whether the daemon is still needed.
pub const TICK_SECS: u64 = 60;

/// What a daemon does before it binds its socket.
#[derive(Debug, Clone, Copy, PartialEq, Eq, Structural)]
pub enum Startup {
    /// Nothing is in the way.
    Bind,
    /// The socket may be in use by this process.
    CheckProcess(i32),
    /// The socket is a leftover and has to be removed.
    RemoveSocket,
}

/// Seconds in nanoseconds.
pub fn seconds(count: u64) -> (res: u128)
    ensures
        res == count * NANOS_PER_SECOND,
{
    assert(count * NANOS_PER_SECOND <= u128::MAX) by (nonlinear_arith)
        requires
            count <= u64::MAX,
            NANOS_PER_SECOND == 1000000000,
    ;
    count as u128 * NANOS_PER_SECOND
}

/// What a daemon has to do first, where the socket is there or not and the pid file holds this
/// text or cannot be read.
pub open spec fn first_step(socket_exists: bool, pid_file: Option<Seq<char>>) -> Startup {
    if !socket_exists {
        Startup::Bind
    } else {
        match pid_file {
            Some(text) => match crate::pid::pid_in(text) {
                Some(pid) => Startup::CheckProcess(pid),
                None => Startup::RemoveSocket,
            },
            None => Startup::RemoveSocket,
        }
    }
}

/// What a daemon finds in its way. `pid_file` holds the contents of the pid file, where it
/// exists and can be read.
pub fn startup(socket_exists: bool, pid_file: Option<&str>) -> (res: Startup)
    ensures
        res == first_step(socket_exists, crate::client::opt_str(pid_file)),
{
    if !socket_exists {
        return Startup::Bind;
    }
    match pid_file {
        Some(text) => match recorded_pid(text) {
            Some(pid) => Startup::CheckProcess(pid),
            None => Startup::RemoveSocket,
        },
        None => Startup::RemoveSocket,
    }
}

/// `res` is what follows from whether the process is alive.
pub open spec fn checked(pid: i32, alive: bool, res: Result<Startup, String>) -> bool {
    if alive {
        res matches Err(message) && message@ == "fff-daemon already running (pid "@
            + crate::pid::pid_text(pid as int) + ")"@
    } else {
        res == Ok::<Startup, String>(Startup::RemoveSocket)
    }
}

/// What follows from whether the process that wrote the pid file is alive: a second daemon
/// does not start beside it, and the socket of one that is gone is removed.
pub fn after_check(pid: i32, alive: bool) -> (res: Result<Startup, String>)
    ensures
        checked(pid, alive, res),
{
    if alive {
        Err(already_running(pid))
    } else {
        Ok(Startup::RemoveSocket)
    }
}

/// Watches for how long the daemon has had neither a directory nor a client.
#[derive(Debug)]
pub struct IdleMonitor {
    /// When a directory or a client was last seen, in nanoseconds since the daemon started.
    pub last_activity: u128,
    /// For how many seconds the daemon may be without both; zero means for ever.
    pub auto_shutdown_secs: u64,
}

/// Whether the daemon has been without a directory and a client for too long.
pub open spec fn overdue(last_activity: u128, auto_shutdown_secs: u64, now: u128) -> bool {
    auto_shutdown_secs > 0 && now - last_activity > auto_shutdown_secs * NANOS_PER_SECOND
}

/// When the daemon was last needed, as it looks now: now, where a client is connected or a
/// directory is indexed.
pub open spec fn last_needed(before: u128, connected: bool, indexed: bool, now: u128) -> u128 {
    if connected || indexed {
        now
    } else {
        before
    }
}

/// For how many seconds the daemon has not been needed, where that is too long.
pub open spec fn idle_report(last_activity: u128, auto_shutdown_secs: u64, now: u128) -> Option<
    u128,
> {
    if overdue(last_activity, auto_shutdown_secs, now) {
        Some(((now - last_activity) / NANOS_PER_SECOND as int) as u128)
    } else {
        None
    }
}

impl IdleMonitor {
    /// Drops the idle directories and says for how many seconds the daemon has been without
    /// a directory and a client, where that is too long. `connected` says whether some
    /// client is connected.
    pub fn tick<H>(&mut self, state: &mut DaemonState<H>, connected: bool, now: u128) -> (res:
        Option<u128>)
        requires
            old(state).wf(),
        ensures
            final(state).wf(),
            final(state)@ == old(state)@.without_idle(now),
            final(self).auto_shutdown_secs == old(self).auto_shutdown_secs,
            final(self).last_activity == last_needed(
                old(self).last_activity,
                connected,
                final(state)@.dirs != Map::<Seq<u8>, crate::state::EntryModel<H>>::empty(),
                now,
            ),
            res == idle_report(final(self).last_activity, final(self).auto_shutdown_secs, now),
    {
        state.evict_idle(now);
        if connected || !state.is_empty() {
            self.last_activity = now;
        }
        if self.auto_shutdown_secs > 0 && now >= self.last_activity {
            let idle: u128 = now - self.last_activity;
            if idle > seconds(self.auto_shutdown_secs) {
                return Some(idle / NANOS_PER_SECOND);
            }
        }
        None
    }
}

/// A daemon that may be without directories and clients for ever never stops by itself, and
/// none stops at a moment at which it has a directory or a client.
pub proof fn needed_daemons_stay(last_activity: u128, auto_shutdown_secs: u64, now: u128)
    ensures
        !overdue(last_activity, 0, now),
        !overdue(now, auto_shutdown_secs, now),
{
}

} // verus!
