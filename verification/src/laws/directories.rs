//! How the daemon keeps one index for every directory: who uses it, when it was last used, and
//! which one goes when there are too many or when nobody uses it.

use crate::handler::{asked_for, next_state, Action, Purpose};
use crate::path::FsPath;
use crate::protocol::{DirectoryInfoWire, Request, Response, ScanProgressWire};
use crate::recency::{in_time, update_keeps_time, use_keeps_time};
use crate::state::{
    busy_in, evicted, idle_in, lists, outside, Client, OpenPlan, Settings, StateModel,
};
use vstd::prelude::*;
use vstd::string::*;
use vstd::utf8::*;

verus! {

/// The directory is indexed, and the client is among those who use it.
pub open spec fn used_by<H>(state: StateModel<H>, path: Seq<u8>, connection: u64) -> bool {
    state.dirs.contains_key(path) && state.dirs[path].clients.contains_key(connection)
}

/// The directory is indexed, and nobody uses it.
pub open spec fn unused<H>(state: StateModel<H>, path: Seq<u8>) -> bool {
    state.dirs.contains_key(path) && forall|connection: u64| !#[trigger] used_by(
        state,
        path,
        connection,
    )
}

/// The later one of two times.
pub open spec fn later_of(a: u128, b: u128) -> u128 {
    if a >= b {
        a
    } else {
        b
    }
}

proof fn lemma_unused<H>(state: StateModel<H>, path: Seq<u8>)
    requires
        state.dirs.contains_key(path),
    ensures
        unused(state, path) <==> !state.dirs[path].busy(),
{
    let clients = state.dirs[path].clients;
    if unused(state, path) {
        assert forall|c: u64| !clients.contains_key(c) by {
            assert(!used_by(state, path, c));
        }
        assert(clients =~= Map::<u64, Option<u32>>::empty());
    }
}

/// A request for a directory that is indexed is granted at once and counts as a use of it: it is
/// the last in the order, and its last use is now. Its handles stay, it gets the client beside
/// those that it has, and nothing changes for any other directory.
pub proof fn granted_requests_are_uses<H>(
    before: StateModel<H>,
    path: FsPath,
    client: Client,
    now: u128,
)
    requires
        before.dirs.contains_key(path@),
    ensures
        ({
            let after = before.ensured(Ok(path), client, now);
            let entry = after.dirs[path@];
            &&& after.lru.len() > 0
            &&& after.lru.last() == path@
            &&& entry.last_accessed == later_of(now, before.latest)
            &&& after.latest == later_of(now, before.latest)
            &&& entry.handles == before.dirs[path@].handles
            &&& used_by(after, path@, client.connection)
            &&& entry.clients[client.connection] == client.pid
            &&& forall|c: u64| #[trigger]
                used_by(before, path@, c) ==> used_by(after, path@, c)
            &&& forall|c: u64| #[trigger]
                used_by(after, path@, c) && c != client.connection ==> used_by(before, path@, c)
            &&& after.dirs.dom() == before.dirs.dom()
            &&& forall|p: Seq<u8>| #[trigger]
                before.dirs.contains_key(p) && p != path@ ==> after.dirs[p] == before.dirs[p]
            &&& after.settings == before.settings
        }),
{
    assert(before.ensured(Ok(path), client, now).dirs.dom() =~= before.dirs.dom());
}

/// A directory that has just been asked for again, and left again, is not evicted before another
/// one that nobody uses.
pub proof fn reopened_directories_outlive_others<H>(
    before: StateModel<H>,
    path: FsPath,
    client: Client,
    now: u128,
    other: Seq<u8>,
)
    requires
        in_time(before),
        before.dirs.contains_key(path@),
        other != path@,
        unused(before, other),
    ensures
        ({
            let after = before.ensured(Ok(path), client, now).released(Ok(path), client);
            after.with_room().dirs.contains_key(other) ==> after.with_room().dirs.contains_key(
                path@,
            )
        }),
{
    let used = before.touched(path@, now);
    let joined = before.ensured(Ok(path), client, now);
    let after = joined.released(Ok(path), client);
    use_keeps_time(before, path@, now);
    update_keeps_time(used, path@, joined.dirs[path@]);
    update_keeps_time(joined, path@, after.dirs[path@]);
    lemma_unused(before, other);
    assert(after.dirs.contains_key(other) && after.dirs[other] == before.dirs[other]);
    if !after.with_room().dirs.contains_key(path@) {
        let max = after.settings.max_directories as nat;
        let out = evicted(after.dirs, after.lru, max);
        assert(out.contains(path@));
        assert(after.lru.contains(other));
        let a = choose|a: int| 0 <= a < after.lru.len() && after.lru[a] == other;
        let b = after.lru.len() - 1;
        assert(after.lru[b] == path@);
        crate::state::front_goes_first(after.dirs, after.lru, max, a, b);
    }
}

/// The idle timeout of a directory that has been asked for again runs from then on.
pub proof fn reopened_directories_start_to_idle_anew<H>(
    before: StateModel<H>,
    path: FsPath,
    client: Client,
    now: u128,
    later: u128,
)
    requires
        before.dirs.contains_key(path@),
        later - now <= before.settings.idle_timeout,
    ensures
        before.ensured(Ok(path), client, now).released(Ok(path), client).without_idle(
            later,
        ).dirs.contains_key(path@),
{
}

/// A look at an indexed directory counts as a use of it, and changes nothing else.
pub proof fn looks_are_uses<H>(before: StateModel<H>, path: FsPath, now: u128)
    requires
        before.dirs.contains_key(path@),
    ensures
        ({
            let after = before.used(Ok(path), now);
            &&& after.lru.len() > 0
            &&& after.lru.last() == path@
            &&& after.dirs[path@].last_accessed == later_of(now, before.latest)
            &&& after.dirs[path@].handles == before.dirs[path@].handles
            &&& after.dirs[path@].clients == before.dirs[path@].clients
            &&& after.dirs.dom() == before.dirs.dom()
            &&& forall|p: Seq<u8>| #[trigger]
                before.dirs.contains_key(p) && p != path@ ==> after.dirs[p] == before.dirs[p]
        }),
{
    assert(before.used(Ok(path), now).dirs.dom() =~= before.dirs.dom());
}

/// Opening a directory that was asked for keeps within the limit, unless somebody uses every other
/// directory. The directories that make room for it are unused, and none of them was used after
/// an unused one that stays.
pub proof fn opening_keeps_the_limit<H>(
    before: StateModel<H>,
    path: FsPath,
    handles: H,
    client: Client,
    now: u128,
    later: u128,
)
    requires
        in_time(before),
        !before.dirs.contains_key(path@),
    ensures
        ({
            let after = before.ensured(Ok(path), client, now).with_opened(
                path@,
                handles,
                client,
                later,
            );
            &&& after.lru.len() <= before.settings.max_directories || forall|p: Seq<u8>| #[trigger]
                after.dirs.contains_key(p) ==> !unused(after, p)
            &&& forall|p: Seq<u8>| #[trigger]
                before.dirs.contains_key(p) && !after.dirs.contains_key(p) ==> unused(before, p)
            &&& forall|gone: Seq<u8>, kept: Seq<u8>|
                #![trigger before.dirs.contains_key(gone), after.dirs.contains_key(kept)]
                before.dirs.contains_key(gone) && !after.dirs.contains_key(gone)
                    && after.dirs.contains_key(kept) && unused(after, kept)
                    ==> before.dirs[gone].last_accessed <= after.dirs[kept].last_accessed
        }),
{
    let room = before.ensured(Ok(path), client, now);
    let after = room.with_opened(path@, handles, client, later);
    room_takes_no_more_than_it_must(before);
    assert(room == before.with_room());
    assert(!room.dirs.contains_key(path@));
    assert(used_by(after, path@, client.connection));
    assert forall|p: Seq<u8>| #[trigger] after.dirs.contains_key(p) && p != path@ implies unused(
        after,
        p,
    ) == unused(room, p) by {
        lemma_unused(after, p);
        lemma_unused(room, p);
    }
    assert forall|p: Seq<u8>| #[trigger]
        before.dirs.contains_key(p) && !after.dirs.contains_key(p) implies unused(before, p) by {
        assert forall|c: u64| !#[trigger] used_by(before, p, c) by {
            if used_by(before, p, c) {
                assert(used_by(room, p, c));
                assert(room.dirs.contains_key(p));
            }
        }
    }
    assert forall|gone: Seq<u8>, kept: Seq<u8>|
        #![trigger before.dirs.contains_key(gone), after.dirs.contains_key(kept)]
        before.dirs.contains_key(gone) && !after.dirs.contains_key(gone)
            && after.dirs.contains_key(kept) && unused(
            after,
            kept,
        ) implies before.dirs[gone].last_accessed <= after.dirs[kept].last_accessed by {
        assert(kept != path@);
        assert(room.dirs.contains_key(kept));
        lemma_unused(after, kept);
        crate::recency::least_recently_used_goes_first(before, gone, kept);
    }
}

/// A request for a directory whose path leads nowhere changes nothing.
pub proof fn lost_paths_change_nothing<H>(
    before: StateModel<H>,
    reason: String,
    client: Client,
    now: u128,
)
    ensures
        before.ensured(Err(reason), client, now) == before,
        before.used(Err(reason), now) == before,
        before.released(Err(reason), client) == before,
        before.dropped(Err(reason)) == before,
{
}

/// A directory that has been opened is indexed with its handles, used now and by its client alone,
/// last in the order, and every other directory stays as it is.
pub proof fn opened_directories_are_indexed<H>(
    before: StateModel<H>,
    path: Seq<u8>,
    handles: H,
    client: Client,
    now: u128,
)
    requires
        !before.dirs.contains_key(path),
    ensures
        ({
            let after = before.with_opened(path, handles, client, now);
            let entry = after.dirs[path];
            &&& entry.handles == handles
            &&& entry.last_accessed == later_of(now, before.latest)
            &&& entry.clients[client.connection] == client.pid
            &&& forall|c: u64| #[trigger] used_by(after, path, c) <==> c == client.connection
            &&& after.lru == before.lru.push(path)
            &&& forall|p: Seq<u8>| #[trigger]
                before.dirs.contains_key(p) ==> after.dirs.contains_key(p) && after.dirs[p]
                    == before.dirs[p]
            &&& forall|p: Seq<u8>| #[trigger]
                after.dirs.contains_key(p) ==> p == path || before.dirs.contains_key(p)
            &&& after.settings == before.settings
        }),
{
}

/// A client that leaves a directory leaves that one alone: the directory stays indexed with its
/// handles, its time and its place in the order, and keeps every other client.
pub proof fn leaving_takes_the_client_alone<H>(
    before: StateModel<H>,
    path: FsPath,
    client: Client,
)
    requires
        before.dirs.contains_key(path@),
    ensures
        ({
            let after = before.released(Ok(path), client);
            &&& !used_by(after, path@, client.connection)
            &&& forall|c: u64|
                c != client.connection ==> (#[trigger] used_by(after, path@, c) <==> used_by(
                    before,
                    path@,
                    c,
                ))
            &&& after.dirs.dom() == before.dirs.dom()
            &&& after.dirs[path@].handles == before.dirs[path@].handles
            &&& after.dirs[path@].last_accessed == before.dirs[path@].last_accessed
            &&& forall|p: Seq<u8>| #[trigger]
                before.dirs.contains_key(p) && p != path@ ==> after.dirs[p] == before.dirs[p]
            &&& after.lru == before.lru
            &&& after.settings == before.settings
        }),
{
    assert(before.released(Ok(path), client).dirs.dom() =~= before.dirs.dom());
}

/// A directory that is dropped is gone, also from the order, and every other one stays, in its
/// place.
pub proof fn dropped_directories_are_gone<H>(before: StateModel<H>, path: FsPath)
    requires
        in_time(before),
        before.dirs.contains_key(path@),
    ensures
        ({
            let after = before.dropped(Ok(path));
            &&& !after.dirs.contains_key(path@)
            &&& !after.lru.contains(path@)
            &&& after.lru.len() == before.lru.len() - 1
            &&& forall|p: Seq<u8>| #[trigger]
                before.dirs.contains_key(p) && p != path@ ==> after.dirs.contains_key(p)
                    && after.dirs[p] == before.dirs[p] && after.lru.contains(p)
            &&& after.settings == before.settings
        }),
{
    assert(before.lru.contains(path@));
    crate::order::without_facts(before.lru, path@);
    let after = before.dropped(Ok(path));
    assert forall|p: Seq<u8>| #[trigger]
        before.dirs.contains_key(p) && p != path@ implies after.dirs.contains_key(p)
        && after.dirs[p] == before.dirs[p] && after.lru.contains(p) by {
        assert(before.lru.contains(p));
    }
}

/// When room is made, no directory that somebody uses goes, no entry changes, and what stays keeps
/// its order. As long as there is room nothing goes; otherwise as many go as have to, and where
/// that does not make room, somebody uses every directory that is left.
pub proof fn room_takes_no_more_than_it_must<H>(before: StateModel<H>)
    requires
        in_time(before),
    ensures
        ({
            let after = before.with_room();
            let max = before.settings.max_directories;
            &&& forall|p: Seq<u8>, c: u64| #[trigger]
                used_by(before, p, c) ==> used_by(after, p, c)
            &&& forall|p: Seq<u8>| #[trigger]
                after.dirs.contains_key(p) ==> before.dirs.contains_key(p) && after.dirs[p]
                    == before.dirs[p]
            &&& forall|p: Seq<u8>| #[trigger]
                after.lru.contains(p) <==> after.dirs.contains_key(p)
            &&& before.lru.len() < max ==> after.lru == before.lru
            &&& before.lru.len() >= max ==> after.lru.len() + 1 >= max
            &&& after.lru.len() < max || forall|p: Seq<u8>| #[trigger]
                after.dirs.contains_key(p) ==> !unused(after, p)
            &&& after.settings == before.settings
        }),
{
    let after = before.with_room();
    let max = before.settings.max_directories as nat;
    let out = evicted(before.dirs, before.lru, max);
    let idle = before.lru.filter(idle_in(before.dirs));
    let left = outside(out.to_set());
    crate::order::filter_members(before.lru, idle_in(before.dirs));
    crate::order::filter_members(before.lru, left);
    crate::order::filter_counts(before.lru, idle_in(before.dirs), busy_in(before.dirs));
    crate::state::room_is_made(before.dirs, before.lru, max);
    assert forall|p: Seq<u8>, c: u64| #[trigger] used_by(before, p, c) implies used_by(
        after,
        p,
        c,
    ) by {
        if out.contains(p) {
            let i = choose|i: int| 0 <= i < out.len() && out[i] == p;
            assert(idle[i] == p);
            assert(idle.contains(p));
            assert(before.dirs[p].clients.contains_key(c));
        }
    }
    assert forall|p: Seq<u8>| #[trigger] after.lru.contains(p) <==> after.dirs.contains_key(p) by {
        assert(before.lru.contains(p) <==> before.dirs.contains_key(p));
    }
    if before.lru.len() < max {
        crate::order::filter_all(before.lru, left);
    }
    if after.lru.len() >= max {
        crate::state::only_used_directories_block(before.dirs, before.lru, max);
        assert forall|p: Seq<u8>| #[trigger] after.dirs.contains_key(p) implies !unused(
            after,
            p,
        ) by {
            lemma_unused(after, p);
            assert(crate::state::dirs_with_room(before.dirs, before.lru, max).contains_key(p));
        }
    }
}

/// Of two directories that stay when room is made, the one that came first comes first.
pub proof fn room_keeps_the_order<H>(before: StateModel<H>, a: int, b: int)
    requires
        in_time(before),
        0 <= a < b < before.lru.len(),
        before.with_room().dirs.contains_key(before.lru[a]),
        before.with_room().dirs.contains_key(before.lru[b]),
    ensures
        exists|i: int, j: int|
            0 <= i < j < before.with_room().lru.len() && #[trigger] before.with_room().lru[i]
                == before.lru[a] && #[trigger] before.with_room().lru[j] == before.lru[b],
{
    let max = before.settings.max_directories as nat;
    let left = outside(evicted(before.dirs, before.lru, max).to_set());
    let first = before.lru.take(b);
    let rest = before.lru.skip(b);
    let lru = before.with_room().lru;
    assert(before.lru =~= first + rest);
    crate::order::filter_concat(first, rest, left);
    crate::order::filter_members(first, left);
    crate::order::filter_members(rest, left);
    assert(first[a] == before.lru[a]);
    assert(first.filter(left).contains(before.lru[a]));
    assert(rest[0] == before.lru[b]);
    assert(rest.filter(left).contains(before.lru[b]));
    let i = choose|i: int| 0 <= i < first.filter(left).len() && first.filter(left)[i]
        == before.lru[a];
    let k = choose|k: int| 0 <= k < rest.filter(left).len() && rest.filter(left)[k]
        == before.lru[b];
    assert(lru[i] == before.lru[a]);
    assert(lru[first.filter(left).len() + k] == before.lru[b]);
}

/// The idle directories that are dropped are exactly those that nobody uses and whose last use
/// lies more than the timeout back. The others stay as they are.
pub proof fn only_idle_directories_are_dropped<H>(
    before: StateModel<H>,
    now: u128,
    path: Seq<u8>,
)
    requires
        in_time(before),
        before.dirs.contains_key(path),
    ensures
        ({
            let after = before.without_idle(now);
            let idle_for = now - before.dirs[path].last_accessed;
            &&& after.dirs.contains_key(path) <==> !unused(before, path) || idle_for
                <= before.settings.idle_timeout
            &&& after.dirs.contains_key(path) ==> after.dirs[path] == before.dirs[path]
            &&& after.lru.contains(path) <==> after.dirs.contains_key(path)
            &&& after.dirs.dom().subset_of(before.dirs.dom())
            &&& after.settings == before.settings
        }),
{
    lemma_unused(before, path);
    assert(before.lru.contains(path));
    crate::order::filter_members(
        before.lru,
        crate::state::kept_in(before.dirs, now, before.settings.idle_timeout),
    );
}

/// Where the engine is asked to open a directory, the plan names that directory and whoever asks
/// for it, and wants it watched and its contents indexed. Each of the two databases lies below its
/// own base, where one is set, and under a name of sixteen characters that depends on nothing
/// but the path.
pub proof fn plans_say_what_was_asked<H>(
    action: Action<H>,
    before: StateModel<H>,
    path: FsPath,
    watch_git_events: bool,
    client: Client,
    purpose: Purpose,
)
    requires
        asked_for(action, before, Ok(path), watch_git_events, client, purpose),
        !before.dirs.contains_key(path@),
    ensures
        action matches Action::Open { plan, purpose: reason } && {
            &&& reason == purpose
            &&& plan.path@ == path@
            &&& plan.base_path@ == crate::path::lossy_text(path@)
            &&& plan.watch_git_events == watch_git_events
            &&& plan.client.connection == client.connection
            &&& plan.client.pid == client.pid
            &&& plan.db_unsafe_no_lock == before.settings.db_unsafe_no_lock
            &&& plan.enable_mmap_cache && plan.enable_content_indexing && plan.watch
            &&& plan.mode is Neovim
            &&& lies_below(plan.frecency_db, before.settings.frecency_db_base)
            &&& lies_below(plan.history_db, before.settings.history_db_base)
        },
{
    let plan = action->plan;
    let name = crate::text::hex_digits(crate::hash::fnv1a(path@) as nat, 16);
    crate::text::hex_digits_len(crate::hash::fnv1a(path@) as nat, 16);
    lemma_hex_is_plain(crate::hash::fnv1a(path@) as nat, 16);
    is_ascii_chars_encode_utf8(name);
    assert(encode_utf8(name)[0] != crate::path::SEPARATOR);
    if let Some(base) = before.settings.frecency_db_base {
        assert(encode_utf8(base@).is_prefix_of(plan.frecency_db->0@));
    }
    if let Some(base) = before.settings.history_db_base {
        assert(encode_utf8(base@).is_prefix_of(plan.history_db->0@));
    }
}

/// There is a database exactly where there is a base, and it lies below that: the base, one
/// separator where the base does not end in one, and sixteen characters.
pub open spec fn lies_below(db: Option<FsPath>, base: Option<String>) -> bool {
    match (db, base) {
        (Some(db), Some(base)) => {
            let dir = encode_utf8(base@);
            &&& dir.is_prefix_of(db@)
            &&& db@.len() == dir.len() + 16 + (if dir.len() > 0 && dir.last() != 47 {
                1int
            } else {
                0
            })
        },
        (None, None) => true,
        _ => false,
    }
}

/// Hexadecimal digits are plain characters, and no separators.
proof fn lemma_hex_is_plain(n: nat, width: nat)
    ensures
        is_ascii_chars(crate::text::hex_digits(n, width)),
        forall|k: int|
            0 <= k < crate::text::hex_digits(n, width).len() ==> #[trigger] crate::text::hex_digits(
                n,
                width,
            )[k] != '/',
    decreases width,
{
    if width > 0 {
        lemma_hex_is_plain(n / 16, (width - 1) as nat);
    }
}

/// Requests for one directory under the same settings ask for the same databases, whoever asks;
/// so its history is found again.
pub proof fn databases_are_found_again(
    first: OpenPlan,
    second: OpenPlan,
    path: Seq<u8>,
    settings: Settings,
    watch_a: bool,
    watch_b: bool,
    a: Client,
    b: Client,
)
    requires
        first.opens(path, settings, watch_a, a),
        second.opens(path, settings, watch_b, b),
    ensures
        first.frecency_db matches Some(db) ==> second.frecency_db is Some && db@
            == second.frecency_db->0@,
        first.history_db matches Some(db) ==> second.history_db is Some && db@
            == second.history_db->0@,
{
}

/// The places of the databases are noted as a client names them, each in its own place, and
/// nothing else changes.
pub proof fn database_places_are_noted<H>(
    before: StateModel<H>,
    frecency_db_path: String,
    history_db_path: String,
    use_unsafe_no_lock: bool,
    resolved: Seq<Result<FsPath, String>>,
    client: Client,
    now: u128,
)
    ensures
        ({
            let request = Request::InitDb { frecency_db_path, history_db_path, use_unsafe_no_lock };
            let after = next_state(before, request, resolved, client, now);
            &&& after.settings.frecency_db_base matches Some(base) && base@ == frecency_db_path@
            &&& after.settings.history_db_base matches Some(base) && base@ == history_db_path@
            &&& after.settings.db_unsafe_no_lock == use_unsafe_no_lock
            &&& after.settings.max_directories == before.settings.max_directories
            &&& after.settings.idle_timeout == before.settings.idle_timeout
            &&& after.dirs == before.dirs
            &&& after.lru == before.lru
        }),
{
}

/// After a request for an indexed directory the client uses it; after one to clean up it does not,
/// and after one to drop it nobody does, for it is gone.
pub proof fn requests_change_who_uses_a_directory<H>(
    before: StateModel<H>,
    path: FsPath,
    at: FsPath,
    watch_git_events: bool,
    client: Client,
    now: u128,
)
    requires
        before.dirs.contains_key(at@),
    ensures
        ({
            let resolved = seq![Ok::<FsPath, String>(at)];
            let asked = next_state(
                before,
                Request::IndexDirectory { path, watch_git_events },
                resolved,
                client,
                now,
            );
            let left = next_state(
                before,
                Request::CleanupFilePicker { path },
                resolved,
                client,
                now,
            );
            let dropped = next_state(before, Request::DropDirectory { path }, resolved, client, now);
            &&& used_by(asked, at@, client.connection)
            &&& asked.lru.last() == at@
            &&& asked.dirs[at@].last_accessed == later_of(now, before.latest)
            &&& left.dirs.contains_key(at@)
            &&& !used_by(left, at@, client.connection)
            &&& !dropped.dirs.contains_key(at@)
        }),
{
    granted_requests_are_uses(before, at, client, now);
    leaving_takes_the_client_alone(before, at, client);
}

/// To move from one indexed directory to another takes the client off the first and puts it on the
/// second, which counts as the last use.
pub proof fn moving_changes_directories<H>(
    before: StateModel<H>,
    path: FsPath,
    new_path: FsPath,
    old_at: FsPath,
    new_at: FsPath,
    client: Client,
    now: u128,
)
    requires
        before.dirs.contains_key(old_at@),
        before.dirs.contains_key(new_at@),
        old_at@ != new_at@,
    ensures
        ({
            let resolved = seq![
                Ok::<FsPath, String>(old_at),
                Ok::<FsPath, String>(old_at),
                Ok::<FsPath, String>(new_at),
            ];
            let after = next_state(
                before,
                Request::RestartIndex { path, new_path },
                resolved,
                client,
                now,
            );
            &&& after.dirs.dom() == before.dirs.dom()
            &&& !used_by(after, old_at@, client.connection)
            &&& used_by(after, new_at@, client.connection)
            &&& after.lru.last() == new_at@
            &&& after.dirs[old_at@].last_accessed == later_of(now, before.latest)
            &&& after.dirs[new_at@].last_accessed == later_of(now, before.latest)
            &&& forall|p: Seq<u8>| #[trigger]
                before.dirs.contains_key(p) && p != old_at@ && p != new_at@ ==> after.dirs[p]
                    == before.dirs[p]
        }),
{
    let resolved = seq![
        Ok::<FsPath, String>(old_at),
        Ok::<FsPath, String>(old_at),
        Ok::<FsPath, String>(new_at),
    ];
    let after = next_state(
        before,
        Request::RestartIndex { path, new_path },
        resolved,
        client,
        now,
    );
    assert(after.dirs.dom() =~= before.dirs.dom());
}

/// A directory that is not indexed is not indexed by the request alone: the engine is asked to
/// open it, unless its path leads nowhere, and where it is indexed the answer comes at once.
pub proof fn directories_are_opened_once<H>(
    action: Action<H>,
    before: StateModel<H>,
    canonical: Result<FsPath, String>,
    watch_git_events: bool,
    client: Client,
    purpose: Purpose,
)
    requires
        asked_for(action, before, canonical, watch_git_events, client, purpose),
    ensures
        action is Open <==> canonical is Ok && !before.dirs.contains_key(canonical->Ok_0@),
        canonical is Ok && before.dirs.contains_key(canonical->Ok_0@) ==> match purpose {
            Purpose::Index => action == Action::<H>::Reply(Response::Bool(true)),
            Purpose::Restart => action == Action::<H>::Reply(Response::Done),
        },
        canonical matches Err(reason) ==> action matches Action::Reply(Response::Error(message))
            && message@ == "failed to canonicalize path: "@ + reason@,
{
}

/// A listing shows every indexed directory once. Of each it shows every process that is known to
/// use it, once and in ascending order, how many these are, and what the engine says of its scan.
pub proof fn listings_show_every_directory<H, F: Fn(&H) -> Option<ScanProgressWire>>(
    infos: Seq<DirectoryInfoWire>,
    state: StateModel<H>,
    probe: F,
    k: int,
)
    requires
        lists(infos, state.dirs, probe),
        0 <= k < infos.len(),
    ensures
        state.dirs.contains_key(infos[k].path@),
        forall|j: int| 0 <= j < infos.len() && j != k ==> (#[trigger] infos[j]).path@
            != infos[k].path@,
        forall|p: Seq<u8>| #[trigger]
            state.dirs.contains_key(p) ==> exists|j: int|
                0 <= j < infos.len() && (#[trigger] infos[j]).path@ == p,
        infos[k].client_count == infos[k].client_pids@.len(),
        forall|a: int, b: int|
            0 <= a < b < infos[k].client_pids@.len() ==> #[trigger] infos[k].client_pids@[a]
                < #[trigger] infos[k].client_pids@[b],
        forall|c: u64, pid: u32|
            used_by(state, infos[k].path@, c) && #[trigger] state.dirs[infos[k].path@].clients[c]
                == Some(pid) ==> #[trigger] infos[k].client_pids@.contains(pid),
        forall|pid: u32| #[trigger]
            infos[k].client_pids@.contains(pid) ==> exists|c: u64|
                used_by(state, infos[k].path@, c) && #[trigger] state.dirs[infos[k].path@].clients[c]
                    == Some(pid),
        exists|progress: Option<ScanProgressWire>| #[trigger]
            call_ensures(probe, (&state.dirs[infos[k].path@].handles,), progress) && match progress {
                Some(scan) => infos[k].is_scanning == scan.is_scanning && infos[k].file_count
                    == scan.scanned_files_count,
                None => !infos[k].is_scanning && infos[k].file_count == 0,
            },
{
    let paths = crate::state::listed_paths(infos);
    assert(paths[k] == infos[k].path@);
    assert(paths.contains(infos[k].path@));
    let path = infos[k].path@;
    let entry = state.dirs[path];
    let pids = infos[k].client_pids@;
    assert(crate::state::describes(infos[k], entry, probe));
    assert forall|j: int| 0 <= j < infos.len() && j != k implies (#[trigger] infos[j]).path@
        != infos[k].path@ by {
        assert(paths[j] == infos[j].path@);
    }
    assert forall|p: Seq<u8>| #[trigger] state.dirs.contains_key(p) implies exists|j: int|
        0 <= j < infos.len() && (#[trigger] infos[j]).path@ == p by {
        assert(paths.contains(p));
        let j = choose|j: int| 0 <= j < paths.len() && paths[j] == p;
        assert(infos[j].path@ == p);
    }
    assert forall|c: u64, pid: u32|
        used_by(state, path, c) && #[trigger] entry.clients[c] == Some(
            pid,
        ) implies #[trigger] pids.contains(pid) by {
        assert(entry.clients.values().contains(Some(pid)));
        assert(entry.pids().contains(pid));
        assert(pids.to_set().contains(pid));
    }
    assert forall|pid: u32| #[trigger] pids.contains(pid) implies exists|c: u64|
        used_by(state, path, c) && #[trigger] entry.clients[c] == Some(pid) by {
        assert(pids.to_set().contains(pid));
        assert(entry.pids().contains(pid));
        assert(entry.clients.values().contains(Some(pid)));
        let c = choose|c: u64|
            entry.clients.contains_key(c) && #[trigger] entry.clients[c] == Some(pid);
        assert(used_by(state, path, c));
    }
}

} // verus!
