//! What the daemon keeps for the directories it has indexed: for each of them the
//! handles of the search engine, the connections whose clients use it and the time of its
//! last use, and over all of them the order in which they were last used.

use crate::hash::stable_path_hash;
use crate::order::forget;
use crate::path::FsPath;
use crate::protocol::{DirectoryInfoWire, ScanProgressWire};
use crate::recency::in_time;
use crate::text::prefixed;
use std::collections::{HashMap, VecDeque};
use vstd::prelude::*;
use vstd::string::*;
use vstd::utf8::*;

verus! {

broadcast use vstd::std_specs::hash::group_hash_axioms;

/// The client at the other end of a connection. A process may have several connections,
/// and each of them is a client of its own.
#[derive(Debug, Clone, Copy, PartialEq, Eq, Structural)]
pub struct Client {
    /// The number of the connection.
    pub connection: u64,
    /// The process, where it is known.
    pub pid: Option<u32>,
}

/// One indexed directory. `H` stands for the handles of the search engine, and times
/// are nanoseconds since the daemon started.
pub struct DirectoryEntry<H> {
    pub handles: H,
    pub last_accessed: u128,
    /// The connections whose clients use the directory, each with its process.
    pub clients: HashMap<u64, Option<u32>>,
}

/// What a directory entry holds.
pub struct EntryModel<H> {
    pub handles: H,
    pub last_accessed: u128,
    pub clients: Map<u64, Option<u32>>,
}

impl<H> View for DirectoryEntry<H> {
    type V = EntryModel<H>;

    open spec fn view(&self) -> EntryModel<H> {
        EntryModel {
            handles: self.handles,
            last_accessed: self.last_accessed,
            clients: self.clients@,
        }
    }
}

impl<H> EntryModel<H> {
    /// Whether some client uses the directory.
    pub open spec fn busy(self) -> bool {
        self.clients != Map::<u64, Option<u32>>::empty()
    }

    /// Whether nobody uses the directory and its last use lies more than `timeout`
    /// before `now`.
    pub open spec fn stale(self, now: u128, timeout: u128) -> bool {
        !self.busy() && now - self.last_accessed > timeout
    }

    /// The processes that are known to use the directory.
    pub open spec fn pids(self) -> Set<u32> {
        Set::new(|pid: u32| self.clients.values().contains(Some(pid)))
    }

    /// The entry after the client has started to use it.
    pub open spec fn joined_by(self, client: Client) -> EntryModel<H> {
        EntryModel { clients: self.clients.insert(client.connection, client.pid), ..self }
    }

    /// The entry after the client has stopped using it.
    pub open spec fn left_by(self, client: Client) -> EntryModel<H> {
        EntryModel { clients: self.clients.remove(client.connection), ..self }
    }
}

struct Directory<H> {
    path: FsPath,
    entry: DirectoryEntry<H>,
}

/// How the daemon is set up.
pub struct Settings {
    /// The number of directories that it tries to stay within.
    pub max_directories: usize,
    /// How long an unused directory is kept, in nanoseconds.
    pub idle_timeout: u128,
    /// Where the databases of access scores lie, once a client has said so.
    pub frecency_db_base: Option<String>,
    /// Where the databases of query histories lie, once a client has said so.
    pub history_db_base: Option<String>,
    /// Whether the databases are opened without a lock.
    pub db_unsafe_no_lock: bool,
}

/// The daemon's state.
pub struct DaemonState<H> {
    directories: Vec<Directory<H>>,
    lru_order: VecDeque<FsPath>,
    latest: u128,
    config: Settings,
}

spec fn paths_of<H>(ds: Seq<Directory<H>>) -> Seq<Seq<u8>> {
    ds.map_values(|d: Directory<H>| d.path@)
}

spec fn dirs_of<H>(ds: Seq<Directory<H>>) -> Map<Seq<u8>, EntryModel<H>> {
    Map::new(
        |p: Seq<u8>| paths_of(ds).contains(p),
        |p: Seq<u8>| ds[paths_of(ds).index_of(p)].entry@,
    )
}

proof fn lemma_entry<H>(ds: Seq<Directory<H>>, i: int)
    requires
        paths_of(ds).no_duplicates(),
        0 <= i < ds.len(),
    ensures
        dirs_of(ds).contains_key(ds[i].path@),
        dirs_of(ds)[ds[i].path@] == ds[i].entry@,
{
    assert(paths_of(ds)[i] == ds[i].path@);
}

proof fn lemma_key<H>(ds: Seq<Directory<H>>, p: Seq<u8>) -> (i: int)
    requires
        paths_of(ds).no_duplicates(),
        dirs_of(ds).contains_key(p),
    ensures
        0 <= i < ds.len(),
        ds[i].path@ == p,
        dirs_of(ds)[p] == ds[i].entry@,
{
    let i = paths_of(ds).index_of(p);
    lemma_entry(ds, i);
    i
}

proof fn lemma_update<H>(ds: Seq<Directory<H>>, i: int, d: Directory<H>)
    requires
        paths_of(ds).no_duplicates(),
        0 <= i < ds.len(),
        d.path@ == ds[i].path@,
    ensures
        paths_of(ds.update(i, d)) == paths_of(ds),
        dirs_of(ds.update(i, d)) == dirs_of(ds).insert(d.path@, d.entry@),
{
    let after = ds.update(i, d);
    assert(paths_of(after) =~= paths_of(ds));
    lemma_entry(after, i);
    lemma_entry(ds, i);
    assert forall|p: Seq<u8>| #[trigger] dirs_of(ds).contains_key(p) && p != d.path@ implies dirs_of(
        after,
    )[p] == dirs_of(ds)[p] by {
        let k = lemma_key(ds, p);
        assert(after[k] == ds[k]);
        lemma_entry(after, k);
    }
    assert(dirs_of(after) =~= dirs_of(ds).insert(d.path@, d.entry@));
}

proof fn lemma_remove<H>(ds: Seq<Directory<H>>, i: int)
    requires
        paths_of(ds).no_duplicates(),
        0 <= i < ds.len(),
    ensures
        paths_of(ds.remove(i)).no_duplicates(),
        dirs_of(ds.remove(i)) == dirs_of(ds).remove(ds[i].path@),
{
    let after = ds.remove(i);
    let gone = ds[i].path@;
    assert forall|k: int| 0 <= k < after.len() implies #[trigger] after[k] == (if k < i {
        ds[k]
    } else {
        ds[k + 1]
    }) by {}
    assert forall|a: int, b: int|
        0 <= a < after.len() && 0 <= b < after.len() && a != b implies paths_of(after)[a] != paths_of(
        after,
    )[b] by {
        let a0 = if a < i { a } else { a + 1 };
        let b0 = if b < i { b } else { b + 1 };
        assert(paths_of(ds)[a0] != paths_of(ds)[b0]);
    }
    lemma_entry(ds, i);
    assert forall|p: Seq<u8>| #[trigger] dirs_of(after).contains_key(p) implies p != gone && dirs_of(
        ds,
    ).contains_key(p) && dirs_of(after)[p] == dirs_of(ds)[p] by {
        let k = lemma_key(after, p);
        let k0 = if k < i { k } else { k + 1 };
        lemma_entry(ds, k0);
        assert(paths_of(ds)[k0] != paths_of(ds)[i]);
    }
    assert forall|p: Seq<u8>| #[trigger] dirs_of(ds).contains_key(p) && p != gone implies dirs_of(
        after,
    ).contains_key(p) by {
        let k = lemma_key(ds, p);
        let k1 = if k < i { k } else { k - 1 };
        lemma_entry(after, k1);
    }
    assert(dirs_of(after) =~= dirs_of(ds).remove(gone));
}

proof fn lemma_push<H>(ds: Seq<Directory<H>>, d: Directory<H>)
    requires
        paths_of(ds).no_duplicates(),
        !dirs_of(ds).contains_key(d.path@),
    ensures
        paths_of(ds.push(d)).no_duplicates(),
        dirs_of(ds.push(d)) == dirs_of(ds).insert(d.path@, d.entry@),
{
    let after = ds.push(d);
    assert(paths_of(after) =~= paths_of(ds).push(d.path@));
    assert(!paths_of(ds).contains(d.path@));
    lemma_entry(after, ds.len() as int);
    assert forall|p: Seq<u8>| #[trigger] dirs_of(ds).contains_key(p) implies dirs_of(
        after,
    ).contains_key(p) && dirs_of(after)[p] == dirs_of(ds)[p] by {
        let k = lemma_key(ds, p);
        assert(after[k] == ds[k]);
        lemma_entry(after, k);
    }
    assert forall|p: Seq<u8>| #[trigger] dirs_of(after).contains_key(p) implies p == d.path@
        || dirs_of(ds).contains_key(p) by {
        let k = lemma_key(after, p);
        if k < ds.len() {
            lemma_entry(ds, k);
        }
    }
    assert(dirs_of(after) =~= dirs_of(ds).insert(d.path@, d.entry@));
}

/// The test that the directories nobody uses pass.
pub open spec fn idle_in<H>(dirs: Map<Seq<u8>, EntryModel<H>>) -> spec_fn(Seq<u8>) -> bool {
    |p: Seq<u8>| !dirs[p].busy()
}

/// The test that the directories somebody uses pass.
pub open spec fn busy_in<H>(dirs: Map<Seq<u8>, EntryModel<H>>) -> spec_fn(Seq<u8>) -> bool {
    |p: Seq<u8>| dirs[p].busy()
}

/// The test that the directories which are not stale pass.
pub open spec fn kept_in<H>(
    dirs: Map<Seq<u8>, EntryModel<H>>,
    now: u128,
    timeout: u128,
) -> spec_fn(Seq<u8>) -> bool {
    |p: Seq<u8>| !dirs[p].stale(now, timeout)
}

/// The directories that are not stale.
pub open spec fn dirs_kept<H>(
    dirs: Map<Seq<u8>, EntryModel<H>>,
    now: u128,
    timeout: u128,
) -> Map<Seq<u8>, EntryModel<H>> {
    Map::new(
        |p: Seq<u8>| dirs.contains_key(p) && !dirs[p].stale(now, timeout),
        |p: Seq<u8>| dirs[p],
    )
}

/// How many of `count` directories have to go before one more stays within `max`.
pub open spec fn surplus(count: nat, max: nat) -> nat {
    if count >= max {
        (count - max + 1) as nat
    } else {
        0
    }
}

/// The test that the paths outside a set pass.
pub open spec fn outside(gone: Set<Seq<u8>>) -> spec_fn(Seq<u8>) -> bool {
    |p: Seq<u8>| !gone.contains(p)
}

/// The directories that make room for another one: as many as have to go, but only
/// unused ones, and of these the ones that come first in the order.
pub open spec fn evicted<H>(
    dirs: Map<Seq<u8>, EntryModel<H>>,
    lru: Seq<Seq<u8>>,
    max: nat,
) -> Seq<Seq<u8>> {
    let idle = lru.filter(idle_in(dirs));
    let need = surplus(lru.len(), max);
    if need <= idle.len() {
        idle.take(need as int)
    } else {
        idle
    }
}

/// The directories that are left when room has been made.
pub open spec fn dirs_with_room<H>(
    dirs: Map<Seq<u8>, EntryModel<H>>,
    lru: Seq<Seq<u8>>,
    max: nat,
) -> Map<Seq<u8>, EntryModel<H>> {
    dirs.remove_keys(evicted(dirs, lru, max).to_set())
}

/// The order that is left when room has been made: what stays keeps its place.
pub open spec fn lru_with_room<H>(
    dirs: Map<Seq<u8>, EntryModel<H>>,
    lru: Seq<Seq<u8>>,
    max: nat,
) -> Seq<Seq<u8>> {
    lru.filter(outside(evicted(dirs, lru, max).to_set()))
}

/// The order in the middle of the search for unused directories, which has gone through
/// `seen` directories: the used ones among these, and what the search has not met.
spec fn order_in_search<H>(
    dirs: Map<Seq<u8>, EntryModel<H>>,
    lru: Seq<Seq<u8>>,
    seen: int,
) -> Seq<Seq<u8>> {
    lru.take(seen).filter(busy_in(dirs)) + lru.skip(seen)
}

/// One step of that search: the next directory is passed over where it is used, and taken
/// out where it is not.
proof fn lemma_search_step<H>(dirs: Map<Seq<u8>, EntryModel<H>>, lru: Seq<Seq<u8>>, seen: int)
    requires
        lru.no_duplicates(),
        0 <= seen < lru.len(),
    ensures
        ({
            let order = order_in_search(dirs, lru, seen);
            let idle = idle_in(dirs);
            let used = busy_in(dirs);
            let passed = lru.take(seen).filter(used);
            let path = lru[seen];
            &&& order[passed.len() as int] == path
            &&& !lru.take(seen).filter(idle).contains(path)
            &&& used(path) ==> {
                &&& order == order_in_search(dirs, lru, seen + 1)
                &&& lru.take(seen + 1).filter(used) == passed.push(path)
                &&& lru.take(seen + 1).filter(idle) == lru.take(seen).filter(idle)
            }
            &&& idle(path) ==> {
                &&& crate::order::without(order, path) == order_in_search(dirs, lru, seen + 1)
                &&& lru.take(seen + 1).filter(idle) == lru.take(seen).filter(idle).push(path)
                &&& lru.take(seen + 1).filter(used) == passed
            }
        }),
{
    let idle = idle_in(dirs);
    let used = busy_in(dirs);
    let first = lru.take(seen);
    let rest = lru.skip(seen + 1);
    let passed = first.filter(used);
    let path = lru[seen];
    crate::order::filter_members(first, idle);
    crate::order::filter_members(first, used);
    assert(lru.take(seen + 1).drop_last() =~= first);
    assert(lru.take(seen + 1).last() == path);
    assert(!first.contains(path));
    assert(!rest.contains(path)) by {
        if rest.contains(path) {
            let i = choose|i: int| 0 <= i < rest.len() && rest[i] == path;
            assert(lru[seen + 1 + i] == path);
        }
    }
    assert(lru.skip(seen) =~= seq![path] + rest);
    if used(path) {
        reveal(Seq::filter);
        assert(passed + lru.skip(seen) =~= passed.push(path) + rest);
    } else {
        let keep = crate::order::other_than(path);
        crate::order::filter_all(passed, keep);
        crate::order::filter_all(rest, keep);
        crate::order::filter_concat(passed, lru.skip(seen), keep);
        crate::order::filter_concat(seq![path], rest, keep);
        crate::order::filter_members(seq![path], keep);
        let one = seq![path].filter(keep);
        if one.len() > 0 {
            assert(one.contains(one[0]));
        }
        assert(one + rest =~= rest);
        reveal(Seq::filter);
    }
}

/// What the search for unused directories has come to once it stops, after it has gone
/// through `seen` directories.
proof fn lemma_room<H>(dirs: Map<Seq<u8>, EntryModel<H>>, lru: Seq<Seq<u8>>, max: nat, seen: int)
    requires
        lru.no_duplicates(),
        0 <= seen <= lru.len(),
        lru.take(seen).filter(idle_in(dirs)).len() <= surplus(lru.len(), max),
        seen == lru.len() || lru.take(seen).filter(idle_in(dirs)).len() == surplus(lru.len(), max),
    ensures
        lru.take(seen).filter(idle_in(dirs)) == evicted(dirs, lru, max),
        lru_with_room(dirs, lru, max) == order_in_search(dirs, lru, seen),
{
    let idle = lru.filter(idle_in(dirs));
    let first = lru.take(seen);
    let rest = lru.skip(seen);
    let gone = first.filter(idle_in(dirs));
    let left = outside(gone.to_set());
    assert(lru =~= first + rest);
    crate::order::filter_concat(first, rest, idle_in(dirs));
    assert(idle.take(gone.len() as int) =~= gone);
    if seen == lru.len() {
        assert(first =~= lru);
        assert(idle.take(idle.len() as int) =~= idle);
    }
    crate::order::filter_members(first, idle_in(dirs));
    crate::order::filter_concat(first, rest, left);
    crate::order::filter_agree(first, left, busy_in(dirs));
    assert forall|p: Seq<u8>| #[trigger] rest.contains(p) implies left(p) by {
        let i = choose|i: int| 0 <= i < rest.len() && rest[i] == p;
        if first.contains(p) {
            let k = choose|k: int| 0 <= k < first.len() && first[k] == p;
            assert(lru[k] == lru[seen + i]);
        }
    }
    crate::order::filter_all(rest, left);
}

/// What the daemon's state amounts to.
#[verifier::ext_equal]
pub struct StateModel<H> {
    /// The indexed directories.
    pub dirs: Map<Seq<u8>, EntryModel<H>>,
    /// Their paths, the one that was used last at the end.
    pub lru: Seq<Seq<u8>>,
    /// When a directory was last used.
    pub latest: u128,
    /// How the daemon is set up.
    pub settings: Settings,
}

impl<H> StateModel<H> {
    /// The time of a use now: time does not run backwards.
    pub open spec fn clock(self, now: u128) -> u128 {
        if now > self.latest {
            now
        } else {
            self.latest
        }
    }

    /// Whether the path could be made canonical and its directory is indexed.
    pub open spec fn holds(self, canonical: Result<FsPath, String>) -> bool {
        canonical is Ok && self.dirs.contains_key(canonical->Ok_0@)
    }

    /// The state with the directory `path` used now.
    pub open spec fn touched(self, path: Seq<u8>, now: u128) -> StateModel<H> {
        StateModel {
            dirs: self.dirs.insert(
                path,
                EntryModel { last_accessed: self.clock(now), ..self.dirs[path] },
            ),
            lru: crate::order::without(self.lru, path).push(path),
            latest: self.clock(now),
            ..self
        }
    }

    /// The state after a look at the directory, which counts as a use of it.
    pub open spec fn used(self, canonical: Result<FsPath, String>, now: u128) -> StateModel<H> {
        if self.holds(canonical) {
            self.touched(canonical->Ok_0@, now)
        } else {
            self
        }
    }

    /// The state after the client has left the directory.
    pub open spec fn released(
        self,
        canonical: Result<FsPath, String>,
        client: Client,
    ) -> StateModel<H> {
        if self.holds(canonical) {
            let path = canonical->Ok_0@;
            StateModel {
                dirs: self.dirs.insert(path, self.dirs[path].left_by(client)),
                ..self
            }
        } else {
            self
        }
    }

    /// The state without the directory.
    pub open spec fn dropped(self, canonical: Result<FsPath, String>) -> StateModel<H> {
        if self.holds(canonical) {
            let path = canonical->Ok_0@;
            StateModel {
                dirs: self.dirs.remove(path),
                lru: crate::order::without(self.lru, path),
                ..self
            }
        } else {
            self
        }
    }

    /// The state with room for one more directory, as far as room can be made.
    pub open spec fn with_room(self) -> StateModel<H> {
        let max = self.settings.max_directories as nat;
        StateModel {
            dirs: dirs_with_room(self.dirs, self.lru, max),
            lru: lru_with_room(self.dirs, self.lru, max),
            ..self
        }
    }

    /// The state after a request for the directory: one that is indexed is used and gets
    /// the client, and for any other one room is made.
    pub open spec fn ensured(
        self,
        canonical: Result<FsPath, String>,
        client: Client,
        now: u128,
    ) -> StateModel<H> {
        if canonical is Err {
            self
        } else if self.holds(canonical) {
            let path = canonical->Ok_0@;
            let touched = self.touched(path, now);
            StateModel {
                dirs: touched.dirs.insert(path, touched.dirs[path].joined_by(client)),
                ..touched
            }
        } else {
            self.with_room()
        }
    }

    /// The state with a directory that has just been opened.
    pub open spec fn with_opened(
        self,
        path: Seq<u8>,
        handles: H,
        client: Client,
        now: u128,
    ) -> StateModel<H> {
        StateModel {
            dirs: self.dirs.insert(path, new_entry(handles, client, self.clock(now))),
            lru: self.lru.push(path),
            latest: self.clock(now),
            ..self
        }
    }

    /// The state without the directories that have been idle for too long.
    pub open spec fn without_idle(self, now: u128) -> StateModel<H> {
        StateModel {
            dirs: dirs_kept(self.dirs, now, self.settings.idle_timeout),
            lru: self.lru.filter(kept_in(self.dirs, now, self.settings.idle_timeout)),
            ..self
        }
    }

    /// The state with other places for the databases.
    pub open spec fn with_db(
        self,
        frecency_db_path: String,
        history_db_path: String,
        use_unsafe_no_lock: bool,
    ) -> StateModel<H> {
        StateModel {
            settings: Settings {
                frecency_db_base: Some(frecency_db_path),
                history_db_base: Some(history_db_path),
                db_unsafe_no_lock: use_unsafe_no_lock,
                ..self.settings
            },
            ..self
        }
    }
}

impl<H> View for DaemonState<H> {
    type V = StateModel<H>;

    closed spec fn view(&self) -> StateModel<H> {
        StateModel {
            dirs: self.dirs(),
            lru: self.lru(),
            latest: self.latest,
            settings: self.config,
        }
    }
}

/// The database of the directory `path` under `base`, where a base is set: the hash of
/// the path names it.
pub open spec fn db_path(base: Option<String>, path: Seq<u8>) -> Option<Seq<u8>> {
    match base {
        Some(base) => Some(
            crate::path::joined(
                encode_utf8(base@),
                encode_utf8(crate::text::hex_digits(crate::hash::fnv1a(path) as nat, 16)),
            ),
        ),
        None => None,
    }
}

/// The bytes of a path that may be absent.
pub open spec fn opt_bytes(path: Option<FsPath>) -> Option<Seq<u8>> {
    match path {
        Some(path) => Some(path@),
        None => None,
    }
}

/// How the search engine treats the files of a directory.
#[derive(Debug, Clone, Copy, PartialEq, Eq, Structural)]
pub enum PickerMode {
    Neovim,
}

/// What the search engine is to be told when it opens a directory.
#[derive(Debug)]
pub struct OpenPlan {
    /// The canonical path of the directory.
    pub path: FsPath,
    /// The same path as text.
    pub base_path: String,
    /// The database of access scores, to be created where it is missing.
    pub frecency_db: Option<FsPath>,
    /// The database of query histories, to be created where it is missing.
    pub history_db: Option<FsPath>,
    /// Whether the databases are opened without a lock.
    pub db_unsafe_no_lock: bool,
    pub enable_mmap_cache: bool,
    pub enable_content_indexing: bool,
    pub mode: PickerMode,
    pub watch: bool,
    pub watch_git_events: bool,
    /// The client that asks for the directory.
    pub client: Client,
}

impl OpenPlan {
    /// This is what opening `path` takes under these settings.
    pub open spec fn opens(
        self,
        path: Seq<u8>,
        settings: Settings,
        watch_git_events: bool,
        client: Client,
    ) -> bool {
        &&& self.path@ == path
        &&& self.base_path@ == crate::path::lossy_text(path)
        &&& opt_bytes(self.frecency_db) == db_path(settings.frecency_db_base, path)
        &&& opt_bytes(self.history_db) == db_path(settings.history_db_base, path)
        &&& self.db_unsafe_no_lock == settings.db_unsafe_no_lock
        &&& self.enable_mmap_cache
        &&& self.enable_content_indexing
        &&& self.mode == PickerMode::Neovim
        &&& self.watch
        &&& self.watch_git_events == watch_git_events
        &&& self.client == client
    }
}

/// How far a request for a directory has come.
#[derive(Debug)]
pub enum Ensured {
    /// The directory is indexed.
    Present,
    /// The search engine has to open it.
    Missing(OpenPlan),
    /// It cannot be had.
    Failed(String),
}

/// What is said where a path has no canonical form.
pub open spec fn no_canonical_path(reason: Seq<char>) -> Seq<char> {
    "failed to canonicalize path: "@ + reason
}

/// What is said where the search engine cannot open a directory.
pub open spec fn no_picker(reason: Seq<char>) -> Seq<char> {
    "failed to init file picker: "@ + reason
}

/// What is said of a path whose directory is not indexed.
pub open spec fn not_indexed(path: Seq<u8>) -> Seq<char> {
    "directory not indexed: "@ + crate::path::lossy_text(path)
}

/// The entry of a directory that has just been opened.
pub open spec fn new_entry<H>(handles: H, client: Client, now: u128) -> EntryModel<H> {
    EntryModel { handles, last_accessed: now, clients: Map::empty() }.joined_by(client)
}

/// What a listing shows of a scan: nothing is going on where the engine says nothing.
pub open spec fn shown_progress(progress: Option<ScanProgressWire>) -> (bool, usize) {
    match progress {
        Some(progress) => (progress.is_scanning, progress.scanned_files_count),
        None => (false, 0),
    }
}

/// `info` describes the entry: the processes that are known to use it, each once and in
/// ascending order, their number, and what `probe` says of its scan.
pub open spec fn describes<H, F: Fn(&H) -> Option<ScanProgressWire>>(
    info: DirectoryInfoWire,
    entry: EntryModel<H>,
    probe: F,
) -> bool {
    &&& exists|progress: Option<ScanProgressWire>| #[trigger]
        call_ensures(probe, (&entry.handles,), progress) && (info.is_scanning, info.file_count)
            == shown_progress(progress)
    &&& info.client_count == info.client_pids@.len()
    &&& forall|a: int, b: int|
        0 <= a < b < info.client_pids@.len() ==> info.client_pids@[a] < info.client_pids@[b]
    &&& info.client_pids@.to_set() == entry.pids()
}

/// The paths of a listing.
pub open spec fn listed_paths(infos: Seq<DirectoryInfoWire>) -> Seq<Seq<u8>> {
    infos.map_values(|info: DirectoryInfoWire| info.path@)
}

/// `infos` lists every directory once, and describes it.
pub open spec fn lists<H, F: Fn(&H) -> Option<ScanProgressWire>>(
    infos: Seq<DirectoryInfoWire>,
    dirs: Map<Seq<u8>, EntryModel<H>>,
    probe: F,
) -> bool {
    &&& listed_paths(infos).no_duplicates()
    &&& forall|p: Seq<u8>| #[trigger] listed_paths(infos).contains(p) <==> dirs.contains_key(p)
    &&& forall|k: int|
        0 <= k < infos.len() ==> describes(#[trigger] infos[k], dirs[infos[k].path@], probe)
}

/// The processes that are known among the clients, each once and in ascending order.
fn sorted_pids(clients: &HashMap<u64, Option<u32>>) -> (res: Vec<u32>)
    ensures
        forall|a: int, b: int| 0 <= a < b < res@.len() ==> res@[a] < res@[b],
        forall|pid: u32| #[trigger] res@.contains(pid) <==> clients@.values().contains(Some(pid)),
{
    let mut res: Vec<u32> = Vec::new();
    for known in it: clients.values()
        invariant
            it.seq().unref().to_set() == clients@.values(),
            forall|a: int, b: int| 0 <= a < b < res@.len() ==> res@[a] < res@[b],
            forall|x: u32| #[trigger]
                res@.contains(x) <==> it.seq().unref().take(it.index()).contains(Some(x)),
            it.index() == it.seq().len() ==> forall|x: u32| #[trigger]
                res@.contains(x) <==> clients@.values().contains(Some(x)),
    {
        let ghost held = res@;
        let ghost all = it.seq().unref();
        let ghost done = all.take(it.index());
        if let Some(pid) = *known {
            let mut at: usize = 0;
            while at < res.len() && res[at] < pid
                invariant
                    at <= res@.len(),
                    forall|k: int| 0 <= k < at ==> res@[k] < pid,
                decreases res@.len() - at,
            {
                at += 1;
            }
            if at == res.len() || res[at] != pid {
                res.insert(at, pid);
                proof {
                    lemma_inserted(held, at as int, pid);
                }
            } else {
                assert(held.contains(held[at as int]));
            }
        }
        proof {
            assert(all[it.index()] == *known);
            assert(all.take(it.index() + 1) =~= done.push(*known));
            assert(all.take(all.len() as int) =~= all);
            lemma_pushed(done, *known);
            assert forall|x: u32| #[trigger] res@.contains(x) <==> all.take(
                it.index() + 1,
            ).contains(Some(x)) by {
                assert(held.contains(x) <==> done.contains(Some(x)));
            }
            assert forall|x: u32|
                it.index() + 1 == all.len() implies #[trigger] res@.contains(x)
                == clients@.values().contains(Some(x)) by {
                assert(all.to_set().contains(Some(x)) <==> all.contains(Some(x)));
            }
        }
    }
    res
}

/// An item that is put into a list joins its members.
proof fn lemma_inserted(s: Seq<u32>, at: int, pid: u32)
    requires
        0 <= at <= s.len(),
    ensures
        forall|x: u32| #[trigger] s.insert(at, pid).contains(x) <==> s.contains(x) || x == pid,
{
    let after = s.insert(at, pid);
    assert forall|x: u32| #[trigger] after.contains(x) <==> s.contains(x) || x == pid by {
        if after.contains(x) {
            let k = choose|k: int| 0 <= k < after.len() && after[k] == x;
            if k < at {
                assert(s[k] == x);
            } else if k > at {
                assert(s[k - 1] == x);
            }
        }
        if s.contains(x) {
            let k = choose|k: int| 0 <= k < s.len() && s[k] == x;
            if k < at {
                assert(after[k] == x);
            } else {
                assert(after[k + 1] == x);
            }
        }
        if x == pid {
            assert(after[at] == x);
        }
    }
}

/// An item behind a list joins its members.
proof fn lemma_pushed(s: Seq<Option<u32>>, last: Option<u32>)
    ensures
        forall|x: Option<u32>| #[trigger] s.push(last).contains(x) <==> s.contains(x) || x == last,
{
    let after = s.push(last);
    assert forall|x: Option<u32>| #[trigger] after.contains(x) <==> s.contains(x) || x == last by {
        if after.contains(x) {
            let k = choose|k: int| 0 <= k < after.len() && after[k] == x;
            if k < s.len() {
                assert(s[k] == x);
            }
        }
        if s.contains(x) {
            let k = choose|k: int| 0 <= k < s.len() && s[k] == x;
            assert(after[k] == x);
        }
        if x == last {
            assert(after[s.len() as int] == x);
        }
    }
}

impl<H> DaemonState<H> {
    spec fn dirs(&self) -> Map<Seq<u8>, EntryModel<H>> {
        dirs_of(self.directories@)
    }

    spec fn lru(&self) -> Seq<Seq<u8>> {
        crate::order::bytes_of(self.lru_order@)
    }

    /// The order holds every indexed directory once, and nothing else, and goes by the time
    /// of the last use.
    pub closed spec fn wf(&self) -> bool {
        &&& paths_of(self.directories@).no_duplicates()
        &&& in_time(self@)
        &&& self.lru().len() == self.directories@.len()
    }

    /// Every state that the daemon can be in has the order hold every indexed directory
    /// once, and nothing else, the one whose last use lies furthest back at the front.
    pub proof fn order_lists_directories(&self)
        requires
            self.wf(),
        ensures
            in_time(self@),
    {
    }

    /// A state without directories.
    pub fn new(max_directories: usize, idle_timeout: u128) -> (res: DaemonState<H>)
        ensures
            res.wf(),
            res@ == (StateModel::<H> {
                dirs: Map::empty(),
                lru: Seq::empty(),
                latest: 0,
                settings: Settings {
                    max_directories,
                    idle_timeout,
                    frecency_db_base: None,
                    history_db_base: None,
                    db_unsafe_no_lock: false,
                },
            }),
    {
        let res = DaemonState {
            directories: Vec::new(),
            lru_order: VecDeque::new(),
            latest: 0,
            config: Settings {
                max_directories,
                idle_timeout,
                frecency_db_base: None,
                history_db_base: None,
                db_unsafe_no_lock: false,
            },
        };
        assert(res.dirs() =~= Map::<Seq<u8>, EntryModel<H>>::empty());
        assert(res.lru() =~= Seq::<Seq<u8>>::empty());
        res
    }

    /// Notes where the databases of directories indexed from now on are to lie.
    pub fn init_db(
        &mut self,
        frecency_db_path: String,
        history_db_path: String,
        use_unsafe_no_lock: bool,
    )
        requires
            old(self).wf(),
        ensures
            final(self).wf(),
            final(self)@ == old(self)@.with_db(
                frecency_db_path,
                history_db_path,
                use_unsafe_no_lock,
            ),
    {
        self.config.frecency_db_base = Some(frecency_db_path);
        self.config.history_db_base = Some(history_db_path);
        self.config.db_unsafe_no_lock = use_unsafe_no_lock;
    }

    /// Where the directory stands in the list.
    fn find(&self, path: &FsPath) -> (res: Option<usize>)
        ensures
            match res {
                Some(i) => i < self.directories@.len() && self.directories@[i as int].path@
                    == path@,
                None => !self.dirs().contains_key(path@),
            },
    {
        let mut i: usize = 0;
        while i < self.directories.len()
            invariant
                i <= self.directories@.len(),
                forall|k: int| 0 <= k < i ==> self.directories@[k].path@ != path@,
            decreases self.directories@.len() - i,
        {
            if self.directories[i].path.same(path) {
                return Some(i);
            }
            i += 1;
        }
        None
    }

    /// Whether the directory at this canonical path is indexed.
    pub fn is_indexed(&self, path: &FsPath) -> (res: bool)
        requires
            self.wf(),
        ensures
            res == self@.dirs.contains_key(path@),
    {
        match self.find(path) {
            Some(i) => {
                proof {
                    lemma_entry(self.directories@, i as int);
                }
                true
            },
            None => false,
        }
    }

    /// Whether no directory is indexed.
    pub fn is_empty(&self) -> (res: bool)
        requires
            self.wf(),
        ensures
            res == (self@.dirs == Map::<Seq<u8>, EntryModel<H>>::empty()),
    {
        let res = self.directories.len() == 0;
        proof {
            if res {
                assert(self.dirs() =~= Map::<Seq<u8>, EntryModel<H>>::empty());
            } else {
                lemma_entry(self.directories@, 0);
            }
        }
        res
    }

    /// Makes the directory the one that was used last, now.
    fn touch(&mut self, path: &FsPath, now: u128)
        requires
            old(self).wf(),
            old(self).dirs().contains_key(path@),
        ensures
            final(self).wf(),
            final(self)@ == old(self)@.touched(path@, now),
    {
        let ghost before = self@;
        let ghost ds = self.directories@;
        if now > self.latest {
            self.latest = now;
        }
        if let Some(i) = self.find(path) {
            self.directories[i].entry.last_accessed = self.latest;
            proof {
                lemma_entry(ds, i as int);
                lemma_update(ds, i as int, self.directories@[i as int]);
                assert(self.directories@ =~= ds.update(i as int, self.directories@[i as int]));
            }
        }
        let ghost order = self.lru();
        forget(&mut self.lru_order, path);
        self.lru_order.push_back(path.clone());
        proof {
            crate::order::without_facts(order, path@);
            crate::order::push_facts(crate::order::without(order, path@), path@);
            assert(self.lru() =~= crate::order::without(order, path@).push(path@));
            crate::recency::use_keeps_time(before, path@, now);
            assert(self@ =~= before.touched(path@, now));
        }
    }

    /// Takes the directory at `i` out of the list and out of the order.
    fn remove_at(&mut self, i: usize)
        requires
            old(self).wf(),
            i < old(self).directories@.len(),
        ensures
            final(self).wf(),
            final(self).config == old(self).config,
            final(self).latest == old(self).latest,
            final(self).directories@ == old(self).directories@.remove(i as int),
            ({
                let path = old(self).directories@[i as int].path@;
                &&& final(self).dirs() == old(self).dirs().remove(path)
                &&& final(self).lru() == crate::order::without(old(self).lru(), path)
            }),
    {
        let ghost before = self@;
        let ghost ds = self.directories@;
        let ghost order = self.lru();
        let gone = self.directories.remove(i);
        forget(&mut self.lru_order, &gone.path);
        proof {
            lemma_entry(ds, i as int);
            lemma_remove(ds, i as int);
            crate::order::without_facts(order, gone.path@);
            crate::recency::removal_keeps_time(before, gone.path@);
        }
    }

    /// Makes room for one more directory. The unused ones go in the order of their last use
    /// until there is room, and every other one keeps its place in that order.
    pub fn evict_if_needed(&mut self)
        requires
            old(self).wf(),
        ensures
            final(self).wf(),
            final(self)@ == old(self)@.with_room(),
            forall|gone: Seq<u8>, kept: Seq<u8>|
                #![trigger old(self)@.dirs.contains_key(gone), final(self)@.dirs.contains_key(kept)]
                old(self)@.dirs.contains_key(gone) && !final(self)@.dirs.contains_key(gone)
                    && final(self)@.dirs.contains_key(kept) && !final(self)@.dirs[kept].busy()
                    ==> old(self)@.dirs[gone].last_accessed <= old(
                    self,
                )@.dirs[kept].last_accessed,
    {
        let ghost before = self@;
        let ghost latest = self.latest;
        let ghost dirs = self.dirs();
        let ghost lru = self.lru();
        let ghost max = self.config.max_directories as nat;
        let ghost config = self.config;
        let ghost idle = idle_in(dirs);
        let ghost used = busy_in(dirs);
        let ghost mut seen: int = 0;
        let mut at: usize = 0;
        proof {
            reveal(Seq::filter);
            assert(lru.take(0).filter(used) + lru.skip(0) =~= lru);
            assert(lru.take(0).filter(idle).to_set() =~= Set::<Seq<u8>>::empty());
            assert(dirs.remove_keys(Set::<Seq<u8>>::empty()) =~= dirs);
        }
        while at < self.lru_order.len() && self.directories.len() >= self.config.max_directories
            invariant
                self.wf(),
                self.config == config,
                self.latest == latest,
                max == config.max_directories,
                lru.no_duplicates(),
                forall|p: Seq<u8>| #[trigger] lru.contains(p) <==> dirs.contains_key(p),
                idle == idle_in(dirs),
                used == busy_in(dirs),
                0 <= seen <= lru.len(),
                at == lru.take(seen).filter(used).len(),
                self.dirs() == dirs.remove_keys(lru.take(seen).filter(idle).to_set()),
                self.lru() == order_in_search(dirs, lru, seen),
                self.directories@.len() == lru.len() - lru.take(seen).filter(idle).len(),
                lru.take(seen).filter(idle).len() <= surplus(lru.len(), max),
            decreases lru.len() - seen,
        {
            let ghost ds = self.directories@;
            let ghost path = lru[seen];
            proof {
                lemma_search_step(dirs, lru, seen);
                assert(self.lru()[at as int] == path);
                assert(lru.contains(path));
                assert(self.lru().contains(path));
            }
            if let Some(i) = self.find(&self.lru_order[at]) {
                proof {
                    lemma_entry(ds, i as int);
                }
                if self.directories[i].entry.clients.is_empty() {
                    proof {
                        let gone = lru.take(seen).filter(idle);
                        assert(self.directories@[i as int].entry.clients@ =~= Map::<
                            u64,
                            Option<u32>,
                        >::empty());
                        crate::order::push_facts(gone, path);
                        assert(gone.push(path).to_set() =~= gone.to_set().insert(path));
                        assert(dirs.remove_keys(gone.to_set().insert(path)) =~= dirs.remove_keys(
                            gone.to_set(),
                        ).remove(path));
                    }
                    self.remove_at(i);
                } else {
                    at += 1;
                }
                proof {
                    seen = seen + 1;
                }
            }
        }
        proof {
            lemma_room(dirs, lru, max, seen);
            assert(self@ =~= before.with_room());
            assert forall|gone: Seq<u8>, kept: Seq<u8>|
                #![trigger before.dirs.contains_key(gone), self@.dirs.contains_key(kept)]
                before.dirs.contains_key(gone) && !self@.dirs.contains_key(gone)
                    && self@.dirs.contains_key(kept)
                    && !self@.dirs[kept].busy() implies before.dirs[gone].last_accessed
                <= before.dirs[kept].last_accessed by {
                crate::recency::least_recently_used_goes_first(before, gone, kept);
            }
        }
    }

    /// Drops the directories that nobody uses and whose last use lies longer back than
    /// the idle timeout.
    pub fn evict_idle(&mut self, now: u128)
        requires
            old(self).wf(),
        ensures
            final(self).wf(),
            final(self)@ == old(self)@.without_idle(now),
    {
        let ghost dirs = self.dirs();
        let ghost lru = self.lru();
        let ghost config = self.config;
        let ghost latest = self.latest;
        let idle_timeout: u128 = self.config.idle_timeout;
        let ghost mut gone: Set<Seq<u8>> = Set::empty();
        proof {
            assert(dirs.remove_keys(gone) =~= dirs);
            crate::order::filter_all(lru, outside(gone));
        }
        let mut i: usize = 0;
        while i < self.directories.len()
            invariant
                i <= self.directories@.len(),
                self.wf(),
                self.config == config,
                self.latest == latest,
                idle_timeout == config.idle_timeout,
                forall|p: Seq<u8>| #[trigger] lru.contains(p) <==> dirs.contains_key(p),
                self.dirs() == dirs.remove_keys(gone),
                self.lru() == lru.filter(outside(gone)),
                forall|p: Seq<u8>| #[trigger]
                    gone.contains(p) ==> dirs.contains_key(p) && dirs[p].stale(now, idle_timeout),
                forall|k: int|
                    0 <= k < i ==> !(#[trigger] self.directories@[k]).entry@.stale(
                        now,
                        idle_timeout,
                    ),
            decreases self.directories@.len() - i,
        {
            let entry = &self.directories[i].entry;
            let ghost path = self.directories@[i as int].path@;
            proof {
                lemma_entry(self.directories@, i as int);
            }
            let stale = entry.clients.is_empty() && now > entry.last_accessed && now
                - entry.last_accessed > idle_timeout;
            if stale {
                assert(entry.clients@ =~= Map::<u64, Option<u32>>::empty());
                self.remove_at(i);
                proof {
                    crate::order::filter_twice(lru, outside(gone), crate::order::other_than(path));
                    crate::order::filter_agree(
                        lru,
                        |x: Seq<u8>| outside(gone)(x) && crate::order::other_than(path)(x),
                        outside(gone.insert(path)),
                    );
                    assert(dirs.remove_keys(gone.insert(path)) =~= dirs.remove_keys(gone).remove(
                        path,
                    ));
                    gone = gone.insert(path);
                }
            } else {
                i += 1;
            }
        }
        proof {
            let ds = self.directories@;
            assert forall|p: Seq<u8>| #[trigger] dirs.contains_key(p) implies gone.contains(p)
                == dirs[p].stale(now, idle_timeout) by {
                if !gone.contains(p) {
                    assert(self.dirs().contains_key(p));
                    let k = lemma_key(ds, p);
                    assert(!ds[k].entry@.stale(now, idle_timeout));
                }
            }
            crate::order::filter_agree(lru, outside(gone), kept_in(dirs, now, idle_timeout));
            assert(self.dirs() =~= dirs_kept(dirs, now, idle_timeout));
        }
    }

    /// Takes the client off the directory, where it is indexed, and says whether it is.
    /// `canonical` is the directory's canonical path, or why there is none.
    pub fn release_client(
        &mut self,
        canonical: &Result<FsPath, String>,
        client: Client,
    ) -> (res: bool)
        requires
            old(self).wf(),
        ensures
            final(self).wf(),
            final(self)@ == old(self)@.released(*canonical, client),
            res == old(self)@.holds(*canonical),
    {
        let path = match canonical {
            Ok(path) => path,
            Err(_) => {
                return false;
            },
        };
        let ghost before = self@;
        let ghost ds = self.directories@;
        if let Some(i) = self.find(path) {
            proof {
                lemma_entry(ds, i as int);
            }
            self.directories[i].entry.clients.remove(&client.connection);
            proof {
                assert(self.directories@ =~= ds.update(i as int, self.directories@[i as int]));
                lemma_update(ds, i as int, self.directories@[i as int]);
                let entry = self.directories@[i as int].entry@;
                crate::recency::update_keeps_time(before, path@, entry);
            }
            true
        } else {
            false
        }
    }

    /// Forgets the directory, where it is indexed, and says whether it was.
    pub fn drop_directory(&mut self, canonical: &Result<FsPath, String>) -> (res: bool)
        requires
            old(self).wf(),
        ensures
            final(self).wf(),
            final(self)@ == old(self)@.dropped(*canonical),
            res == old(self)@.holds(*canonical),
    {
        let path = match canonical {
            Ok(path) => path,
            Err(_) => {
                return false;
            },
        };
        if let Some(i) = self.find(path) {
            proof {
                lemma_entry(self.directories@, i as int);
            }
            self.remove_at(i);
            true
        } else {
            false
        }
    }

    /// Where the databases of the directory lie.
    fn db_paths_for(&self, base_path: &FsPath) -> (res: (Option<FsPath>, Option<FsPath>))
        ensures
            opt_bytes(res.0) == db_path(self@.settings.frecency_db_base, base_path@),
            opt_bytes(res.1) == db_path(self@.settings.history_db_base, base_path@),
    {
        let hash = stable_path_hash(base_path);
        let name = FsPath::from_text(hash.as_str());
        let frecency = match &self.config.frecency_db_base {
            Some(base) => Some(FsPath::from_text(base.as_str()).join(&name)),
            None => None,
        };
        let history = match &self.config.history_db_base {
            Some(base) => Some(FsPath::from_text(base.as_str()).join(&name)),
            None => None,
        };
        (frecency, history)
    }

    /// Sees to it that the directory is indexed. One that is gets the client and counts as
    /// used now. For any other one room is made, and the search engine has to open it;
    /// what comes of that goes to `directory_opened`.
    pub fn ensure_directory(
        &mut self,
        canonical: &Result<FsPath, String>,
        watch_git_events: bool,
        client: Client,
        now: u128,
    ) -> (res: Ensured)
        requires
            old(self).wf(),
        ensures
            final(self).wf(),
            final(self)@ == old(self)@.ensured(*canonical, client, now),
            canonical matches Ok(path) ==> (old(self)@.dirs.contains_key(path@) ==> {
                &&& final(self)@.lru.last() == path@
                &&& final(self)@.dirs[path@].last_accessed == (if now > old(self)@.latest {
                    now
                } else {
                    old(self)@.latest
                })
                &&& final(self)@.dirs[path@].clients.contains_key(client.connection)
            }),
            match canonical {
                Err(e) => res matches Ensured::Failed(message) && message@ == no_canonical_path(e@),
                Ok(path) if old(self)@.dirs.contains_key(path@) => res is Present,
                Ok(path) => res matches Ensured::Missing(plan) && plan.opens(
                    path@,
                    old(self)@.settings,
                    watch_git_events,
                    client,
                ),
            },
    {
        let path = match canonical {
            Ok(path) => path,
            Err(e) => {
                return Ensured::Failed(prefixed("failed to canonicalize path: ", e.as_str()));
            },
        };
        let present = self.find(path);
        if present.is_some() {
            proof {
                lemma_entry(self.directories@, present->0 as int);
            }
            self.touch(path, now);
            let ghost used = self@;
            let ghost ds = self.directories@;
            if let Some(i) = self.find(path) {
                self.directories[i].entry.clients.insert(client.connection, client.pid);
                proof {
                    lemma_entry(ds, i as int);
                    assert(self.directories@ =~= ds.update(i as int, self.directories@[i as int]));
                    lemma_update(ds, i as int, self.directories@[i as int]);
                    let entry = self.directories@[i as int].entry@;
                    crate::recency::update_keeps_time(used, path@, entry);
                }
            }
            return Ensured::Present;
        }
        self.evict_if_needed();
        let (frecency_db, history_db) = self.db_paths_for(path);
        Ensured::Missing(
            OpenPlan {
                path: path.clone(),
                base_path: path.display(),
                frecency_db,
                history_db,
                db_unsafe_no_lock: self.config.db_unsafe_no_lock,
                enable_mmap_cache: true,
                enable_content_indexing: true,
                mode: PickerMode::Neovim,
                watch: true,
                watch_git_events,
                client,
            },
        )
    }

    /// Takes in a directory that the search engine has opened, or says why it has not.
    pub fn directory_opened(
        &mut self,
        plan: OpenPlan,
        opened: Result<H, String>,
        now: u128,
    ) -> (res: Result<(), String>)
        requires
            old(self).wf(),
            !old(self)@.dirs.contains_key(plan.path@),
        ensures
            final(self).wf(),
            match opened {
                Ok(handles) => {
                    &&& res is Ok
                    &&& final(self)@ == old(self)@.with_opened(
                        plan.path@,
                        handles,
                        plan.client,
                        now,
                    )
                },
                Err(e) => {
                    &&& res matches Err(message)
                    &&& message@ == no_picker(e@)
                    &&& final(self)@ == old(self)@
                },
            },
    {
        let handles = match opened {
            Ok(handles) => handles,
            Err(e) => {
                return Err(prefixed("failed to init file picker: ", e.as_str()));
            },
        };
        let mut clients: HashMap<u64, Option<u32>> = HashMap::new();
        clients.insert(plan.client.connection, plan.client.pid);
        let ghost before = self@;
        let ghost ds = self.directories@;
        let ghost order = self.lru();
        if now > self.latest {
            self.latest = now;
        }
        let entry = DirectoryEntry { handles, last_accessed: self.latest, clients };
        let path = plan.path.clone();
        self.directories.push(Directory { path, entry });
        self.lru_order.push_back(plan.path);
        proof {
            lemma_push(ds, self.directories@.last());
            assert(self.directories@ =~= ds.push(self.directories@.last()));
            crate::order::push_facts(order, plan.path@);
            assert(self.lru() =~= order.push(plan.path@));
            crate::recency::opening_keeps_time(before, plan.path@, handles, plan.client, now);
            assert(self@ =~= before.with_opened(plan.path@, handles, plan.client, now));
        }
        Ok(())
    }

    /// The entry of the directory, where it is indexed. It counts as used now.
    pub fn get_directory(&mut self, canonical: &Result<FsPath, String>, now: u128) -> (res: Option<
        &DirectoryEntry<H>,
    >)
        requires
            old(self).wf(),
        ensures
            final(self).wf(),
            final(self)@ == old(self)@.used(*canonical, now),
            match canonical {
                Ok(path) if old(self)@.dirs.contains_key(path@) => res matches Some(entry)
                    && entry@ == final(self)@.dirs[path@],
                _ => res is None,
            },
    {
        let path = match canonical {
            Ok(path) => path,
            Err(_) => {
                return None;
            },
        };
        let present = self.find(path);
        if present.is_none() {
            return None;
        }
        proof {
            lemma_entry(self.directories@, present->0 as int);
        }
        self.touch(path, now);
        match self.find(path) {
            Some(i) => {
                proof {
                    lemma_entry(self.directories@, i as int);
                }
                Some(&self.directories[i].entry)
            },
            None => None,
        }
    }

    /// The handles of the directory, where it is indexed. This does not count as a use of
    /// the directory. `path` is the path as the client wrote it.
    pub fn get_handles(&self, path: &FsPath, canonical: &Result<FsPath, String>) -> (res: Result<
        H,
        String,
    >) where H: Clone
        requires
            self.wf(),
        ensures
            match canonical {
                Err(e) => res matches Err(message) && message@ == no_canonical_path(e@),
                Ok(at) if self@.dirs.contains_key(at@) => res matches Ok(handles) && cloned(
                    self@.dirs[at@].handles,
                    handles,
                ),
                Ok(at) => res matches Err(message) && message@ == not_indexed(path@),
            },
    {
        let at = match canonical {
            Ok(at) => at,
            Err(e) => {
                return Err(prefixed("failed to canonicalize path: ", e.as_str()));
            },
        };
        match self.find(at) {
            Some(i) => {
                proof {
                    lemma_entry(self.directories@, i as int);
                }
                Ok(self.directories[i].entry.handles.clone())
            },
            None => {
                let shown = path.display();
                Err(prefixed("directory not indexed: ", shown.as_str()))
            },
        }
    }

    /// Describes every indexed directory. `probe` asks the search engine how far the scan
    /// of a directory has come.
    pub fn list_directories<F: Fn(&H) -> Option<ScanProgressWire>>(&self, probe: &F) -> (res: Vec<
        DirectoryInfoWire,
    >)
        requires
            self.wf(),
            forall|handles: &H| #[trigger] call_requires(*probe, (handles,)),
        ensures
            lists(res@, self@.dirs, *probe),
    {
        let mut res: Vec<DirectoryInfoWire> = Vec::new();
        let ghost ds = self.directories@;
        let mut i: usize = 0;
        while i < self.directories.len()
            invariant
                self.wf(),
                ds == self.directories@,
                forall|handles: &H| #[trigger] call_requires(*probe, (handles,)),
                i <= ds.len(),
                res@.len() == i,
                forall|k: int|
                    0 <= k < i ==> (#[trigger] res@[k]).path@ == ds[k].path@ && describes(
                        res@[k],
                        ds[k].entry@,
                        *probe,
                    ),
            decreases ds.len() - i,
        {
            let entry = &self.directories[i].entry;
            let progress = probe(&entry.handles);
            let (is_scanning, file_count) = match &progress {
                Some(progress) => (progress.is_scanning, progress.scanned_files_count),
                None => (false, 0),
            };
            let client_pids = sorted_pids(&entry.clients);
            let info = DirectoryInfoWire {
                path: self.directories[i].path.clone(),
                is_scanning,
                file_count,
                client_count: client_pids.len(),
                client_pids,
            };
            proof {
                assert(call_ensures(*probe, (&entry@.handles,), progress));
                assert(info.client_pids@.to_set() =~= entry@.pids());
                assert(describes(info, entry@, *probe));
            }
            res.push(info);
            i += 1;
        }
        proof {
            assert(listed_paths(res@) =~= paths_of(ds));
            assert forall|k: int| 0 <= k < res@.len() implies describes(
                #[trigger] res@[k],
                self.dirs()[res@[k].path@],
                *probe,
            ) by {
                lemma_entry(ds, k);
            }
        }
        res
    }
}

/// A directory that some client uses stays, whether room is made for another one or
/// idle ones are dropped.
pub proof fn used_directories_stay<H>(
    dirs: Map<Seq<u8>, EntryModel<H>>,
    lru: Seq<Seq<u8>>,
    max: nat,
    now: u128,
    timeout: u128,
    path: Seq<u8>,
)
    requires
        dirs.contains_key(path),
        dirs[path].busy(),
    ensures
        dirs_with_room(dirs, lru, max).contains_key(path),
        dirs_with_room(dirs, lru, max)[path] == dirs[path],
        dirs_kept(dirs, now, timeout).contains_key(path),
        dirs_kept(dirs, now, timeout)[path] == dirs[path],
{
    let idle = lru.filter(idle_in(dirs));
    let gone = evicted(dirs, lru, max);
    crate::order::filter_members(lru, idle_in(dirs));
    if gone.contains(path) {
        let i = choose|i: int| 0 <= i < gone.len() && gone[i] == path;
        assert(idle[i] == path);
        assert(idle.contains(path));
    }
}

/// Of two directories that nobody uses, the one that comes first in the order goes first
/// when room is made.
pub proof fn front_goes_first<H>(
    dirs: Map<Seq<u8>, EntryModel<H>>,
    lru: Seq<Seq<u8>>,
    max: nat,
    a: int,
    b: int,
)
    requires
        lru.no_duplicates(),
        0 <= a < b < lru.len(),
        !dirs[lru[a]].busy(),
        evicted(dirs, lru, max).contains(lru[b]),
    ensures
        evicted(dirs, lru, max).contains(lru[a]),
{
    let keep = idle_in(dirs);
    let idle = lru.filter(keep);
    let gone = evicted(dirs, lru, max);
    let k = choose|k: int| 0 <= k < gone.len() && gone[k] == lru[b];
    let seen = crate::order::filter_prefix(lru, keep, k + 1);
    assert(lru[seen - 1] == lru[b]);
    assert(seen - 1 == b);
    let first = lru.take(seen);
    crate::order::filter_members(first, keep);
    assert(first[a] == lru[a]);
    assert(first.contains(lru[a]));
    assert(first.filter(keep).contains(lru[a]));
    let j = choose|j: int| 0 <= j < first.filter(keep).len() && first.filter(keep)[j] == lru[a];
    assert(gone[j] == lru[a]);
}

/// Room is made for another directory exactly where fewer directories are in use than
/// the limit allows.
pub proof fn room_is_made<H>(dirs: Map<Seq<u8>, EntryModel<H>>, lru: Seq<Seq<u8>>, max: nat)
    requires
        lru.no_duplicates(),
    ensures
        lru_with_room(dirs, lru, max).len() < max <==> lru.filter(busy_in(dirs)).len() < max,
        lru_with_room(dirs, lru, max).len() == lru.len() - evicted(dirs, lru, max).len(),
{
    let idle = lru.filter(idle_in(dirs));
    let gone = evicted(dirs, lru, max);
    let left = outside(gone.to_set());
    let out = |p: Seq<u8>| gone.contains(p);
    crate::order::filter_counts(lru, idle_in(dirs), busy_in(dirs));
    crate::order::filter_members(lru, idle_in(dirs));
    crate::order::filter_counts(lru, left, out);
    crate::order::filter_members(lru, out);
    assert(gone.no_duplicates());
    assert forall|p: Seq<u8>| #[trigger] gone.contains(p) implies lru.contains(p) by {
        let i = choose|i: int| 0 <= i < gone.len() && gone[i] == p;
        assert(idle[i] == p);
        assert(idle.contains(p));
    }
    assert(lru.filter(out).to_set() =~= gone.to_set());
    lru.filter(out).unique_seq_to_set();
    gone.unique_seq_to_set();
}

/// As long as fewer directories are in use than the limit allows, opening another one stays
/// within the limit.
pub proof fn limit_is_kept<H>(
    before: StateModel<H>,
    path: Seq<u8>,
    handles: H,
    client: Client,
    now: u128,
)
    requires
        before.lru.no_duplicates(),
        before.lru.filter(busy_in(before.dirs)).len() < before.settings.max_directories,
    ensures
        before.with_room().with_opened(path, handles, client, now).lru.len()
            <= before.settings.max_directories,
{
    room_is_made(before.dirs, before.lru, before.settings.max_directories as nat);
}

/// Where no room can be made, every directory that is left is in use.
pub proof fn only_used_directories_block<H>(
    dirs: Map<Seq<u8>, EntryModel<H>>,
    lru: Seq<Seq<u8>>,
    max: nat,
)
    requires
        lru.no_duplicates(),
        forall|p: Seq<u8>| #[trigger] lru.contains(p) <==> dirs.contains_key(p),
        lru_with_room(dirs, lru, max).len() >= max,
    ensures
        forall|p: Seq<u8>| #[trigger]
            dirs_with_room(dirs, lru, max).contains_key(p) ==> dirs[p].busy(),
{
    room_is_made(dirs, lru, max);
    crate::order::filter_counts(lru, idle_in(dirs), busy_in(dirs));
    crate::order::filter_members(lru, idle_in(dirs));
}

/// Dropping idle directories a second time at the same moment drops nothing more.
pub proof fn dropping_idle_twice<H>(
    dirs: Map<Seq<u8>, EntryModel<H>>,
    now: u128,
    timeout: u128,
)
    ensures
        dirs_kept(dirs_kept(dirs, now, timeout), now, timeout) == dirs_kept(dirs, now, timeout),
{
    assert(dirs_kept(dirs_kept(dirs, now, timeout), now, timeout) =~= dirs_kept(
        dirs,
        now,
        timeout,
    ));
}

/// A client that stops using a directory leaves the entry as it was before it started.
pub proof fn leaving_undoes_joining<H>(entry: EntryModel<H>, client: Client)
    requires
        !entry.clients.contains_key(client.connection),
    ensures
        entry.joined_by(client).busy(),
        entry.joined_by(client).left_by(client) == entry,
{
    assert(entry.joined_by(client).clients.contains_key(client.connection));
    assert(entry.clients.insert(client.connection, client.pid).remove(client.connection)
        =~= entry.clients);
}

/// Clients that use the same directory share its handles, and the directory stays in use
/// until the last of them has left. That holds of two connections of one process too.
pub proof fn clients_share_a_directory<H>(handles: H, a: Client, b: Client, now: u128)
    requires
        a.connection != b.connection,
    ensures
        new_entry(handles, a, now).joined_by(b).handles == handles,
        new_entry(handles, a, now).joined_by(b).left_by(a).busy(),
        b.pid is Some ==> new_entry(handles, a, now).joined_by(b).left_by(a).pids().contains(
            b.pid->0,
        ),
        !new_entry(handles, a, now).joined_by(b).left_by(a).left_by(b).busy(),
{
    let both = new_entry(handles, a, now).joined_by(b);
    assert(both.left_by(a).clients.contains_key(b.connection));
    assert(both.left_by(a).clients[b.connection] == b.pid);
    assert(both.left_by(a).clients.values().contains(b.pid));
    assert(both.left_by(a).left_by(b).clients =~= Map::<u64, Option<u32>>::empty());
}

} // verus!
