//! A connection remembers every directory that its client uses, so that none of them keeps
//! the client once the connection has come to its end.

use crate::connection::{
    as_they_are, finished, finished_client_uses_nothing, paths_after, released_all,
    releasing_keeps_directories, releasing_only_takes_the_client, tracked_paths, with_path,
    without_path,
};
use crate::handler::{handled, named_paths, next_state, performed, Action, EngineOutcome};
use crate::path::{key, FsPath};
use crate::protocol::{Request, Response, ScanProgressWire};
use crate::state::{Client, StateModel};
use vstd::prelude::*;

verus! {

/// The paths hold every directory that the client uses.
pub open spec fn covers<H>(paths: Seq<Seq<u8>>, state: StateModel<H>, client: Client) -> bool {
    forall|p: Seq<u8>| #[trigger]
        state.dirs.contains_key(p) && state.dirs[p].clients.contains_key(client.connection)
            ==> paths.contains(p)
}

/// No two of the forms are two ways to write one path, as is the case with canonical ones.
pub open spec fn written_one_way(forms: Set<Seq<u8>>) -> bool {
    forall|p: Seq<u8>, q: Seq<u8>| #[trigger]
        forms.contains(p) && #[trigger] forms.contains(q) && key(p) == key(q) ==> p == q
}

/// The paths hold every directory that the client uses, and these paths and the directories
/// are all written in one of the forms.
pub open spec fn covered<H>(
    paths: Seq<Seq<u8>>,
    state: StateModel<H>,
    client: Client,
    forms: Set<Seq<u8>>,
) -> bool {
    &&& covers(paths, state, client)
    &&& forall|p: Seq<u8>| #[trigger] state.dirs.contains_key(p) ==> forms.contains(p)
    &&& forall|p: Seq<u8>| #[trigger] paths.contains(p) ==> forms.contains(p)
}

/// The paths of the request that have a canonical form have one of the forms.
pub open spec fn resolved_to(
    resolved: Seq<Result<FsPath, String>>,
    forms: Set<Seq<u8>>,
) -> bool {
    forall|k: int| 0 <= k < resolved.len() ==> (#[trigger] resolved[k] matches Ok(path)
        ==> forms.contains(path@))
}

/// Both have a canonical form, and the same.
pub open spec fn same_form(a: Result<FsPath, String>, b: Result<FsPath, String>) -> bool {
    a is Ok && b is Ok && a->Ok_0@ == b->Ok_0@
}

/// When the answer is noted, the paths of the request lead where they led when the request
/// was handled.
pub open spec fn still_there(
    request: Request,
    response: Response,
    resolved: Seq<Result<FsPath, String>>,
    canonical: Seq<Result<FsPath, String>>,
) -> bool {
    tracked_paths(request, response).len() > 0 ==> match request {
        Request::RestartIndex { .. } => same_form(canonical[0], resolved[1]) && same_form(
            canonical[1],
            resolved[2],
        ),
        _ => same_form(canonical[0], resolved[0]),
    }
}

proof fn lemma_with(paths: Seq<Seq<u8>>, path: Seq<u8>, forms: Set<Seq<u8>>)
    requires
        written_one_way(forms),
        forms.contains(path),
        forall|p: Seq<u8>| #[trigger] paths.contains(p) ==> forms.contains(p),
    ensures
        forall|p: Seq<u8>| #[trigger]
            with_path(paths, path).contains(p) <==> paths.contains(p) || p == path,
{
    crate::order::push_facts(paths, path);
    if crate::connection::holds_alike(paths, path) {
        let k = choose|k: int| 0 <= k < paths.len() && key(#[trigger] paths[k]) == key(path);
        assert(paths.contains(paths[k]));
    }
}

proof fn lemma_without(paths: Seq<Seq<u8>>, path: Seq<u8>, forms: Set<Seq<u8>>)
    requires
        written_one_way(forms),
        forms.contains(path),
        forall|p: Seq<u8>| #[trigger] paths.contains(p) ==> forms.contains(p),
    ensures
        forall|p: Seq<u8>| #[trigger]
            without_path(paths, path).contains(p) <==> paths.contains(p) && p != path,
{
    crate::order::filter_members(paths, crate::connection::unlike(path));
}

/// A connection that remembers every directory that its client uses still does so after the
/// next request of the client has been handled, answered and noted.
pub proof fn answered_requests_stay_covered<H: Clone, F: Fn(&H) -> Option<ScanProgressWire>>(
    paths: Seq<Seq<u8>>,
    before: StateModel<H>,
    after: StateModel<H>,
    action: Action<H>,
    request: Request,
    resolved: Seq<Result<FsPath, String>>,
    client: Client,
    now: u128,
    version: Seq<char>,
    probe: F,
    outcome: EngineOutcome,
    opened: Result<H, String>,
    later: u128,
    libgit2: (u32, u32, u32),
    response: Response,
    canonical: Seq<Result<FsPath, String>>,
    forms: Set<Seq<u8>>,
)
    requires
        written_one_way(forms),
        covered(paths, before, client, forms),
        resolved.len() == named_paths(request).len(),
        resolved_to(resolved, forms),
        handled(action, before, request, resolved, client, now, version, probe),
        performed(
            action,
            next_state(before, request, resolved, client, now),
            after,
            outcome,
            opened,
            later,
            version,
            libgit2,
            response,
        ),
        still_there(request, response, resolved, canonical),
    ensures
        covered(paths_after(paths, request, response, canonical), after, client, forms),
{
    let noted = paths_after(paths, request, response, canonical);
    match request {
        Request::IndexDirectory { .. } => {
            if resolved[0] is Ok {
                lemma_with(paths, resolved[0]->Ok_0@, forms);
            }
        },
        Request::RestartIndex { .. } => {
            if resolved[1] is Ok {
                lemma_without(paths, resolved[1]->Ok_0@, forms);
                if resolved[2] is Ok {
                    let rest = without_path(paths, resolved[1]->Ok_0@);
                    lemma_with(rest, resolved[2]->Ok_0@, forms);
                }
            }
        },
        Request::CleanupFilePicker { .. } | Request::DropDirectory { .. } => {
            if resolved[0] is Ok {
                lemma_without(paths, resolved[0]->Ok_0@, forms);
            }
        },
        _ => {},
    }
}

/// What another client asks for takes no directory out of the reach of the connection, nor
/// does the daemon's own housekeeping.
pub proof fn others_leave_it_covered<H: Clone, F: Fn(&H) -> Option<ScanProgressWire>>(
    paths: Seq<Seq<u8>>,
    before: StateModel<H>,
    after: StateModel<H>,
    action: Action<H>,
    request: Request,
    resolved: Seq<Result<FsPath, String>>,
    client: Client,
    other: Client,
    now: u128,
    version: Seq<char>,
    probe: F,
    outcome: EngineOutcome,
    opened: Result<H, String>,
    later: u128,
    libgit2: (u32, u32, u32),
    response: Response,
    forms: Set<Seq<u8>>,
)
    requires
        other.connection != client.connection,
        covered(paths, before, client, forms),
        resolved.len() == named_paths(request).len(),
        resolved_to(resolved, forms),
        handled(action, before, request, resolved, other, now, version, probe),
        performed(
            action,
            next_state(before, request, resolved, other, now),
            after,
            outcome,
            opened,
            later,
            version,
            libgit2,
            response,
        ),
    ensures
        covered(paths, after, client, forms),
        covered(paths, before.without_idle(now), client, forms),
{
}

/// The end of another connection takes no directory out of the reach of this one.
pub proof fn other_ends_leave_it_covered<H>(
    paths: Seq<Seq<u8>>,
    before: StateModel<H>,
    others: Seq<FsPath>,
    canonical: Seq<Result<FsPath, String>>,
    client: Client,
    other: Client,
    forms: Set<Seq<u8>>,
)
    requires
        covered(paths, before, client, forms),
    ensures
        covered(paths, finished(before, others, canonical, other), client, forms),
{
    let found = as_they_are(others);
    let mid = released_all(before, found, other);
    let after = finished(before, others, canonical, other);
    releasing_keeps_directories(before, found, other);
    releasing_keeps_directories(mid, canonical, other);
    assert forall|p: Seq<u8>| #[trigger] after.dirs.contains_key(p) implies forms.contains(p) && (
    after.dirs[p].clients.contains_key(client.connection) ==> paths.contains(p)) by {
        assert(mid.dirs.dom().contains(p));
        assert(before.dirs.dom().contains(p));
        releasing_only_takes_the_client(before, found, other, p);
        releasing_only_takes_the_client(mid, canonical, other, p);
        assert(before.dirs.contains_key(p));
    }
}

/// When a connection that remembers every directory that its client uses has come to its
/// end, no directory has this client any more, whatever their paths lead to by then.
pub proof fn finished_clients_are_gone<H>(
    before: StateModel<H>,
    paths: Seq<FsPath>,
    canonical: Seq<Result<FsPath, String>>,
    client: Client,
    path: Seq<u8>,
)
    requires
        covers(crate::order::bytes_of(paths), before, client),
        finished(before, paths, canonical, client).dirs.contains_key(path),
    ensures
        !finished(before, paths, canonical, client).dirs[path].clients.contains_key(
            client.connection,
        ),
{
    let all = crate::order::bytes_of(paths);
    let found = as_they_are(paths);
    let mid = released_all(before, found, client);
    releasing_keeps_directories(before, found, client);
    releasing_keeps_directories(mid, canonical, client);
    assert(mid.dirs.dom().contains(path));
    assert(before.dirs.dom().contains(path));
    if all.contains(path) {
        let k = choose|k: int| 0 <= k < all.len() && all[k] == path;
        assert(paths[k]@ == path);
        finished_client_uses_nothing(before, paths, canonical, client, k);
    } else {
        releasing_only_takes_the_client(before, found, client, path);
        releasing_only_takes_the_client(mid, canonical, client, path);
    }
}

} // verus!
