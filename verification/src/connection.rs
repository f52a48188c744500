//! One connection of a client to the daemon: what is read next, what is answered where a
//! frame cannot be used, and which directories have to be released when the client is
//! gone.

use crate::frame::{frame_len, MAX_FRAME_SIZE};
use crate::path::FsPath;
use crate::protocol::{Request, Response};
use crate::state::{Client, DaemonState, StateModel};
use crate::text::prefixed;
use vstd::prelude::*;
use vstd::string::*;

verus! {

/// What came of reading the header of a frame.
#[derive(Debug)]
pub enum HeaderRead {
    Full([u8; 4]),
    /// The client has closed the connection.
    Closed,
    /// The connection broke.
    Broken,
}

/// What happens after the header of a frame.
#[derive(Debug)]
pub enum AfterHeader {
    /// So many bytes are to be read.
    ReadPayload(usize),
    /// This is sent, and the next header is read.
    Answer(Response),
    /// The connection has come to its end.
    Finish,
}

/// What happens after an answer has been sent.
#[derive(Debug, Clone, Copy, PartialEq, Eq, Structural)]
pub enum AfterAnswer {
    /// The next header is read.
    ReadOn,
    /// The connection has come to its end, and the daemon too.
    Shutdown,
}

/// The path as it is registered: its canonical form, or the path itself where it has none.
pub open spec fn settled(path: Seq<u8>, canonical: Result<FsPath, String>) -> Seq<u8> {
    match canonical {
        Ok(canonical) => canonical@,
        Err(_) => path,
    }
}

/// The paths that the registration of a request concerns.
pub open spec fn tracked_paths(request: Request, response: Response) -> Seq<FsPath> {
    match (request, response) {
        (Request::IndexDirectory { path, .. }, Response::Bool(true)) => seq![path],
        (Request::RestartIndex { path, new_path }, Response::Done) => seq![path, new_path],
        (Request::CleanupFilePicker { path }, Response::Bool(true)) => seq![path],
        (Request::DropDirectory { path }, Response::Bool(true)) => seq![path],
        _ => seq![],
    }
}

/// What is registered after the request has been answered. `canonical` holds what became
/// of the paths that its registration concerns.
pub open spec fn registered_after(
    before: Set<crate::path::PathKey>,
    request: Request,
    response: Response,
    canonical: Seq<Result<FsPath, String>>,
) -> Set<crate::path::PathKey> {
    match (request, response) {
        (Request::IndexDirectory { path, .. }, Response::Bool(true)) => before.insert(
            crate::path::key(settled(path@, canonical[0])),
        ),
        (Request::RestartIndex { path, new_path }, Response::Done) => before.remove(
            crate::path::key(settled(path@, canonical[0])),
        ).insert(crate::path::key(settled(new_path@, canonical[1]))),
        (Request::CleanupFilePicker { path }, Response::Bool(true)) => before.remove(
            crate::path::key(settled(path@, canonical[0])),
        ),
        (Request::DropDirectory { path }, Response::Bool(true)) => before.remove(
            crate::path::key(settled(path@, canonical[0])),
        ),
        _ => before,
    }
}

/// The test that the paths which are not alike to `path` pass.
pub open spec fn unlike(path: Seq<u8>) -> spec_fn(Seq<u8>) -> bool {
    |q: Seq<u8>| crate::path::key(q) != crate::path::key(path)
}

/// Whether one of the paths is alike to `path`.
pub open spec fn holds_alike(paths: Seq<Seq<u8>>, path: Seq<u8>) -> bool {
    exists|k: int|
        0 <= k < paths.len() && crate::path::key(#[trigger] paths[k]) == crate::path::key(path)
}

/// The paths with one more, unless an alike one is there: then that one stays as it is
/// written.
pub open spec fn with_path(paths: Seq<Seq<u8>>, path: Seq<u8>) -> Seq<Seq<u8>> {
    if holds_alike(paths, path) {
        paths
    } else {
        paths.push(path)
    }
}

/// The paths without those that are alike to `path`.
pub open spec fn without_path(paths: Seq<Seq<u8>>, path: Seq<u8>) -> Seq<Seq<u8>> {
    paths.filter(unlike(path))
}

/// The paths that are remembered after the request has been answered, as they are written.
pub open spec fn paths_after(
    before: Seq<Seq<u8>>,
    request: Request,
    response: Response,
    canonical: Seq<Result<FsPath, String>>,
) -> Seq<Seq<u8>> {
    match (request, response) {
        (Request::IndexDirectory { path, .. }, Response::Bool(true)) => with_path(
            before,
            settled(path@, canonical[0]),
        ),
        (Request::RestartIndex { path, new_path }, Response::Done) => with_path(
            without_path(before, settled(path@, canonical[0])),
            settled(new_path@, canonical[1]),
        ),
        (Request::CleanupFilePicker { path }, Response::Bool(true)) => without_path(
            before,
            settled(path@, canonical[0]),
        ),
        (Request::DropDirectory { path }, Response::Bool(true)) => without_path(
            before,
            settled(path@, canonical[0]),
        ),
        _ => before,
    }
}

/// Where only one path is alike to `path`, taking it out leaves the others.
proof fn lemma_taken_out(paths: Seq<FsPath>, at: int, path: Seq<u8>)
    requires
        keys_of(paths).no_duplicates(),
        0 <= at < paths.len(),
        keys_of(paths)[at] == crate::path::key(path),
    ensures
        crate::order::bytes_of(paths.remove(at)) == without_path(
            crate::order::bytes_of(paths),
            path,
        ),
{
    let all = crate::order::bytes_of(paths);
    let first = all.take(at);
    let rest = all.skip(at + 1);
    let one = seq![all[at]];
    let keep = unlike(path);
    assert forall|q: Seq<u8>| #[trigger] first.contains(q) implies keep(q) by {
        let k = choose|k: int| 0 <= k < first.len() && first[k] == q;
        assert(keys_of(paths)[k] == crate::path::key(q));
    }
    assert forall|q: Seq<u8>| #[trigger] rest.contains(q) implies keep(q) by {
        let k = choose|k: int| 0 <= k < rest.len() && rest[k] == q;
        assert(keys_of(paths)[at + 1 + k] == crate::path::key(q));
    }
    crate::order::filter_all(first, keep);
    crate::order::filter_all(rest, keep);
    crate::order::filter_members(one, keep);
    assert(keys_of(paths)[at] == crate::path::key(all[at]));
    if one.filter(keep).len() > 0 {
        assert(one.filter(keep).contains(one.filter(keep)[0]));
    }
    assert(all =~= first + (one + rest));
    crate::order::filter_concat(first, one + rest, keep);
    crate::order::filter_concat(one, rest, keep);
    assert(one.filter(keep) + rest =~= rest);
    let left = crate::order::bytes_of(paths.remove(at));
    assert forall|k: int| 0 <= k < left.len() implies #[trigger] left[k] == (first + rest)[k] by {
        if k < at {
            assert(first[k] == all[k]);
        } else {
            assert(rest[k - at] == all[k + 1]);
        }
    }
    assert(left =~= first + rest);
}

/// Where no path is alike to `path`, there is nothing to take out.
proof fn lemma_nothing_alike(paths: Seq<FsPath>, path: Seq<u8>)
    requires
        !keys_of(paths).contains(crate::path::key(path)),
    ensures
        without_path(crate::order::bytes_of(paths), path) == crate::order::bytes_of(paths),
        !holds_alike(crate::order::bytes_of(paths), path),
{
    let all = crate::order::bytes_of(paths);
    assert forall|q: Seq<u8>| #[trigger] all.contains(q) implies unlike(path)(q) by {
        let k = choose|k: int| 0 <= k < all.len() && all[k] == q;
        assert(keys_of(paths)[k] == crate::path::key(q));
    }
    crate::order::filter_all(all, unlike(path));
    assert forall|k: int| 0 <= k < all.len() implies crate::path::key(#[trigger] all[k])
        != crate::path::key(path) by {
        assert(keys_of(paths)[k] == crate::path::key(all[k]));
    }
}

/// The state after the client has left the directories, one after the other.
pub open spec fn released_all<H>(
    before: StateModel<H>,
    canonical: Seq<Result<FsPath, String>>,
    client: Client,
) -> StateModel<H>
    decreases canonical.len(),
{
    if canonical.len() == 0 {
        before
    } else {
        released_all(before, canonical.drop_last(), client).released(
            canonical.last(),
            client,
        )
    }
}

/// The paths, each found as it is.
pub open spec fn as_they_are(paths: Seq<FsPath>) -> Seq<Result<FsPath, String>> {
    paths.map_values(|path: FsPath| Ok::<FsPath, String>(path))
}

/// The state after a connection has come to its end. `paths` is what is registered, and
/// `canonical` what these paths lead to by now.
pub open spec fn finished<H>(
    before: StateModel<H>,
    paths: Seq<FsPath>,
    canonical: Seq<Result<FsPath, String>>,
    client: Client,
) -> StateModel<H> {
    released_all(released_all(before, as_they_are(paths), client), canonical, client)
}

/// `res` is what happens after the header of a frame has been read, or has not.
pub open spec fn header_taken(read: HeaderRead, res: AfterHeader) -> bool {
    match read {
        HeaderRead::Full(header) => if crate::frame::be_value(header@) > MAX_FRAME_SIZE {
            res matches AfterHeader::Answer(Response::Error(message)) && message@
                == "frame too large"@
        } else {
            res == AfterHeader::ReadPayload(crate::frame::be_value(header@) as usize)
        },
        HeaderRead::Closed | HeaderRead::Broken => res is Finish,
    }
}

/// What happens after the header of a frame has been read, or has not.
pub fn after_header(read: HeaderRead) -> (res: AfterHeader)
    ensures
        header_taken(read, res),
{
    match read {
        HeaderRead::Full(header) => match frame_len(&header) {
            Ok(len) => AfterHeader::ReadPayload(len),
            Err(_) => AfterHeader::Answer(Response::Error("frame too large".to_owned())),
        },
        HeaderRead::Closed | HeaderRead::Broken => AfterHeader::Finish,
    }
}

/// `res` is the request that a payload holds, or the answer to a payload that holds none.
pub open spec fn payload_taken(
    decoded: Result<Request, String>,
    res: Result<Request, Response>,
) -> bool {
    match decoded {
        Ok(request) => res == Ok::<Request, Response>(request),
        Err(e) => res matches Err(Response::Error(message)) && message@ == "decode error: "@ + e@,
    }
}

/// The request that a payload holds, or the answer to a payload that holds none.
pub fn after_payload(decoded: Result<Request, String>) -> (res: Result<Request, Response>)
    ensures
        payload_taken(decoded, res),
{
    match decoded {
        Ok(request) => Ok(request),
        Err(e) => Err(Response::Error(prefixed("decode error: ", e.as_str()))),
    }
}

/// The path as it is registered.
pub fn canonicalize_or_original(path: &FsPath, canonical: &Result<FsPath, String>) -> (res: FsPath)
    ensures
        res@ == settled(path@, *canonical),
{
    match canonical {
        Ok(canonical) => canonical.clone(),
        Err(_) => path.clone(),
    }
}

/// The paths that have to be made canonical before the answer is registered.
pub fn paths_to_track(request: &Request, response: &Response) -> (res: Vec<FsPath>)
    ensures
        crate::order::bytes_of(res@) == crate::order::bytes_of(tracked_paths(*request, *response)),
{
    let mut res: Vec<FsPath> = Vec::new();
    match (request, response) {
        (Request::IndexDirectory { path, .. }, Response::Bool(true)) => res.push(path.clone()),
        (Request::RestartIndex { path, new_path }, Response::Done) => {
            res.push(path.clone());
            res.push(new_path.clone());
        },
        (Request::CleanupFilePicker { path }, Response::Bool(true)) => res.push(path.clone()),
        (Request::DropDirectory { path }, Response::Bool(true)) => res.push(path.clone()),
        _ => {},
    }
    assert(crate::order::bytes_of(res@) =~= crate::order::bytes_of(
        tracked_paths(*request, *response),
    ));
    res
}

/// What happens once the answer to the request has been sent.
pub open spec fn next_step(request: Request) -> AfterAnswer {
    match request {
        Request::Shutdown => AfterAnswer::Shutdown,
        _ => AfterAnswer::ReadOn,
    }
}

/// What a connection has to remember: the directories that its client uses.
#[derive(Debug)]
pub struct Connection {
    client: Client,
    registered: Vec<FsPath>,
}

/// What identifies the paths of a list.
pub open spec fn keys_of(paths: Seq<FsPath>) -> Seq<crate::path::PathKey> {
    paths.map_values(|p: FsPath| crate::path::key(p@))
}

/// `canonical` is what `resolve` may have given for the paths, one after the other.
pub open spec fn resolved_by<R: Fn(&FsPath) -> Result<FsPath, String>>(
    paths: Seq<FsPath>,
    canonical: Seq<Result<FsPath, String>>,
    resolve: R,
) -> bool {
    &&& canonical.len() == paths.len()
    &&& forall|k: int|
        0 <= k < paths.len() ==> call_ensures(resolve, (&paths[k],), #[trigger] canonical[k])
}

impl Connection {
    /// The client at the other end.
    pub closed spec fn owner(&self) -> Client {
        self.client
    }

    /// The paths of the directories that the client uses.
    pub closed spec fn paths(&self) -> Seq<FsPath> {
        self.registered@
    }

    /// The directories that the client uses.
    pub open spec fn registered(&self) -> Set<crate::path::PathKey> {
        keys_of(self.paths()).to_set()
    }

    /// No directory is remembered twice.
    pub open spec fn wf(&self) -> bool {
        keys_of(self.paths()).no_duplicates()
    }

    /// A connection whose client uses nothing yet.
    pub fn new(client: Client) -> (res: Connection)
        ensures
            res.wf(),
            res.owner() == client,
            res.registered() == Set::<crate::path::PathKey>::empty(),
    {
        let res = Connection { client, registered: Vec::new() };
        assert(res.registered() =~= Set::<crate::path::PathKey>::empty());
        res
    }

    /// Where the path is remembered.
    fn position(&self, path: &FsPath) -> (res: Option<usize>)
        ensures
            match res {
                Some(i) => i < self.registered@.len() && keys_of(self.registered@)[i as int]
                    == crate::path::key(path@),
                None => !keys_of(self.registered@).contains(crate::path::key(path@)),
            },
    {
        let ghost keys = keys_of(self.registered@);
        let mut i: usize = 0;
        while i < self.registered.len()
            invariant
                i <= self.registered@.len(),
                keys == keys_of(self.registered@),
                forall|k: int| 0 <= k < i ==> #[trigger] keys[k] != crate::path::key(path@),
            decreases self.registered@.len() - i,
        {
            if self.registered[i].alike(path) {
                return Some(i);
            }
            i += 1;
        }
        None
    }

    /// Remembers the path, unless it is remembered.
    fn register(&mut self, path: FsPath)
        requires
            old(self).wf(),
        ensures
            final(self).wf(),
            final(self).owner() == old(self).owner(),
            final(self).registered() == old(self).registered().insert(crate::path::key(path@)),
            crate::order::bytes_of(final(self).paths()) == with_path(
                crate::order::bytes_of(old(self).paths()),
                path@,
            ),
    {
        let ghost keys = keys_of(self.registered@);
        let ghost added = crate::path::key(path@);
        let ghost held = crate::order::bytes_of(self.registered@);
        if let Some(i) = self.position(&path) {
            assert(keys.to_set() =~= keys.to_set().insert(added));
            assert(crate::path::key(held[i as int]) == added);
            return ;
        }
        proof {
            lemma_nothing_alike(self.registered@, path@);
        }
        self.registered.push(path);
        proof {
            assert(crate::order::bytes_of(self.registered@) =~= held.push(path@));
            let after = keys_of(self.registered@);
            assert(after =~= keys.push(added));
            assert forall|x: crate::path::PathKey| #[trigger]
                after.contains(x) <==> keys.contains(x) || x == added by {
                if keys.contains(x) {
                    let k = choose|k: int| 0 <= k < keys.len() && keys[k] == x;
                    assert(after[k] == x);
                }
                if x == added {
                    assert(after[keys.len() as int] == x);
                }
            }
            assert(after.to_set() =~= keys.to_set().insert(added));
        }
    }

    /// Forgets the path, where it is remembered.
    fn unregister(&mut self, path: &FsPath)
        requires
            old(self).wf(),
        ensures
            final(self).wf(),
            final(self).owner() == old(self).owner(),
            final(self).registered() == old(self).registered().remove(crate::path::key(path@)),
            crate::order::bytes_of(final(self).paths()) == without_path(
                crate::order::bytes_of(old(self).paths()),
                path@,
            ),
    {
        let ghost keys = keys_of(self.registered@);
        let ghost gone = crate::path::key(path@);
        if let Some(i) = self.position(path) {
            let ghost at = i as int;
            proof {
                lemma_taken_out(self.registered@, at, path@);
            }
            self.registered.remove(i);
            proof {
                let after = keys_of(self.registered@);
                assert(after =~= keys.remove(at));
                assert forall|x: crate::path::PathKey| #[trigger]
                    after.contains(x) <==> keys.contains(x) && x != gone by {
                    if after.contains(x) {
                        let k = choose|k: int| 0 <= k < after.len() && after[k] == x;
                        let k0 = if k < at { k } else { k + 1 };
                        assert(keys[k0] == x);
                    }
                    if keys.contains(x) && x != gone {
                        let k = choose|k: int| 0 <= k < keys.len() && keys[k] == x;
                        let k1 = if k < at { k } else { k - 1 };
                        assert(after[k1] == x);
                    }
                }
                assert(after.to_set() =~= keys.to_set().remove(gone));
            }
        } else {
            assert(keys.to_set() =~= keys.to_set().remove(gone));
            proof {
                lemma_nothing_alike(self.registered@, path@);
            }
        }
    }

    /// Notes what the answer to a request means for the directories that the client uses,
    /// and says what happens once the answer has been sent. `canonical` holds the
    /// canonical form of every path that `paths_to_track` names, or why it has none.
    pub fn answered(
        &mut self,
        request: &Request,
        response: &Response,
        canonical: &Vec<Result<FsPath, String>>,
    ) -> (res: AfterAnswer)
        requires
            old(self).wf(),
            canonical@.len() == tracked_paths(*request, *response).len(),
        ensures
            final(self).wf(),
            final(self).owner() == old(self).owner(),
            final(self).registered() == registered_after(
                old(self).registered(),
                *request,
                *response,
                canonical@,
            ),
            crate::order::bytes_of(final(self).paths()) == paths_after(
                crate::order::bytes_of(old(self).paths()),
                *request,
                *response,
                canonical@,
            ),
            res == next_step(*request),
    {
        match (request, response) {
            (Request::IndexDirectory { path, .. }, Response::Bool(true)) => {
                self.register(canonicalize_or_original(path, &canonical[0]));
            },
            (Request::RestartIndex { path, new_path }, Response::Done) => {
                self.unregister(&canonicalize_or_original(path, &canonical[0]));
                self.register(canonicalize_or_original(new_path, &canonical[1]));
            },
            (Request::CleanupFilePicker { path }, Response::Bool(true)) => {
                self.unregister(&canonicalize_or_original(path, &canonical[0]));
            },
            (Request::DropDirectory { path }, Response::Bool(true)) => {
                self.unregister(&canonicalize_or_original(path, &canonical[0]));
            },
            _ => {},
        }
        match request {
            Request::Shutdown => AfterAnswer::Shutdown,
            _ => AfterAnswer::ReadOn,
        }
    }

    /// Whether the client uses no directory.
    pub fn uses_nothing(&self) -> (res: bool)
        ensures
            res == (self.registered() == Set::<crate::path::PathKey>::empty()),
    {
        let res = self.registered.len() == 0;
        proof {
            let keys = keys_of(self.paths());
            if res {
                assert(keys.to_set() =~= Set::<crate::path::PathKey>::empty());
            } else {
                assert(keys.contains(keys[0]));
                assert(keys.to_set().contains(keys[0]));
            }
        }
        res
    }

    /// Releases every directory that the client used, at the path that is registered.
    fn release_registered<H>(&self, state: &mut DaemonState<H>)
        requires
            old(state).wf(),
        ensures
            final(state).wf(),
            final(state)@ == released_all(old(state)@, as_they_are(self.paths()), self.owner()),
    {
        let ghost before = state@;
        let ghost all = as_they_are(self.registered@);
        let mut i: usize = 0;
        while i < self.registered.len()
            invariant
                i <= self.registered@.len(),
                state.wf(),
                all == as_they_are(self.registered@),
                state@ == released_all(before, all.take(i as int), self.client),
            decreases self.registered@.len() - i,
        {
            let path: Result<FsPath, String> = Ok(self.registered[i].clone());
            let _ = state.release_client(&path, self.client);
            assert(all.take(i + 1).drop_last() =~= all.take(i as int));
            i += 1;
        }
        assert(all.take(i as int) =~= all);
    }

    /// Releases every directory that the client used: at the path that is registered, and
    /// at the path that this one leads to by now. `resolve` gives the canonical form of a
    /// path, or why it has none. This is due however the connection has ended.
    pub fn finish<H, R: Fn(&FsPath) -> Result<FsPath, String>>(
        &self,
        state: &mut DaemonState<H>,
        resolve: &R,
    )
        requires
            old(state).wf(),
            forall|path: &FsPath| #[trigger] call_requires(*resolve, (path,)),
        ensures
            final(state).wf(),
            exists|canonical: Seq<Result<FsPath, String>>| #[trigger]
                resolved_by(self.paths(), canonical, *resolve) && final(state)@ == finished(
                    old(state)@,
                    self.paths(),
                    canonical,
                    self.owner(),
                ),
    {
        self.release_registered(state);
        let ghost before = state@;
        let ghost mut canonical: Seq<Result<FsPath, String>> = Seq::empty();
        let mut i: usize = 0;
        while i < self.registered.len()
            invariant
                i <= self.registered@.len(),
                state.wf(),
                forall|path: &FsPath| #[trigger] call_requires(*resolve, (path,)),
                resolved_by(self.registered@.take(i as int), canonical, *resolve),
                state@ == released_all(before, canonical, self.client),
            decreases self.registered@.len() - i,
        {
            let settled_path = resolve(&self.registered[i]);
            let _ = state.release_client(&settled_path, self.client);
            proof {
                let longer = canonical.push(settled_path);
                assert(longer.drop_last() =~= canonical);
                assert(resolved_by(self.registered@.take(i + 1), longer, *resolve)) by {
                    assert forall|k: int| 0 <= k < i + 1 implies call_ensures(
                        *resolve,
                        (&self.registered@.take(i + 1)[k],),
                        #[trigger] longer[k],
                    ) by {
                        if k < i {
                            assert(longer[k] == canonical[k]);
                            assert(self.registered@.take(i as int)[k] == self.registered@.take(
                                i + 1,
                            )[k]);
                        }
                    }
                }
                canonical = longer;
            }
            i += 1;
        }
        assert(self.registered@.take(i as int) =~= self.paths());
    }
}

/// A request that is refused changes nothing in what is registered.
pub proof fn refused_requests_register_nothing(
    before: Set<crate::path::PathKey>,
    paths: Seq<Seq<u8>>,
    request: Request,
    response: Response,
    canonical: Seq<Result<FsPath, String>>,
)
    requires
        response is Error,
    ensures
        registered_after(before, request, response, canonical) == before,
        paths_after(paths, request, response, canonical) == paths,
{
}

/// Releasing keeps the indexed directories and their order, and takes away no client but
/// the one.
pub proof fn releasing_only_takes_the_client<H>(
    before: StateModel<H>,
    canonical: Seq<Result<FsPath, String>>,
    client: Client,
    path: Seq<u8>,
)
    requires
        before.dirs.contains_key(path),
    ensures
        ({
            let after = released_all(before, canonical, client);
            &&& after.lru == before.lru
            &&& after.settings == before.settings
            &&& after.dirs.dom() == before.dirs.dom()
            &&& after.dirs[path] == before.dirs[path] || after.dirs[path]
                == before.dirs[path].left_by(client)
        }),
    decreases canonical.len(),
{
    if canonical.len() > 0 {
        releasing_only_takes_the_client(before, canonical.drop_last(), client, path);
        let mid = released_all(before, canonical.drop_last(), client);
        assert(mid.released(canonical.last(), client).dirs.dom() =~= mid.dirs.dom());
        let left = before.dirs[path].left_by(client);
        assert(left.left_by(client).clients =~= left.clients);
    }
}

/// Releasing neither adds nor drops a directory.
pub proof fn releasing_keeps_directories<H>(
    before: StateModel<H>,
    canonical: Seq<Result<FsPath, String>>,
    client: Client,
)
    ensures
        released_all(before, canonical, client).dirs.dom() == before.dirs.dom(),
    decreases canonical.len(),
{
    if canonical.len() > 0 {
        releasing_keeps_directories(before, canonical.drop_last(), client);
        let mid = released_all(before, canonical.drop_last(), client);
        assert(mid.released(canonical.last(), client).dirs.dom() =~= mid.dirs.dom());
    }
}

/// A client that has been taken off a directory is not among its clients.
proof fn lemma_released<H>(
    before: StateModel<H>,
    canonical: Seq<Result<FsPath, String>>,
    client: Client,
    k: int,
)
    requires
        0 <= k < canonical.len(),
        before.holds(canonical[k]),
    ensures
        !released_all(before, canonical, client).dirs[canonical[k]->Ok_0@].clients.contains_key(
            client.connection,
        ),
    decreases canonical.len(),
{
    let path = canonical[k]->Ok_0@;
    let front = canonical.drop_last();
    let mid = released_all(before, front, client);
    releasing_only_takes_the_client(before, front, client, path);
    assert(mid.dirs.contains_key(path));
    if k < front.len() {
        lemma_released(before, front, client, k);
    }
}

/// When a connection has come to its end, its client uses none of the directories that it
/// used, whatever their paths lead to by then. These directories stay, and so do their
/// other clients.
pub proof fn finished_client_uses_nothing<H>(
    before: StateModel<H>,
    paths: Seq<FsPath>,
    canonical: Seq<Result<FsPath, String>>,
    client: Client,
    k: int,
)
    requires
        0 <= k < paths.len(),
        before.dirs.contains_key(paths[k]@),
    ensures
        ({
            let after = finished(before, paths, canonical, client);
            let path = paths[k]@;
            &&& after.lru == before.lru
            &&& after.dirs.dom() == before.dirs.dom()
            &&& !after.dirs[path].clients.contains_key(client.connection)
            &&& after.dirs[path] == before.dirs[path].left_by(client)
        }),
{
    let found = as_they_are(paths);
    let path = paths[k]@;
    let mid = released_all(before, found, client);
    assert(found[k] == Ok::<FsPath, String>(paths[k]));
    lemma_released(before, found, client, k);
    releasing_only_takes_the_client(before, found, client, path);
    assert(mid.dirs.contains_key(path));
    releasing_only_takes_the_client(mid, canonical, client, path);
    let left = before.dirs[path].left_by(client);
    assert(before.dirs[path].clients.remove(client.connection).remove(client.connection)
        =~= before.dirs[path].clients.remove(client.connection));
    if mid.dirs[path] == before.dirs[path] {
        assert(left.clients =~= before.dirs[path].clients);
    }
}

} // verus!
