//! The client's side of the conversation: what every call asks of the daemon, and what the
//! caller gets for every answer.

use crate::link::{Event, Link};
use crate::path::FsPath;
use crate::protocol::{
    DirectoryInfoWire, GrepModeWire, GrepResultWire, HealthCheckWire, Request, Response,
    ScanProgressWire, SearchResultWire,
};
use crate::text::prefixed;
use vstd::prelude::*;
use vstd::string::*;
use vstd::utf8::*;

verus! {

/// `std::io::Error`, opaque here.
#[verifier::external_type_specification]
#[verifier::external_body]
pub struct ExIoError(std::io::Error);

/// `rmp_serde::encode::Error`, opaque here.
#[verifier::external_type_specification]
#[verifier::external_body]
pub struct ExEncodeError(rmp_serde::encode::Error);

/// `rmp_serde::decode::Error`, opaque here.
#[verifier::external_type_specification]
#[verifier::external_body]
pub struct ExDecodeError(rmp_serde::decode::Error);

/// Why a call failed.
#[derive(Debug)]
pub enum ClientError {
    /// The connection failed.
    Io(std::io::Error),
    /// The request could not be encoded.
    Encode(rmp_serde::encode::Error),
    /// The answer could not be decoded.
    Decode(rmp_serde::decode::Error),
    /// The daemon refused the request, or answered something else.
    DaemonError(String),
    /// The daemon could not be started.
    SpawnFailed(String),
}

impl vstd::std_specs::convert::FromSpecImpl<std::io::Error> for ClientError {
    open spec fn obeys_from_spec() -> bool {
        true
    }

    open spec fn from_spec(e: std::io::Error) -> ClientError {
        ClientError::Io(e)
    }
}

impl From<std::io::Error> for ClientError {
    fn from(e: std::io::Error) -> (res: ClientError) {
        ClientError::Io(e)
    }
}

impl vstd::std_specs::convert::FromSpecImpl<rmp_serde::encode::Error> for ClientError {
    open spec fn obeys_from_spec() -> bool {
        true
    }

    open spec fn from_spec(e: rmp_serde::encode::Error) -> ClientError {
        ClientError::Encode(e)
    }
}

impl From<rmp_serde::encode::Error> for ClientError {
    fn from(e: rmp_serde::encode::Error) -> (res: ClientError) {
        ClientError::Encode(e)
    }
}

impl vstd::std_specs::convert::FromSpecImpl<rmp_serde::decode::Error> for ClientError {
    open spec fn obeys_from_spec() -> bool {
        true
    }

    open spec fn from_spec(e: rmp_serde::decode::Error) -> ClientError {
        ClientError::Decode(e)
    }
}

impl From<rmp_serde::decode::Error> for ClientError {
    fn from(e: rmp_serde::decode::Error) -> (res: ClientError) {
        ClientError::Decode(e)
    }
}

/// `text` is how the error reads.
pub open spec fn reads(error: ClientError, text: Seq<char>) -> bool {
    match error {
        ClientError::Io(e) => exists|cause: String| #[trigger]
            to_string_from_display_ensures(&e, cause) && text == "io error: "@ + cause@,
        ClientError::Encode(e) => exists|cause: String| #[trigger]
            to_string_from_display_ensures(&e, cause) && text == "encode error: "@ + cause@,
        ClientError::Decode(e) => exists|cause: String| #[trigger]
            to_string_from_display_ensures(&e, cause) && text == "decode error: "@ + cause@,
        ClientError::DaemonError(cause) => text == "daemon error: "@ + cause@,
        ClientError::SpawnFailed(cause) => text == "spawn failed: "@ + cause@,
    }
}

impl ClientError {
    /// How the error reads.
    pub fn message(&self) -> (res: String)
        ensures
            reads(*self, res@),
    {
        match self {
            ClientError::Io(e) => {
                let cause = e.to_string();
                prefixed("io error: ", cause.as_str())
            },
            ClientError::Encode(e) => {
                let cause = e.to_string();
                prefixed("encode error: ", cause.as_str())
            },
            ClientError::Decode(e) => {
                let cause = e.to_string();
                prefixed("decode error: ", cause.as_str())
            },
            ClientError::DaemonError(cause) => prefixed("daemon error: ", cause.as_str()),
            ClientError::SpawnFailed(cause) => prefixed("spawn failed: ", cause.as_str()),
        }
    }
}

/// What the caller gets to see of a reply: a refusal of the daemon is an error.
pub open spec fn delivered(reply: Result<Response, ClientError>) -> Result<Response, ClientError> {
    match reply {
        Ok(Response::Error(message)) => Err(ClientError::DaemonError(message)),
        other => other,
    }
}

/// What a reply means to a caller who asked for nothing but to have something done.
pub open spec fn unit_answer(reply: Result<Response, ClientError>) -> Result<(), ClientError> {
    match delivered(reply) {
        Ok(_) => Ok(()),
        Err(e) => Err(e),
    }
}

/// What a reply means to a caller who asked for yes or no, with `otherwise` for an answer
/// that says neither.
pub open spec fn bool_answer(
    reply: Result<Response, ClientError>,
    otherwise: bool,
) -> Result<bool, ClientError> {
    match delivered(reply) {
        Ok(Response::Bool(b)) => Ok(b),
        Ok(_) => Ok(otherwise),
        Err(e) => Err(e),
    }
}

/// What a reply means to a caller who asked for a text that may be missing.
pub open spec fn text_answer(reply: Result<Response, ClientError>) -> Result<
    Option<String>,
    ClientError,
> {
    match delivered(reply) {
        Ok(Response::OptionalString(text)) => Ok(text),
        Ok(_) => Ok(None),
        Err(e) => Err(e),
    }
}

/// What a reply means to a caller who asked for a number.
pub open spec fn count_answer(reply: Result<Response, ClientError>) -> Result<usize, ClientError> {
    match delivered(reply) {
        Ok(Response::Usize(n)) => Ok(n),
        Ok(_) => Ok(0),
        Err(e) => Err(e),
    }
}

/// Takes yes or no from an answer.
fn bool_of(answer: Result<Response, ClientError>, otherwise: bool) -> (res: Result<
    bool,
    ClientError,
>)
    ensures
        res == (match answer {
            Ok(Response::Bool(b)) => Ok(b),
            Ok(_) => Ok(otherwise),
            Err(e) => Err(e),
        }),
{
    match answer {
        Ok(Response::Bool(b)) => Ok(b),
        Ok(_) => Ok(otherwise),
        Err(e) => Err(e),
    }
}

/// Takes a text from an answer.
fn text_of(answer: Result<Response, ClientError>) -> (res: Result<Option<String>, ClientError>)
    ensures
        res == (match answer {
            Ok(Response::OptionalString(text)) => Ok(text),
            Ok(_) => Ok(None),
            Err(e) => Err(e),
        }),
{
    match answer {
        Ok(Response::OptionalString(text)) => Ok(text),
        Ok(_) => Ok(None),
        Err(e) => Err(e),
    }
}

/// The text of a reference that may be missing.
pub open spec fn opt_str(text: Option<&str>) -> Option<Seq<char>> {
    match text {
        Some(text) => Some(text@),
        None => None,
    }
}

/// The text of a string that may be missing.
pub open spec fn opt_string(text: Option<String>) -> Option<Seq<char>> {
    match text {
        Some(text) => Some(text@),
        None => None,
    }
}

/// Where the databases lie.
#[derive(Debug)]
pub struct DbPaths {
    pub frecency_db_path: String,
    pub history_db_path: String,
    pub use_unsafe_no_lock: bool,
}

impl DbPaths {
    /// These are the places.
    pub open spec fn names(
        self,
        frecency_db_path: Seq<char>,
        history_db_path: Seq<char>,
        use_unsafe_no_lock: bool,
    ) -> bool {
        &&& self.frecency_db_path@ == frecency_db_path
        &&& self.history_db_path@ == history_db_path
        &&& self.use_unsafe_no_lock == use_unsafe_no_lock
    }

    /// The request tells the daemon of these places.
    pub open spec fn told_by(self, request: Request) -> bool {
        &&& request matches Request::InitDb {
            frecency_db_path,
            history_db_path,
            use_unsafe_no_lock,
        }
        &&& self.names(frecency_db_path@, history_db_path@, use_unsafe_no_lock)
    }
}

/// The request asks for the directory.
pub open spec fn asks_for(request: Request, path: Seq<u8>, watch_git_events: bool) -> bool {
    &&& request matches Request::IndexDirectory { path: sent_path, watch_git_events: sent_watch }
    &&& sent_path@ == path
    &&& sent_watch == watch_git_events
}

/// What the daemon made of what it was told first over a connection with this log: the
/// places of the databases, where there are any to tell.
pub open spec fn told_first(log: Seq<Event>, db: Option<DbPaths>) -> Result<(), ClientError> {
    match db {
        Some(_) => unit_answer(log[1]->reply),
        None => Ok(()),
    }
}

/// `log` is all that happened at the start of a connection, and `outcome` is what came of it.
/// The daemon is told of the databases, where there are any to tell, and only where it
/// accepts that it is asked for the directory, where there is one to ask for.
pub open spec fn opening(
    log: Seq<Event>,
    db: Option<DbPaths>,
    directory: Option<(Seq<u8>, bool)>,
    outcome: Result<(), ClientError>,
) -> bool {
    let told = if db is Some {
        2int
    } else {
        1
    };
    &&& log.len() >= told
    &&& log[0] is Opened
    &&& db matches Some(places) ==> log[1] is Sent && places.told_by(log[1]->request)
    &&& match (told_first(log, db), directory) {
        (Err(e), _) => log.len() == told && outcome == Err::<(), ClientError>(e),
        (Ok(_), None) => log.len() == told && outcome == Ok::<(), ClientError>(()),
        (Ok(_), Some((path, watch_git_events))) => {
            &&& log.len() == told + 1
            &&& log[told] is Sent
            &&& asks_for(log[told]->request, path, watch_git_events)
            &&& outcome == unit_answer(log[told]->reply)
        },
    }
}

/// Every reply of the log came over `exchange`.
pub open spec fn spoken_over<S: Fn(&Request) -> Result<Response, ClientError>>(
    log: Seq<Event>,
    exchange: S,
) -> bool {
    forall|k: int|
        0 <= k < log.len() ==> (#[trigger] log[k] matches Event::Sent { request, reply }
            ==> call_ensures(exchange, (&request,), reply))
}

/// With which setting the client goes on to use a directory that it has asked for: with
/// none where the daemon refused it. Where the connection failed, the client asks again over
/// the next one.
pub open spec fn kept_setting(
    answer: Result<Response, ClientError>,
    watch_git_events: bool,
) -> Option<bool> {
    match answer {
        Ok(_) => Some(watch_git_events),
        Err(ClientError::Io(_)) => Some(watch_git_events),
        Err(_) => None,
    }
}

/// Says with which setting the client goes on to use a directory that it has asked for.
fn setting_after(answer: &Result<Response, ClientError>, watch_git_events: bool) -> (res: Option<
    bool,
>)
    ensures
        res == kept_setting(*answer, watch_git_events),
{
    match answer {
        Ok(_) => Some(watch_git_events),
        Err(ClientError::Io(_)) => Some(watch_git_events),
        Err(_) => None,
    }
}

/// A client of the daemon that works on one directory.
pub struct FffClient<S, D> {
    /// The line to the daemon.
    pub link: Link<S>,
    /// Writes an answer out, for messages.
    pub show: D,
    /// The directory that the client works on.
    pub base_path: FsPath,
    /// Where the databases lie, once the daemon has accepted it.
    pub db: Option<DbPaths>,
    /// Whether the client uses the directory, and if so, whether git events are watched.
    pub uses: Option<bool>,
    /// Whether the connection has failed, so that another one is needed.
    pub lost: bool,
}

impl<
    S: Fn(&Request) -> Result<Response, ClientError>,
    D: Fn(&Response) -> String,
> FffClient<S, D> {
    /// Any request can be sent, and any answer written out.
    pub open spec fn ready(&self) -> bool {
        &&& self.link.ready()
        &&& forall|response: &Response| #[trigger] call_requires(self.show, (response,))
    }

    /// Between here and `after` the request was sent, nothing else was, and this came back.
    pub open spec fn asked(
        &self,
        after: FffClient<S, D>,
        request: Request,
        reply: Result<Response, ClientError>,
    ) -> bool {
        &&& after.link.log() == self.link.log().push(Event::Sent { request, reply })
        &&& after.link.exchange() == self.link.exchange()
        &&& call_ensures(self.link.exchange(), (&request,), reply)
        &&& after.show == self.show
        &&& after.lost == (self.lost || reply matches Err(ClientError::Io(_)))
    }

    /// `res` is what the caller gets for an answer to some other request.
    pub open spec fn surprised<T>(&self, answer: Response, res: Result<T, ClientError>) -> bool {
        exists|text: String| #[trigger]
            call_ensures(self.show, (&answer,), text) && (res matches Err(
                ClientError::DaemonError(message),
            ) && message@ == "unexpected response: "@ + text@)
    }

    /// A client for the directory over a connection that has been set up.
    pub fn connect_to(base_path: &FsPath, exchange: S, show: D) -> (res: FffClient<S, D>)
        ensures
            res.link.exchange() == exchange,
            res.link.log() == seq![Event::Opened],
            res.show == show,
            res.base_path@ == base_path@,
            res.db is None,
            res.uses is None,
            !res.lost,
    {
        FffClient {
            link: Link::new(exchange),
            show,
            base_path: base_path.clone(),
            db: None,
            uses: None,
            lost: false,
        }
    }

    /// Sends the request and gives the answer, unless the daemon refuses, and what came back.
    fn send(&mut self, request: &Request) -> (res: (
        Result<Response, ClientError>,
        Ghost<Result<Response, ClientError>>,
    ))
        requires
            old(self).ready(),
        ensures
            old(self).asked(*final(self), *request, res.1@),
            final(self).base_path == old(self).base_path,
            final(self).db == old(self).db,
            final(self).uses == old(self).uses,
            final(self).ready(),
            res.0 == delivered(res.1@),
    {
        let reply = self.link.send(request);
        let ghost came_back = reply;
        let answer = match reply {
            Ok(Response::Error(message)) => Err(ClientError::DaemonError(message)),
            Err(ClientError::Io(e)) => {
                self.lost = true;
                Err(ClientError::Io(e))
            },
            other => other,
        };
        (answer, Ghost(came_back))
    }

    /// The error for an answer to some other request.
    fn unexpected<T>(&self, answer: Response) -> (res: Result<T, ClientError>)
        requires
            self.ready(),
        ensures
            self.surprised(answer, res),
    {
        let show = &self.show;
        let text = show(&answer);
        assert(call_ensures(self.show, (&answer,), text));
        Err(ClientError::DaemonError(prefixed("unexpected response: ", text.as_str())))
    }

    /// The directory that the client uses, with the setting for git events.
    pub open spec fn directory(&self) -> Option<(Seq<u8>, bool)> {
        match self.uses {
            Some(watch_git_events) => Some((self.base_path@, watch_git_events)),
            None => None,
        }
    }

    /// Going on over a new connection takes the client to `after` and gives `res`: the daemon
    /// is told of the databases again, where it had accepted them, and then asked again for
    /// the directory that the client uses.
    pub open spec fn reconnect_done(
        &self,
        after: FffClient<S, D>,
        exchange: S,
        res: Result<(), ClientError>,
    ) -> bool {
        let before = self.link.log();
        let talk = after.link.log().skip(before.len() as int);
        let told = told_first(talk, self.db) is Ok;
        &&& after.link.exchange() == exchange
        &&& after.show == self.show
        &&& after.base_path == self.base_path
        &&& after.db == self.db
        &&& after.link.log() == before + talk
        &&& opening(talk, self.db, self.directory(), res)
        &&& spoken_over(talk, exchange)
        &&& after.lost == (!told || res matches Err(ClientError::Io(_)))
        &&& after.uses == (if told && (res matches Err(e) && !(e is Io)) {
            None
        } else {
            self.uses
        })
    }

    /// Goes on over a new connection. It starts with where the databases lie and with the
    /// directory that the client uses, so that the daemon knows both again.
    pub fn reconnect(&mut self, exchange: S) -> (res: Result<(), ClientError>)
        requires
            old(self).ready(),
            forall|request: &Request| #[trigger] call_requires(exchange, (request,)),
        ensures
            old(self).reconnect_done(*final(self), exchange, res),
            final(self).ready(),
    {
        let ghost before = self.link.log();
        let ghost mut talk = seq![Event::Opened];
        self.link.renew(exchange);
        self.lost = false;
        assert(self.link.log().skip(before.len() as int) =~= talk);
        assert(self.link.log() =~= before + talk);
        let places = match &self.db {
            Some(db) => Some(
                Request::InitDb {
                    frecency_db_path: db.frecency_db_path.clone(),
                    history_db_path: db.history_db_path.clone(),
                    use_unsafe_no_lock: db.use_unsafe_no_lock,
                },
            ),
            None => None,
        };
        if let Some(request) = places {
            let (answer, reply) = self.send(&request);
            proof {
                talk = talk.push(Event::Sent { request, reply: reply@ });
                assert(self.link.log().skip(before.len() as int) =~= talk);
                assert(self.link.log() =~= before + talk);
            }
            if let Err(e) = answer {
                self.lost = true;
                return Err(e);
            }
        }
        if let Some(watch_git_events) = self.uses {
            let request = Request::IndexDirectory { path: self.base_path.clone(), watch_git_events };
            let (answer, reply) = self.send(&request);
            self.uses = setting_after(&answer, watch_git_events);
            proof {
                talk = talk.push(Event::Sent { request, reply: reply@ });
                assert(self.link.log().skip(before.len() as int) =~= talk);
                assert(self.link.log() =~= before + talk);
            }
            return match answer {
                Ok(_) => Ok(()),
                Err(e) => Err(e),
            };
        }
        Ok(())
    }

    /// `init_db` takes the client to `after` and gives `res`.
    pub open spec fn init_db_done(
        &self,
        after: FffClient<S, D>,
        frecency_db_path: Seq<char>,
        history_db_path: Seq<char>,
        use_unsafe_no_lock: bool,
        res: Result<bool, ClientError>,
    ) -> bool {
        exists|request: Request, reply: Result<Response, ClientError>| {
            &&& #[trigger] self.asked(after, request, reply)
            &&& request matches Request::InitDb {
                frecency_db_path: sent_frecency_db_path,
                history_db_path: sent_history_db_path,
                use_unsafe_no_lock: sent_use_unsafe_no_lock,
            }
            &&& sent_frecency_db_path@ == frecency_db_path
            &&& sent_history_db_path@ == history_db_path
            &&& sent_use_unsafe_no_lock == use_unsafe_no_lock
            &&& res == bool_answer(reply, true)
            &&& after.base_path == self.base_path
            &&& after.uses == self.uses
            &&& if res is Ok {
                after.db matches Some(db) && db.names(
                    frecency_db_path,
                    history_db_path,
                    use_unsafe_no_lock,
                )
            } else {
                after.db == self.db
            }
        }
    }

    /// `init_file_picker` takes the client to `after` and gives `res`.
    pub open spec fn init_file_picker_done(
        &self,
        after: FffClient<S, D>,
        base_path: Seq<char>,
        watch_git_events: bool,
        res: Result<bool, ClientError>,
    ) -> bool {
        exists|request: Request, reply: Result<Response, ClientError>| {
            &&& #[trigger] self.asked(after, request, reply)
            &&& request matches Request::IndexDirectory {
                path,
                watch_git_events: sent_watch_git_events,
            }
            &&& path@ == encode_utf8(base_path)
            &&& sent_watch_git_events == watch_git_events
            &&& res == bool_answer(reply, true)
            &&& after.base_path@ == encode_utf8(base_path)
            &&& after.db == self.db
            &&& after.uses == kept_setting(delivered(reply), watch_git_events)
        }
    }

    /// `restart_index_in_path` takes the client to `after` and gives `res`.
    pub open spec fn restart_index_in_path_done(
        &self,
        after: FffClient<S, D>,
        new_path: Seq<char>,
        res: Result<(), ClientError>,
    ) -> bool {
        exists|request: Request, reply: Result<Response, ClientError>| {
            &&& #[trigger] self.asked(after, request, reply)
            &&& request matches Request::RestartIndex { path, new_path: sent_path }
            &&& path@ == self.base_path@
            &&& sent_path@ == encode_utf8(new_path)
            &&& res == unit_answer(reply)
            &&& after.base_path@ == encode_utf8(new_path)
            &&& after.db == self.db
            &&& after.uses == kept_setting(delivered(reply), true)
        }
    }

    /// `scan_files` takes the client to `after` and gives `res`.
    pub open spec fn scan_files_done(
        &self,
        after: FffClient<S, D>,
        res: Result<(), ClientError>,
    ) -> bool {
        exists|request: Request, reply: Result<Response, ClientError>| {
            &&& #[trigger] self.asked(after, request, reply)
            &&& request matches Request::TriggerRescan { path }
            &&& path@ == self.base_path@
            &&& res == unit_answer(reply)
            &&& after.base_path == self.base_path
            &&& after.db == self.db
            &&& after.uses == self.uses
        }
    }

    /// `fuzzy_search_files` takes the client to `after` and gives `res`.
    pub open spec fn fuzzy_search_files_done(
        &self,
        after: FffClient<S, D>,
        query: Seq<char>,
        max_threads: usize,
        current_file: Option<Seq<char>>,
        combo_boost_score_multiplier: i32,
        min_combo_count: u32,
        page_index: usize,
        page_size: usize,
        res: Result<SearchResultWire, ClientError>,
    ) -> bool {
        exists|request: Request, reply: Result<Response, ClientError>| {
            &&& #[trigger] self.asked(after, request, reply)
            &&& request matches Request::FuzzySearch {
                path,
                query: sent_query,
                max_threads: sent_max_threads,
                current_file: sent_current_file,
                combo_boost_score_multiplier: sent_combo_boost_score_multiplier,
                min_combo_count: sent_min_combo_count,
                page_index: sent_page_index,
                page_size: sent_page_size,
            }
            &&& path@ == self.base_path@
            &&& sent_query@ == query
            &&& sent_max_threads == max_threads
            &&& opt_string(sent_current_file) == current_file
            &&& sent_combo_boost_score_multiplier == combo_boost_score_multiplier
            &&& sent_min_combo_count == min_combo_count
            &&& sent_page_index == page_index
            &&& sent_page_size == page_size
            &&& match delivered(reply) {
                Ok(Response::SearchResult(found)) => res == Ok::<SearchResultWire, ClientError>(
                    found,
                ),
                Ok(other) => self.surprised(other, res),
                Err(e) => res == Err::<SearchResultWire, ClientError>(e),
            }
            &&& after.base_path == self.base_path
            &&& after.db == self.db
            &&& after.uses == self.uses
        }
    }

    /// `live_grep` takes the client to `after` and gives `res`.
    pub open spec fn live_grep_done(
        &self,
        after: FffClient<S, D>,
        query: Seq<char>,
        file_offset: usize,
        page_size: usize,
        max_file_size: u64,
        max_matches_per_file: usize,
        smart_case: bool,
        grep_mode: GrepModeWire,
        time_budget_ms: u64,
        trim_whitespace: bool,
        res: Result<GrepResultWire, ClientError>,
    ) -> bool {
        exists|request: Request, reply: Result<Response, ClientError>| {
            &&& #[trigger] self.asked(after, request, reply)
            &&& request matches Request::GrepSearch {
                path,
                query: sent_query,
                file_offset: sent_file_offset,
                page_size: sent_page_size,
                max_file_size: sent_max_file_size,
                max_matches_per_file: sent_max_matches_per_file,
                smart_case: sent_smart_case,
                grep_mode: sent_grep_mode,
                time_budget_ms: sent_time_budget_ms,
                trim_whitespace: sent_trim_whitespace,
            }
            &&& path@ == self.base_path@
            &&& sent_query@ == query
            &&& sent_file_offset == file_offset
            &&& sent_page_size == page_size
            &&& sent_max_file_size == max_file_size
            &&& sent_max_matches_per_file == max_matches_per_file
            &&& sent_smart_case == smart_case
            &&& sent_grep_mode == grep_mode
            &&& sent_time_budget_ms == time_budget_ms
            &&& sent_trim_whitespace == trim_whitespace
            &&& match delivered(reply) {
                Ok(Response::GrepResult(found)) => res == Ok::<GrepResultWire, ClientError>(found),
                Ok(other) => self.surprised(other, res),
                Err(e) => res == Err::<GrepResultWire, ClientError>(e),
            }
            &&& after.base_path == self.base_path
            &&& after.db == self.db
            &&& after.uses == self.uses
        }
    }

    /// `track_access` takes the client to `after` and gives `res`.
    pub open spec fn track_access_done(
        &self,
        after: FffClient<S, D>,
        file_path: Seq<char>,
        res: Result<bool, ClientError>,
    ) -> bool {
        exists|request: Request, reply: Result<Response, ClientError>| {
            &&& #[trigger] self.asked(after, request, reply)
            &&& request matches Request::TrackAccess { path, file_path: sent_file_path }
            &&& path@ == self.base_path@
            &&& sent_file_path@ == file_path
            &&& res == bool_answer(reply, true)
            &&& after.base_path == self.base_path
            &&& after.db == self.db
            &&& after.uses == self.uses
        }
    }

    /// `get_scan_progress` takes the client to `after` and gives `res`.
    pub open spec fn get_scan_progress_done(
        &self,
        after: FffClient<S, D>,
        res: Result<ScanProgressWire, ClientError>,
    ) -> bool {
        exists|request: Request, reply: Result<Response, ClientError>| {
            &&& #[trigger] self.asked(after, request, reply)
            &&& request matches Request::GetScanProgress { path }
            &&& path@ == self.base_path@
            &&& match delivered(reply) {
                Ok(Response::ScanProgress(progress)) => res == Ok::<ScanProgressWire, ClientError>(
                    progress,
                ),
                Ok(other) => self.surprised(other, res),
                Err(e) => res == Err::<ScanProgressWire, ClientError>(e),
            }
            &&& after.base_path == self.base_path
            &&& after.db == self.db
            &&& after.uses == self.uses
        }
    }

    /// `is_scanning` takes the client to `after` and gives `res`.
    pub open spec fn is_scanning_done(
        &self,
        after: FffClient<S, D>,
        res: Result<bool, ClientError>,
    ) -> bool {
        exists|request: Request, reply: Result<Response, ClientError>| {
            &&& #[trigger] self.asked(after, request, reply)
            &&& request matches Request::IsScanning { path }
            &&& path@ == self.base_path@
            &&& res == bool_answer(reply, false)
            &&& after.base_path == self.base_path
            &&& after.db == self.db
            &&& after.uses == self.uses
        }
    }

    /// `get_git_root` takes the client to `after` and gives `res`.
    pub open spec fn get_git_root_done(
        &self,
        after: FffClient<S, D>,
        res: Result<Option<String>, ClientError>,
    ) -> bool {
        exists|request: Request, reply: Result<Response, ClientError>| {
            &&& #[trigger] self.asked(after, request, reply)
            &&& request matches Request::GetGitRoot { path }
            &&& path@ == self.base_path@
            &&& res == text_answer(reply)
            &&& after.base_path == self.base_path
            &&& after.db == self.db
            &&& after.uses == self.uses
        }
    }

    /// `get_base_path` takes the client to `after` and gives `res`.
    pub open spec fn get_base_path_done(
        &self,
        after: FffClient<S, D>,
        res: Result<Option<String>, ClientError>,
    ) -> bool {
        exists|request: Request, reply: Result<Response, ClientError>| {
            &&& #[trigger] self.asked(after, request, reply)
            &&& request matches Request::GetBasePath { path }
            &&& path@ == self.base_path@
            &&& res == text_answer(reply)
            &&& after.base_path == self.base_path
            &&& after.db == self.db
            &&& after.uses == self.uses
        }
    }

    /// `refresh_git_status` takes the client to `after` and gives `res`.
    pub open spec fn refresh_git_status_done(
        &self,
        after: FffClient<S, D>,
        res: Result<usize, ClientError>,
    ) -> bool {
        exists|request: Request, reply: Result<Response, ClientError>| {
            &&& #[trigger] self.asked(after, request, reply)
            &&& request matches Request::RefreshGitStatus { path }
            &&& path@ == self.base_path@
            &&& res == count_answer(reply)
            &&& after.base_path == self.base_path
            &&& after.db == self.db
            &&& after.uses == self.uses
        }
    }

    /// `update_single_file_frecency` takes the client to `after` and gives `res`.
    pub open spec fn update_single_file_frecency_done(
        &self,
        after: FffClient<S, D>,
        file_path: Seq<char>,
        res: Result<bool, ClientError>,
    ) -> bool {
        exists|request: Request, reply: Result<Response, ClientError>| {
            &&& #[trigger] self.asked(after, request, reply)
            &&& request matches Request::UpdateSingleFileFrecency {
                path,
                file_path: sent_file_path,
            }
            &&& path@ == self.base_path@
            &&& sent_file_path@ == file_path
            &&& res == bool_answer(reply, true)
            &&& after.base_path == self.base_path
            &&& after.db == self.db
            &&& after.uses == self.uses
        }
    }

    /// `stop_background_monitor` takes the client to `after` and gives `res`.
    pub open spec fn stop_background_monitor_done(
        &self,
        after: FffClient<S, D>,
        res: Result<bool, ClientError>,
    ) -> bool {
        exists|request: Request, reply: Result<Response, ClientError>| {
            &&& #[trigger] self.asked(after, request, reply)
            &&& request matches Request::StopBackgroundMonitor { path }
            &&& path@ == self.base_path@
            &&& res == bool_answer(reply, true)
            &&& after.base_path == self.base_path
            &&& after.db == self.db
            &&& after.uses == self.uses
        }
    }

    /// `cleanup_file_picker` takes the client to `after` and gives `res`.
    pub open spec fn cleanup_file_picker_done(
        &self,
        after: FffClient<S, D>,
        res: Result<bool, ClientError>,
    ) -> bool {
        exists|request: Request, reply: Result<Response, ClientError>| {
            &&& #[trigger] self.asked(after, request, reply)
            &&& request matches Request::CleanupFilePicker { path }
            &&& path@ == self.base_path@
            &&& res == bool_answer(reply, true)
            &&& after.base_path == self.base_path
            &&& after.db == self.db
            &&& after.uses == (if res is Ok {
                None
            } else {
                self.uses
            })
        }
    }

    /// `wait_for_initial_scan` takes the client to `after` and gives `res`.
    pub open spec fn wait_for_initial_scan_done(
        &self,
        after: FffClient<S, D>,
        timeout_ms: u64,
        res: Result<bool, ClientError>,
    ) -> bool {
        exists|request: Request, reply: Result<Response, ClientError>| {
            &&& #[trigger] self.asked(after, request, reply)
            &&& request matches Request::WaitForScan { path, timeout_ms: sent_timeout_ms }
            &&& path@ == self.base_path@
            &&& sent_timeout_ms == timeout_ms
            &&& res == bool_answer(reply, true)
            &&& after.base_path == self.base_path
            &&& after.db == self.db
            &&& after.uses == self.uses
        }
    }

    /// `track_query_completion` takes the client to `after` and gives `res`.
    pub open spec fn track_query_completion_done(
        &self,
        after: FffClient<S, D>,
        query: Seq<char>,
        file_path: Seq<char>,
        res: Result<bool, ClientError>,
    ) -> bool {
        exists|request: Request, reply: Result<Response, ClientError>| {
            &&& #[trigger] self.asked(after, request, reply)
            &&& request matches Request::TrackQueryCompletion {
                path,
                query: sent_query,
                file_path: sent_file_path,
            }
            &&& path@ == self.base_path@
            &&& sent_query@ == query
            &&& sent_file_path@ == file_path
            &&& res == bool_answer(reply, true)
            &&& after.base_path == self.base_path
            &&& after.db == self.db
            &&& after.uses == self.uses
        }
    }

    /// `track_grep_query` takes the client to `after` and gives `res`.
    pub open spec fn track_grep_query_done(
        &self,
        after: FffClient<S, D>,
        query: Seq<char>,
        res: Result<bool, ClientError>,
    ) -> bool {
        exists|request: Request, reply: Result<Response, ClientError>| {
            &&& #[trigger] self.asked(after, request, reply)
            &&& request matches Request::TrackGrepQuery { path, query: sent_query }
            &&& path@ == self.base_path@
            &&& sent_query@ == query
            &&& res == bool_answer(reply, true)
            &&& after.base_path == self.base_path
            &&& after.db == self.db
            &&& after.uses == self.uses
        }
    }

    /// `get_historical_query` takes the client to `after` and gives `res`.
    pub open spec fn get_historical_query_done(
        &self,
        after: FffClient<S, D>,
        offset: usize,
        res: Result<Option<String>, ClientError>,
    ) -> bool {
        exists|request: Request, reply: Result<Response, ClientError>| {
            &&& #[trigger] self.asked(after, request, reply)
            &&& request matches Request::GetHistoricalQuery { path, offset: sent_offset }
            &&& path@ == self.base_path@
            &&& sent_offset == offset
            &&& res == text_answer(reply)
            &&& after.base_path == self.base_path
            &&& after.db == self.db
            &&& after.uses == self.uses
        }
    }

    /// `get_historical_grep_query` takes the client to `after` and gives `res`.
    pub open spec fn get_historical_grep_query_done(
        &self,
        after: FffClient<S, D>,
        offset: usize,
        res: Result<Option<String>, ClientError>,
    ) -> bool {
        exists|request: Request, reply: Result<Response, ClientError>| {
            &&& #[trigger] self.asked(after, request, reply)
            &&& request matches Request::GetHistoricalGrepQuery { path, offset: sent_offset }
            &&& path@ == self.base_path@
            &&& sent_offset == offset
            &&& res == text_answer(reply)
            &&& after.base_path == self.base_path
            &&& after.db == self.db
            &&& after.uses == self.uses
        }
    }

    /// `parse_grep_query` takes the client to `after` and gives `res`.
    pub open spec fn parse_grep_query_done(
        &self,
        after: FffClient<S, D>,
        query: Seq<char>,
        res: Result<String, ClientError>,
    ) -> bool {
        exists|request: Request, reply: Result<Response, ClientError>| {
            &&& #[trigger] self.asked(after, request, reply)
            &&& request matches Request::ParseGrepQuery { query: sent_query }
            &&& sent_query@ == query
            &&& match delivered(reply) {
                Ok(Response::ParsedGrepQuery { grep_text }) => res == Ok::<String, ClientError>(
                    grep_text,
                ),
                Ok(other) => self.surprised(other, res),
                Err(e) => res == Err::<String, ClientError>(e),
            }
            &&& after.base_path == self.base_path
            &&& after.db == self.db
            &&& after.uses == self.uses
        }
    }

    /// `health_check` takes the client to `after` and gives `res`.
    pub open spec fn health_check_done(
        &self,
        after: FffClient<S, D>,
        res: Result<HealthCheckWire, ClientError>,
    ) -> bool {
        exists|request: Request, reply: Result<Response, ClientError>| {
            &&& #[trigger] self.asked(after, request, reply)
            &&& request matches Request::HealthCheck { path }
            &&& path@ == self.base_path@
            &&& match delivered(reply) {
                Ok(Response::HealthCheck(health)) => res == Ok::<HealthCheckWire, ClientError>(
                    health,
                ),
                Ok(other) => self.surprised(other, res),
                Err(e) => res == Err::<HealthCheckWire, ClientError>(e),
            }
            &&& after.base_path == self.base_path
            &&& after.db == self.db
            &&& after.uses == self.uses
        }
    }

    /// `list_directories` takes the client to `after` and gives `res`.
    pub open spec fn list_directories_done(
        &self,
        after: FffClient<S, D>,
        res: Result<Vec<DirectoryInfoWire>, ClientError>,
    ) -> bool {
        exists|request: Request, reply: Result<Response, ClientError>| {
            &&& #[trigger] self.asked(after, request, reply)
            &&& request is ListDirectories
            &&& match delivered(reply) {
                Ok(Response::Directories(infos)) => res == Ok::<Vec<DirectoryInfoWire>, ClientError>(
                    infos,
                ),
                Ok(other) => self.surprised(other, res),
                Err(e) => res == Err::<Vec<DirectoryInfoWire>, ClientError>(e),
            }
            &&& after.base_path == self.base_path
            &&& after.db == self.db
            &&& after.uses == self.uses
        }
    }

    /// `ping` takes the client to `after` and gives `res`.
    pub open spec fn ping_done(
        &self,
        after: FffClient<S, D>,
        res: Result<(), ClientError>,
    ) -> bool {
        exists|request: Request, reply: Result<Response, ClientError>| {
            &&& #[trigger] self.asked(after, request, reply)
            &&& request is Ping
            &&& match delivered(reply) {
                Ok(Response::Pong) => res == Ok::<(), ClientError>(()),
                Ok(other) => self.surprised(other, res),
                Err(e) => res == Err::<(), ClientError>(e),
            }
            &&& after.base_path == self.base_path
            &&& after.db == self.db
            &&& after.uses == self.uses
        }
    }

    /// `shutdown` takes the client to `after` and gives `res`.
    pub open spec fn shutdown_done(
        &self,
        after: FffClient<S, D>,
        res: Result<(), ClientError>,
    ) -> bool {
        exists|request: Request, reply: Result<Response, ClientError>| {
            &&& #[trigger] self.asked(after, request, reply)
            &&& request is Shutdown
            &&& res == Ok::<(), ClientError>(())
            &&& after.base_path == self.base_path
            &&& after.db == self.db
            &&& after.uses == self.uses
        }
    }

    /// Tells the daemon where the databases lie.
    pub fn init_db(
        &mut self,
        frecency_db_path: &str,
        history_db_path: &str,
        use_unsafe_no_lock: bool,
    ) -> (res: Result<bool, ClientError>)
        requires
            old(self).ready(),
        ensures
            old(self).init_db_done(
                *final(self),
                frecency_db_path@,
                history_db_path@,
                use_unsafe_no_lock,
                res,
            ),
    {
        let request = Request::InitDb {
            frecency_db_path: frecency_db_path.to_owned(),
            history_db_path: history_db_path.to_owned(),
            use_unsafe_no_lock,
        };
        let (answer, reply) = self.send(&request);
        if answer.is_ok() {
            self.db = Some(
                DbPaths {
                    frecency_db_path: frecency_db_path.to_owned(),
                    history_db_path: history_db_path.to_owned(),
                    use_unsafe_no_lock,
                },
            );
        }
        assert(old(self).asked(*self, request, reply@));
        bool_of(answer, true)
    }

    /// Has the daemon index a directory, which the client works on from then on.
    pub fn init_file_picker(
        &mut self,
        base_path: &str,
        watch_git_events: bool,
    ) -> (res: Result<bool, ClientError>)
        requires
            old(self).ready(),
        ensures
            old(self).init_file_picker_done(*final(self), base_path@, watch_git_events, res),
    {
        self.base_path = FsPath::from_text(base_path);
        let request = Request::IndexDirectory {
            path: FsPath::from_text(base_path),
            watch_git_events,
        };
        let (answer, reply) = self.send(&request);
        self.uses = setting_after(&answer, watch_git_events);
        assert(old(self).asked(*self, request, reply@));
        bool_of(answer, true)
    }

    /// Moves the client from its directory to another one.
    pub fn restart_index_in_path(&mut self, new_path: &str) -> (res: Result<(), ClientError>)
        requires
            old(self).ready(),
        ensures
            old(self).restart_index_in_path_done(*final(self), new_path@, res),
    {
        let path = self.base_path.clone();
        self.base_path = FsPath::from_text(new_path);
        let request = Request::RestartIndex { path, new_path: FsPath::from_text(new_path) };
        let (answer, reply) = self.send(&request);
        self.uses = setting_after(&answer, true);
        assert(old(self).asked(*self, request, reply@));
        match answer {
            Ok(_) => Ok(()),
            Err(e) => Err(e),
        }
    }

    /// Has the directory scanned again.
    pub fn scan_files(&mut self) -> (res: Result<(), ClientError>)
        requires
            old(self).ready(),
        ensures
            old(self).scan_files_done(*final(self), res),
    {
        let request = Request::TriggerRescan { path: self.base_path.clone() };
        let (answer, reply) = self.send(&request);
        assert(old(self).asked(*self, request, reply@));
        match answer {
            Ok(_) => Ok(()),
            Err(e) => Err(e),
        }
    }

    /// Searches for files.
    pub fn fuzzy_search_files(
        &mut self,
        query: &str,
        max_threads: usize,
        current_file: Option<&str>,
        combo_boost_score_multiplier: i32,
        min_combo_count: u32,
        page_index: usize,
        page_size: usize,
    ) -> (res: Result<SearchResultWire, ClientError>)
        requires
            old(self).ready(),
        ensures
            old(self).fuzzy_search_files_done(
                *final(self),
                query@,
                max_threads,
                opt_str(current_file),
                combo_boost_score_multiplier,
                min_combo_count,
                page_index,
                page_size,
                res,
            ),
    {
        let current_file = match current_file {
            Some(text) => Some(text.to_owned()),
            None => None,
        };
        let request = Request::FuzzySearch {
            path: self.base_path.clone(),
            query: query.to_owned(),
            max_threads,
            current_file,
            combo_boost_score_multiplier,
            min_combo_count,
            page_index,
            page_size,
        };
        let (answer, reply) = self.send(&request);
        assert(old(self).asked(*self, request, reply@));
        match answer {
            Ok(Response::SearchResult(found)) => Ok(found),
            Ok(other) => self.unexpected(other),
            Err(e) => Err(e),
        }
    }

    /// Searches the contents of files.
    pub fn live_grep(
        &mut self,
        query: &str,
        file_offset: usize,
        page_size: usize,
        max_file_size: u64,
        max_matches_per_file: usize,
        smart_case: bool,
        grep_mode: GrepModeWire,
        time_budget_ms: u64,
        trim_whitespace: bool,
    ) -> (res: Result<GrepResultWire, ClientError>)
        requires
            old(self).ready(),
        ensures
            old(self).live_grep_done(
                *final(self),
                query@,
                file_offset,
                page_size,
                max_file_size,
                max_matches_per_file,
                smart_case,
                grep_mode,
                time_budget_ms,
                trim_whitespace,
                res,
            ),
            exists|request: Request, reply: Result<Response, ClientError>| {
                &&& #[trigger] crate::laws::calls::only_sent(
                    old(self).link.log(),
                    final(self).link.log(),
                    request,
                    reply,
                )
                &&& request matches Request::GrepSearch {
                    query: sent_query,
                    file_offset: sent_file_offset,
                    page_size: sent_page_size,
                    max_matches_per_file: sent_max_matches_per_file,
                    smart_case: sent_smart_case,
                    trim_whitespace: sent_trim_whitespace,
                    ..
                }
                &&& sent_query@ == query@
                &&& sent_file_offset == file_offset
                &&& sent_page_size == page_size
                &&& sent_max_matches_per_file == max_matches_per_file
                &&& sent_smart_case == smart_case
                &&& sent_trim_whitespace == trim_whitespace
            },
    {
        let request = Request::GrepSearch {
            path: self.base_path.clone(),
            query: query.to_owned(),
            file_offset,
            page_size,
            max_file_size,
            max_matches_per_file,
            smart_case,
            grep_mode,
            time_budget_ms,
            trim_whitespace,
        };
        let (answer, reply) = self.send(&request);
        assert(old(self).asked(*self, request, reply@));
        let res = match answer {
            Ok(Response::GrepResult(found)) => Ok(found),
            Ok(other) => self.unexpected(other),
            Err(e) => Err(e),
        };
        proof {
            crate::laws::calls::live_grep_says_what_it_is_told(
                *old(self),
                *self,
                query@,
                file_offset,
                page_size,
                max_file_size,
                max_matches_per_file,
                smart_case,
                grep_mode,
                time_budget_ms,
                trim_whitespace,
                res,
            );
        }
        res
    }

    /// Notes that a file was opened.
    pub fn track_access(&mut self, file_path: &str) -> (res: Result<bool, ClientError>)
        requires
            old(self).ready(),
        ensures
            old(self).track_access_done(*final(self), file_path@, res),
    {
        let request = Request::TrackAccess {
            path: self.base_path.clone(),
            file_path: file_path.to_owned(),
        };
        let (answer, reply) = self.send(&request);
        assert(old(self).asked(*self, request, reply@));
        bool_of(answer, true)
    }

    /// Asks how far the scan of the directory has come.
    pub fn get_scan_progress(&mut self) -> (res: Result<ScanProgressWire, ClientError>)
        requires
            old(self).ready(),
        ensures
            old(self).get_scan_progress_done(*final(self), res),
    {
        let request = Request::GetScanProgress { path: self.base_path.clone() };
        let (answer, reply) = self.send(&request);
        assert(old(self).asked(*self, request, reply@));
        match answer {
            Ok(Response::ScanProgress(progress)) => Ok(progress),
            Ok(other) => self.unexpected(other),
            Err(e) => Err(e),
        }
    }

    /// Asks whether the directory is being scanned.
    pub fn is_scanning(&mut self) -> (res: Result<bool, ClientError>)
        requires
            old(self).ready(),
        ensures
            old(self).is_scanning_done(*final(self), res),
    {
        let request = Request::IsScanning { path: self.base_path.clone() };
        let (answer, reply) = self.send(&request);
        assert(old(self).asked(*self, request, reply@));
        bool_of(answer, false)
    }

    /// Asks for the root of the repository that the directory lies in.
    pub fn get_git_root(&mut self) -> (res: Result<Option<String>, ClientError>)
        requires
            old(self).ready(),
        ensures
            old(self).get_git_root_done(*final(self), res),
    {
        let request = Request::GetGitRoot { path: self.base_path.clone() };
        let (answer, reply) = self.send(&request);
        assert(old(self).asked(*self, request, reply@));
        text_of(answer)
    }

    /// Asks for the path of the directory.
    pub fn get_base_path(&mut self) -> (res: Result<Option<String>, ClientError>)
        requires
            old(self).ready(),
        ensures
            old(self).get_base_path_done(*final(self), res),
    {
        let request = Request::GetBasePath { path: self.base_path.clone() };
        let (answer, reply) = self.send(&request);
        assert(old(self).asked(*self, request, reply@));
        text_of(answer)
    }

    /// Has the state of the files in version control read again, and gives their number.
    pub fn refresh_git_status(&mut self) -> (res: Result<usize, ClientError>)
        requires
            old(self).ready(),
        ensures
            old(self).refresh_git_status_done(*final(self), res),
    {
        let request = Request::RefreshGitStatus { path: self.base_path.clone() };
        let (answer, reply) = self.send(&request);
        assert(old(self).asked(*self, request, reply@));
        match answer {
            Ok(Response::Usize(n)) => Ok(n),
            Ok(_) => Ok(0),
            Err(e) => Err(e),
        }
    }

    /// Has the score of a file computed anew.
    pub fn update_single_file_frecency(
        &mut self,
        file_path: &str,
    ) -> (res: Result<bool, ClientError>)
        requires
            old(self).ready(),
        ensures
            old(self).update_single_file_frecency_done(*final(self), file_path@, res),
    {
        let request = Request::UpdateSingleFileFrecency {
            path: self.base_path.clone(),
            file_path: file_path.to_owned(),
        };
        let (answer, reply) = self.send(&request);
        assert(old(self).asked(*self, request, reply@));
        bool_of(answer, true)
    }

    /// Stops watching the directory.
    pub fn stop_background_monitor(&mut self) -> (res: Result<bool, ClientError>)
        requires
            old(self).ready(),
        ensures
            old(self).stop_background_monitor_done(*final(self), res),
    {
        let request = Request::StopBackgroundMonitor { path: self.base_path.clone() };
        let (answer, reply) = self.send(&request);
        assert(old(self).asked(*self, request, reply@));
        bool_of(answer, true)
    }

    /// Tells the daemon that the client is done with the directory.
    pub fn cleanup_file_picker(&mut self) -> (res: Result<bool, ClientError>)
        requires
            old(self).ready(),
        ensures
            old(self).cleanup_file_picker_done(*final(self), res),
    {
        let request = Request::CleanupFilePicker { path: self.base_path.clone() };
        let (answer, reply) = self.send(&request);
        if answer.is_ok() {
            self.uses = None;
        }
        assert(old(self).asked(*self, request, reply@));
        bool_of(answer, true)
    }

    /// Waits until the directory has been scanned.
    pub fn wait_for_initial_scan(&mut self, timeout_ms: u64) -> (res: Result<bool, ClientError>)
        requires
            old(self).ready(),
        ensures
            old(self).wait_for_initial_scan_done(*final(self), timeout_ms, res),
    {
        let request = Request::WaitForScan { path: self.base_path.clone(), timeout_ms };
        let (answer, reply) = self.send(&request);
        assert(old(self).asked(*self, request, reply@));
        bool_of(answer, true)
    }

    /// Notes which file a query led to.
    pub fn track_query_completion(
        &mut self,
        query: &str,
        file_path: &str,
    ) -> (res: Result<bool, ClientError>)
        requires
            old(self).ready(),
        ensures
            old(self).track_query_completion_done(*final(self), query@, file_path@, res),
    {
        let request = Request::TrackQueryCompletion {
            path: self.base_path.clone(),
            query: query.to_owned(),
            file_path: file_path.to_owned(),
        };
        let (answer, reply) = self.send(&request);
        assert(old(self).asked(*self, request, reply@));
        bool_of(answer, true)
    }

    /// Notes a content query.
    pub fn track_grep_query(&mut self, query: &str) -> (res: Result<bool, ClientError>)
        requires
            old(self).ready(),
        ensures
            old(self).track_grep_query_done(*final(self), query@, res),
    {
        let request = Request::TrackGrepQuery {
            path: self.base_path.clone(),
            query: query.to_owned(),
        };
        let (answer, reply) = self.send(&request);
        assert(old(self).asked(*self, request, reply@));
        bool_of(answer, true)
    }

    /// Asks for an earlier query.
    pub fn get_historical_query(
        &mut self,
        offset: usize,
    ) -> (res: Result<Option<String>, ClientError>)
        requires
            old(self).ready(),
        ensures
            old(self).get_historical_query_done(*final(self), offset, res),
    {
        let request = Request::GetHistoricalQuery { path: self.base_path.clone(), offset };
        let (answer, reply) = self.send(&request);
        assert(old(self).asked(*self, request, reply@));
        text_of(answer)
    }

    /// Asks for an earlier content query.
    pub fn get_historical_grep_query(
        &mut self,
        offset: usize,
    ) -> (res: Result<Option<String>, ClientError>)
        requires
            old(self).ready(),
        ensures
            old(self).get_historical_grep_query_done(*final(self), offset, res),
    {
        let request = Request::GetHistoricalGrepQuery { path: self.base_path.clone(), offset };
        let (answer, reply) = self.send(&request);
        assert(old(self).asked(*self, request, reply@));
        text_of(answer)
    }

    /// Asks which text a content query searches for.
    pub fn parse_grep_query(&mut self, query: &str) -> (res: Result<String, ClientError>)
        requires
            old(self).ready(),
        ensures
            old(self).parse_grep_query_done(*final(self), query@, res),
    {
        let request = Request::ParseGrepQuery { query: query.to_owned() };
        let (answer, reply) = self.send(&request);
        assert(old(self).asked(*self, request, reply@));
        match answer {
            Ok(Response::ParsedGrepQuery { grep_text }) => Ok(grep_text),
            Ok(other) => self.unexpected(other),
            Err(e) => Err(e),
        }
    }

    /// Asks what the daemon knows of itself and of the directory.
    pub fn health_check(&mut self) -> (res: Result<HealthCheckWire, ClientError>)
        requires
            old(self).ready(),
        ensures
            old(self).health_check_done(*final(self), res),
    {
        let request = Request::HealthCheck { path: self.base_path.clone() };
        let (answer, reply) = self.send(&request);
        assert(old(self).asked(*self, request, reply@));
        match answer {
            Ok(Response::HealthCheck(health)) => Ok(health),
            Ok(other) => self.unexpected(other),
            Err(e) => Err(e),
        }
    }

    /// Asks which directories are indexed.
    pub fn list_directories(&mut self) -> (res: Result<Vec<DirectoryInfoWire>, ClientError>)
        requires
            old(self).ready(),
        ensures
            old(self).list_directories_done(*final(self), res),
    {
        let request = Request::ListDirectories;
        let (answer, reply) = self.send(&request);
        assert(old(self).asked(*self, request, reply@));
        match answer {
            Ok(Response::Directories(infos)) => Ok(infos),
            Ok(other) => self.unexpected(other),
            Err(e) => Err(e),
        }
    }

    /// Asks whether the daemon is there.
    pub fn ping(&mut self) -> (res: Result<(), ClientError>)
        requires
            old(self).ready(),
        ensures
            old(self).ping_done(*final(self), res),
    {
        let request = Request::Ping;
        let (answer, reply) = self.send(&request);
        assert(old(self).asked(*self, request, reply@));
        match answer {
            Ok(Response::Pong) => Ok(()),
            Ok(other) => self.unexpected(other),
            Err(e) => Err(e),
        }
    }

    /// Has the daemon stop. What it answers does not matter.
    pub fn shutdown(&mut self) -> (res: Result<(), ClientError>)
        requires
            old(self).ready(),
        ensures
            old(self).shutdown_done(*final(self), res),
    {
        let request = Request::Shutdown;
        let (_, reply) = self.send(&request);
        assert(old(self).asked(*self, request, reply@));
        Ok(())
    }
}

/// What went wrong when a client tried to start the daemon.
#[derive(Debug)]
pub enum SpawnFailure {
    /// The daemon's program is nowhere to be found.
    NoProgram,
    /// The directory for the socket could not be created.
    NoSocketDir(String),
    /// The program did not start.
    NotStarted { program: FsPath, reason: String },
}

/// How the failure to start a daemon reads.
pub open spec fn spawn_failure_text(failure: SpawnFailure) -> Seq<char> {
    match failure {
        SpawnFailure::NoProgram => "fff-daemon binary not found"@,
        SpawnFailure::NoSocketDir(reason) => "failed to create socket dir: "@ + reason@,
        SpawnFailure::NotStarted { program, reason } => "failed to spawn "@
            + crate::path::lossy_text(program@) + ": "@ + reason@,
    }
}

/// The error for a daemon that could not be started.
pub fn spawn_error(failure: SpawnFailure) -> (res: ClientError)
    ensures
        res matches ClientError::SpawnFailed(message) && message@ == spawn_failure_text(failure),
{
    match failure {
        SpawnFailure::NoProgram => ClientError::SpawnFailed(
            "fff-daemon binary not found".to_owned(),
        ),
        SpawnFailure::NoSocketDir(reason) => ClientError::SpawnFailed(
            prefixed("failed to create socket dir: ", reason.as_str()),
        ),
        SpawnFailure::NotStarted { program, reason } => {
            let shown = program.display();
            let message = prefixed("failed to spawn ", shown.as_str());
            ClientError::SpawnFailed(message.concat(": ").concat(reason.as_str()))
        },
    }
}

/// The caller learns of every refusal of the daemon, with the daemon's words, and of
/// nothing else as a refusal.
pub proof fn refusals_reach_the_caller(reply: Result<Response, ClientError>)
    requires
        reply is Ok,
    ensures
        delivered(reply) is Err <==> reply->Ok_0 is Error,
        reply->Ok_0 is Error ==> delivered(reply) == Err::<Response, ClientError>(
            ClientError::DaemonError(reply->Ok_0->Error_0),
        ),
        unit_answer(reply) is Err <==> reply->Ok_0 is Error,
        text_answer(reply) is Err <==> reply->Ok_0 is Error,
        count_answer(reply) is Err <==> reply->Ok_0 is Error,
        forall|otherwise: bool| #[trigger]
            bool_answer(reply, otherwise) is Err <==> reply->Ok_0 is Error,
{
}

/// At the start of a connection nothing but two requests is ever sent. The daemon is asked for
/// the directory only after it has been told of the databases, and only where it has accepted
/// that.
pub proof fn databases_come_first(
    log: Seq<Event>,
    db: DbPaths,
    directory: Option<(Seq<u8>, bool)>,
    outcome: Result<(), ClientError>,
)
    requires
        opening(log, Some(db), directory, outcome),
    ensures
        log.len() <= 3,
        log[1] is Sent,
        db.told_by(log[1]->request),
        unit_answer(log[1]->reply) is Err ==> log.len() == 2 && outcome is Err,
        log.len() == 3 ==> {
            &&& unit_answer(log[1]->reply) is Ok
            &&& log[2] is Sent
            &&& directory matches Some((path, watch_git_events))
            &&& asks_for(log[2]->request, path, watch_git_events)
        },
{
}

/// Once the daemon has accepted the places of the databases, every new connection starts with
/// telling it the same places again, and the client remembers them for the next one.
pub proof fn reconnects_replay_databases<
    S: Fn(&Request) -> Result<Response, ClientError>,
    D: Fn(&Response) -> String,
>(
    before: FffClient<S, D>,
    mid: FffClient<S, D>,
    after: FffClient<S, D>,
    frecency_db_path: Seq<char>,
    history_db_path: Seq<char>,
    use_unsafe_no_lock: bool,
    exchange: S,
    accepted: bool,
    res: Result<(), ClientError>,
)
    requires
        before.init_db_done(
            mid,
            frecency_db_path,
            history_db_path,
            use_unsafe_no_lock,
            Ok(accepted),
        ),
        mid.reconnect_done(after, exchange, res),
    ensures
        ({
            let told = mid.link.log().len() as int;
            let log = after.link.log();
            &&& log.len() >= told + 2
            &&& log[told] is Opened
            &&& log[told + 1] is Sent
            &&& log[told + 1]->request matches Request::InitDb {
                frecency_db_path: frecency,
                history_db_path: history,
                use_unsafe_no_lock: no_lock,
            }
            &&& frecency@ == frecency_db_path
            &&& history@ == history_db_path
            &&& no_lock == use_unsafe_no_lock
            &&& after.db == mid.db
        }),
{
    let told = mid.link.log().len() as int;
    let talk = after.link.log().skip(told);
    assert(talk[0] == after.link.log()[told]);
    assert(talk[1] == after.link.log()[told + 1]);
}

/// Where going on over a new connection succeeds, a client that uses a directory has asked for
/// it again, as the last thing, and the daemon has granted it.
pub proof fn reconnects_ask_for_the_directory<
    S: Fn(&Request) -> Result<Response, ClientError>,
    D: Fn(&Response) -> String,
>(
    before: FffClient<S, D>,
    after: FffClient<S, D>,
    watch_git_events: bool,
    exchange: S,
    res: Result<(), ClientError>,
)
    requires
        before.uses == Some(watch_git_events),
        before.reconnect_done(after, exchange, res),
        res is Ok,
    ensures
        after.link.log().len() > before.link.log().len(),
        after.link.log().last() is Sent,
        asks_for(after.link.log().last()->request, before.base_path@, watch_git_events),
        unit_answer(after.link.log().last()->reply) is Ok,
        after.uses == Some(watch_git_events),
        !after.lost,
{
    let talk = after.link.log().skip(before.link.log().len() as int);
    assert(talk.last() == after.link.log().last());
}

} // verus!
