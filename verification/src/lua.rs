//! The daemon as scripts see it: the functions that an editor calls, with the values that
//! stand in for arguments left out, and the tables that they give back.

use crate::client::{opening, spoken_over, ClientError, DbPaths, FffClient};
use crate::link::{ClosedLinks, Event};
use crate::path::FsPath;
use crate::protocol::{
    DirectoryInfoWire, GrepModeWire, GrepResultWire, HealthCheckWire, Request, Response,
    ScanProgressWire, SearchResultWire,
};
use crate::table::{
    directories_to_lua, grep_result_wire_to_lua, health_to_lua, parsed_query_to_lua,
    scan_progress_to_lua, search_result_wire_to_lua, Value,
};
use crate::text::prefixed;
use vstd::prelude::*;
use vstd::string::*;
use vstd::utf8::*;

verus! {

/// What an editor keeps between two calls.
pub struct LuaBridge<S, D> {
    /// The client, once a directory has been indexed.
    pub client: Option<FffClient<S, D>>,
    /// Where the databases lie, as long as there is no client to tell the daemon.
    pub pending: Option<DbPaths>,
    /// The lines that were given up before there was a client.
    pub closed: ClosedLinks,
}

/// Which connection a script's next call needs.
#[derive(Debug, Clone, Copy, PartialEq, Eq, Structural)]
pub enum Need {
    /// There is no client yet.
    First,
    /// The client has lost its connection.
    Another,
    /// None.
    Nothing,
}

/// `res` says that there is no connection, and why.
pub open spec fn no_connection<T>(error: ClientError, res: Result<T, String>) -> bool {
    &&& res matches Err(message)
    &&& exists|text: Seq<char>| #[trigger]
        crate::client::reads(error, text) && message@ == "failed to connect to daemon: "@ + text
}

/// What is said before there is a client.
pub open spec fn no_client() -> Seq<char> {
    "daemon client not initialized — call init_file_picker first"@
}

/// `message` is what a script is told of the client's error.
pub open spec fn tells(error: ClientError, message: Seq<char>) -> bool {
    exists|text: Seq<char>| #[trigger]
        crate::client::reads(error, text) && message == "daemon error: "@ + text
}

/// `res` hands on what the client gave.
pub open spec fn relays<T>(inner: Result<T, ClientError>, res: Result<T, String>) -> bool {
    match inner {
        Ok(value) => res == Ok::<T, String>(value),
        Err(e) => res matches Err(message) && tells(e, message@),
    }
}

/// `res` is an error with this text.
pub open spec fn fails<T>(res: Result<T, String>, text: Seq<char>) -> bool {
    res matches Err(message) && message@ == text
}

/// How a script names the mode of a content search.
pub open spec fn grep_mode_named(name: Option<Seq<char>>) -> GrepModeWire {
    match name {
        Some(name) => if name == "regex"@ {
            GrepModeWire::Regex
        } else if name == "fuzzy"@ {
            GrepModeWire::Fuzzy
        } else {
            GrepModeWire::PlainText
        },
        None => GrepModeWire::PlainText,
    }
}

/// `value`, or `otherwise` where it was left out.
pub open spec fn given<T>(value: Option<T>, otherwise: T) -> T {
    match value {
        Some(value) => value,
        None => otherwise,
    }
}

/// `value`, or `otherwise` where it was left out.
fn given_or<T>(value: Option<T>, otherwise: T) -> (res: T)
    ensures
        res == given(value, otherwise),
{
    match value {
        Some(value) => value,
        None => otherwise,
    }
}

/// The mode of a content search by its name.
pub fn grep_mode_of(name: &Option<String>) -> (res: GrepModeWire)
    ensures
        res == grep_mode_named(crate::client::opt_string(*name)),
{
    match name {
        Some(name) => if *name == "regex".to_owned() {
            GrepModeWire::Regex
        } else if *name == "fuzzy".to_owned() {
            GrepModeWire::Fuzzy
        } else {
            GrepModeWire::PlainText
        },
        None => GrepModeWire::PlainText,
    }
}

/// What is said where the client is out of reach.
pub fn client_lock_error(reason: &str) -> (res: String)
    ensures
        res@ == "failed to lock daemon client: "@ + reason@,
{
    prefixed("failed to lock daemon client: ", reason)
}

/// What a script is told of the client's error.
fn told(error: &ClientError) -> (res: String)
    ensures
        tells(*error, res@),
{
    let text = error.message();
    prefixed("daemon error: ", text.as_str())
}

/// Hands on what the client gave.
fn relay<T>(inner: Result<T, ClientError>) -> (res: Result<T, String>)
    ensures
        relays(inner, res),
{
    match inner {
        Ok(value) => Ok(value),
        Err(e) => Err(told(&e)),
    }
}

impl<
    S: Fn(&Request) -> Result<Response, ClientError>,
    D: Fn(&Response) -> String,
> LuaBridge<S, D> {
    /// The client, where there is one, can be used.
    pub open spec fn ready(&self) -> bool {
        self.client matches Some(client) ==> client.ready()
    }

    /// An editor that has not called anything yet.
    pub fn new() -> (res: LuaBridge<S, D>)
        ensures
            res.client is None,
            res.pending is None,
            res.closed.logs() == Seq::<Seq<Event>>::empty(),
    {
        LuaBridge { client: None, pending: None, closed: ClosedLinks::new() }
    }

    /// The client, or what is said before there is one.
    pub fn with_client(&mut self) -> (res: Result<&mut FffClient<S, D>, String>)
        ensures
            final(self).pending == old(self).pending,
            final(self).closed == old(self).closed,
            match old(self).client {
                Some(client) => {
                    &&& res matches Ok(given)
                    &&& *given == client
                    &&& final(self).client == Some(*final(given))
                    &&& final(self).client->0 == *final(given)
                },
                None => res matches Err(message) && message@ == no_client() && *final(self) == *old(
                    self,
                ),
            },
    {
        match &mut self.client {
            Some(client) => Ok(client),
            None => Err("daemon client not initialized — call init_file_picker first".to_owned()),
        }
    }

    /// Nothing but the client has changed.
    pub open spec fn goes_on(&self, after: LuaBridge<S, D>) -> bool {
        &&& after.client is Some
        &&& after.pending == self.pending
        &&& after.closed == self.closed
    }

    /// Which connection is needed.
    pub open spec fn need(&self) -> Need {
        match self.client {
            None => Need::First,
            Some(client) => if client.lost {
                Need::Another
            } else {
                Need::Nothing
            },
        }
    }

    /// Which connection the next call needs. `init_file_picker` takes a first one, and
    /// `reconnect` another one.
    pub fn connection_needed(&self) -> (res: Need)
        ensures
            res == self.need(),
    {
        match &self.client {
            None => Need::First,
            Some(client) => if client.lost {
                Need::Another
            } else {
                Need::Nothing
            },
        }
    }

    /// `reconnect` takes the editor's state to `after` and gives `res`.
    pub open spec fn reconnect_done(
        &self,
        after: LuaBridge<S, D>,
        line: Result<S, ClientError>,
        res: Result<(), String>,
    ) -> bool {
        match line {
            Err(e) => after == *self && no_connection(e, res),
            Ok(exchange) => match self.client {
                Some(client) => self.goes_on(after) && exists|
                    inner: Result<(), ClientError>,
                | #[trigger]
                    client.reconnect_done(after.client->0, exchange, inner) && relays(inner, res),
                None => after == *self && fails(res, no_client()),
            },
        }
    }

    /// Has the client go on over another connection, or says why there is none.
    pub fn reconnect(&mut self, line: Result<S, ClientError>) -> (res: Result<(), String>)
        requires
            old(self).ready(),
            line matches Ok(exchange) ==> forall|request: &Request| #[trigger]
                call_requires(exchange, (request,)),
        ensures
            old(self).reconnect_done(*final(self), line, res),
    {
        match line {
            Ok(exchange) => match self.with_client() {
                Ok(client) => relay(client.reconnect(exchange)),
                Err(message) => Err(message),
            },
            Err(e) => {
                let text = e.message();
                Err(prefixed("failed to connect to daemon: ", text.as_str()))
            },
        }
    }

    /// `init_db` takes the editor's state to `after` and gives `res`.
    pub open spec fn init_db_done(
        &self,
        after: LuaBridge<S, D>,
        frecency_db_path: String,
        history_db_path: String,
        use_unsafe_no_lock: bool,
        res: Result<bool, String>,
    ) -> bool {
        match self.client {
            Some(client) => self.goes_on(after) && exists|
                inner: Result<bool, ClientError>,
            | #[trigger]
                client.init_db_done(
                    after.client->0,
                    frecency_db_path@,
                    history_db_path@,
                    use_unsafe_no_lock,
                    inner,
                ) && match inner {
                    Ok(_) => res == Ok::<bool, String>(true),
                    Err(e) => res matches Err(message) && tells(e, message@),
                },
            None => {
                &&& res == Ok::<bool, String>(true)
                &&& after.client is None
                &&& after.closed == self.closed
                &&& after.pending == Some(
                    DbPaths { frecency_db_path, history_db_path, use_unsafe_no_lock },
                )
            },
        }
    }

    /// Tells the daemon where the databases lie, or keeps it in mind until there is a client.
    pub fn init_db(
        &mut self,
        frecency_db_path: String,
        history_db_path: String,
        use_unsafe_no_lock: bool,
    ) -> (res: Result<bool, String>)
        requires
            old(self).ready(),
        ensures
            old(self).init_db_done(
                *final(self),
                frecency_db_path,
                history_db_path,
                use_unsafe_no_lock,
                res,
            ),
    {
        match &mut self.client {
            Some(client) => {
                let inner = client.init_db(
                    frecency_db_path.as_str(),
                    history_db_path.as_str(),
                    use_unsafe_no_lock,
                );
                assert(*client == after_borrow(self).client->0);
                match inner {
                    Ok(_) => Ok(true),
                    Err(e) => Err(told(&e)),
                }
            },
            None => {
                self.pending = Some(
                    DbPaths { frecency_db_path, history_db_path, use_unsafe_no_lock },
                );
                Ok(true)
            },
        }
    }

    /// What a first call comes to over a connection that has been set up. The client is kept
    /// where the daemon accepts all that it is told and asked, and knows the databases from
    /// then on; otherwise the line is given up, and what was kept in mind stays in mind for the
    /// next one.
    pub open spec fn started(
        &self,
        after: LuaBridge<S, D>,
        exchange: S,
        show: D,
        base_path: Seq<char>,
        watch_git_events: bool,
        res: Result<bool, String>,
    ) -> bool {
        exists|log: Seq<Event>, outcome: Result<(), ClientError>| {
            &&& #[trigger] opening(
                log,
                self.pending,
                Some((encode_utf8(base_path), watch_git_events)),
                outcome,
            )
            &&& spoken_over(log, exchange)
            &&& match outcome {
                Ok(_) => {
                    &&& res == Ok::<bool, String>(true)
                    &&& after.pending is None
                    &&& after.closed == self.closed
                    &&& after.client matches Some(client)
                    &&& client.link.log() == log
                    &&& client.link.exchange() == exchange
                    &&& client.show == show
                    &&& client.base_path@ == encode_utf8(base_path)
                    &&& client.uses == Some(watch_git_events)
                    &&& !client.lost
                    &&& match self.pending {
                        Some(db) => client.db matches Some(known) && known.names(
                            db.frecency_db_path@,
                            db.history_db_path@,
                            db.use_unsafe_no_lock,
                        ),
                        None => client.db is None,
                    }
                },
                Err(e) => {
                    &&& res matches Err(message)
                    &&& tells(e, message@)
                    &&& after.client is None
                    &&& after.pending == self.pending
                    &&& after.closed.logs() == self.closed.logs().push(log)
                },
            }
        }
    }

    /// Tells the daemon what was kept in mind about the databases, and asks it for the
    /// directory.
    fn start(&mut self, base_path: &str, watch_git_events: bool, exchange: S, show: D) -> (res:
        Result<bool, String>)
        requires
            old(self).client is None,
            forall|request: &Request| #[trigger] call_requires(exchange, (request,)),
            forall|response: &Response| #[trigger] call_requires(show, (response,)),
        ensures
            old(self).started(*final(self), exchange, show, base_path@, watch_git_events, res),
    {
        let mut client = FffClient::connect_to(&FsPath::from_text(base_path), exchange, show);
        if let Some(db) = &self.pending {
            if let Err(e) = client.init_db(
                db.frecency_db_path.as_str(),
                db.history_db_path.as_str(),
                db.use_unsafe_no_lock,
            ) {
                proof {
                    let log = client.link.log();
                    assert(opening(
                        log,
                        self.pending,
                        Some((encode_utf8(base_path@), watch_git_events)),
                        Err(e),
                    ));
                }
                self.closed.close(client.link);
                return Err(told(&e));
            }
        }
        match client.init_file_picker(base_path, watch_git_events) {
            Ok(_) => {
                proof {
                    let log = client.link.log();
                    assert(opening(
                        log,
                        self.pending,
                        Some((encode_utf8(base_path@), watch_git_events)),
                        Ok(()),
                    ));
                }
                self.pending = None;
                self.client = Some(client);
                Ok(true)
            },
            Err(e) => {
                proof {
                    let log = client.link.log();
                    assert(opening(
                        log,
                        self.pending,
                        Some((encode_utf8(base_path@), watch_git_events)),
                        Err(e),
                    ));
                }
                self.closed.close(client.link);
                Err(told(&e))
            },
        }
    }

    /// `init_file_picker` takes the editor's state to `after` and gives `res`.
    pub open spec fn init_file_picker_done(
        &self,
        after: LuaBridge<S, D>,
        base_path: Seq<char>,
        watch_git_events: Option<bool>,
        line: Option<Result<(S, D), ClientError>>,
        res: Result<bool, String>,
    ) -> bool {
        match (self.client, line) {
            (Some(client), _) => self.goes_on(after) && exists|
                inner: Result<bool, ClientError>,
            | #[trigger]
                client.init_file_picker_done(
                    after.client->0,
                    base_path,
                    given(watch_git_events, true),
                    inner,
                ) && match inner {
                    Ok(_) => res == Ok::<bool, String>(true),
                    Err(e) => res matches Err(message) && tells(e, message@),
                },
            (None, Some(Err(e))) => after == *self && no_connection(e, res),
            (None, Some(Ok((exchange, show)))) => self.started(
                after,
                exchange,
                show,
                base_path,
                given(watch_git_events, true),
                res,
            ),
            (None, None) => true,
        }
    }

    /// Has the daemon index a directory. The first call needs a connection: `line` is one,
    /// with what writes answers out, or why there is none.
    pub fn init_file_picker(
        &mut self,
        base_path: &str,
        watch_git_events: Option<bool>,
        line: Option<Result<(S, D), ClientError>>,
    ) -> (res: Result<bool, String>)
        requires
            old(self).ready(),
            line is Some <==> old(self).client is None,
            line matches Some(Ok((exchange, show))) ==> {
                &&& forall|request: &Request| #[trigger] call_requires(exchange, (request,))
                &&& forall|response: &Response| #[trigger] call_requires(show, (response,))
            },
        ensures
            old(self).init_file_picker_done(
                *final(self),
                base_path@,
                watch_git_events,
                line,
                res,
            ),
    {
        let watch = given_or(watch_git_events, true);
        match line {
            Some(Ok((exchange, show))) => self.start(base_path, watch, exchange, show),
            Some(Err(e)) => {
                let text = e.message();
                Err(prefixed("failed to connect to daemon: ", text.as_str()))
            },
            None => match self.with_client() {
                Ok(client) => match client.init_file_picker(base_path, watch) {
                    Ok(_) => Ok(true),
                    Err(e) => Err(told(&e)),
                },
                Err(message) => Err(message),
            },
        }
    }

    /// `restart_index_in_path` takes the editor's state to `after` and gives `res`.
    pub open spec fn restart_index_in_path_done(
        &self,
        after: LuaBridge<S, D>,
        new_path: Seq<char>,
        res: Result<(), String>,
    ) -> bool {
        match self.client {
            Some(client) => self.goes_on(after) && exists|
                inner: Result<(), ClientError>,
            | #[trigger]
                client.restart_index_in_path_done(after.client->0, new_path, inner)
                    && relays(inner, res),
            None => after == *self && fails(res, no_client()),
        }
    }

    /// Moves the client from its directory to another one.
    pub fn restart_index_in_path(&mut self, new_path: &str) -> (res: Result<(), String>)
        requires
            old(self).ready(),
        ensures
            old(self).restart_index_in_path_done(*final(self), new_path@, res),
    {
        match self.with_client() {
            Ok(client) => relay(client.restart_index_in_path(new_path)),
            Err(message) => Err(message),
        }
    }

    /// `scan_files` takes the editor's state to `after` and gives `res`.
    pub open spec fn scan_files_done(
        &self,
        after: LuaBridge<S, D>,
        res: Result<(), String>,
    ) -> bool {
        match self.client {
            Some(client) => self.goes_on(after) && exists|
                inner: Result<(), ClientError>,
            | #[trigger]
                client.scan_files_done(after.client->0, inner) && relays(inner, res),
            None => after == *self && fails(res, no_client()),
        }
    }

    /// Has the directory scanned again.
    pub fn scan_files(&mut self) -> (res: Result<(), String>)
        requires
            old(self).ready(),
        ensures
            old(self).scan_files_done(*final(self), res),
    {
        match self.with_client() {
            Ok(client) => relay(client.scan_files()),
            Err(message) => Err(message),
        }
    }

    /// `fuzzy_search_files` takes the editor's state to `after` and gives `res`.
    pub open spec fn fuzzy_search_files_done(
        &self,
        after: LuaBridge<S, D>,
        query: Seq<char>,
        max_threads: usize,
        current_file: Option<Seq<char>>,
        combo_boost_score_multiplier: i32,
        min_combo_count: Option<u32>,
        page_index: Option<usize>,
        page_size: Option<usize>,
        res: Result<Value, String>,
    ) -> bool {
        match self.client {
            Some(client) => self.goes_on(after) && exists|
                inner: Result<SearchResultWire, ClientError>,
            | #[trigger]
                client.fuzzy_search_files_done(
                    after.client->0,
                    query,
                    max_threads,
                    current_file,
                    combo_boost_score_multiplier,
                    given(min_combo_count, 3),
                    given(page_index, 0),
                    given(page_size, 0),
                    inner,
                ) && match inner {
                    Ok(found) => res matches Ok(value) && crate::table::held(value)
                        == crate::table::search_table(found),
                    Err(e) => res matches Err(message) && tells(e, message@),
                },
            None => after == *self && fails(res, no_client()),
        }
    }

    /// Searches for files.
    pub fn fuzzy_search_files(
        &mut self,
        query: &str,
        max_threads: usize,
        current_file: Option<&str>,
        combo_boost_score_multiplier: i32,
        min_combo_count: Option<u32>,
        page_index: Option<usize>,
        page_size: Option<usize>,
    ) -> (res: Result<Value, String>)
        requires
            old(self).ready(),
        ensures
            old(self).fuzzy_search_files_done(
                *final(self),
                query@,
                max_threads,
                crate::client::opt_str(current_file),
                combo_boost_score_multiplier,
                min_combo_count,
                page_index,
                page_size,
                res,
            ),
            old(self).client is Some ==> exists|
                request: Request,
                reply: Result<Response, ClientError>,
            | {
                &&& #[trigger] crate::laws::calls::only_sent(
                    old(self).client->0.link.log(),
                    final(self).client->0.link.log(),
                    request,
                    reply,
                )
                &&& request matches Request::FuzzySearch {
                    query: sent_query,
                    page_index: sent_page_index,
                    page_size: sent_page_size,
                    ..
                }
                &&& sent_query@ == query@
                &&& page_index matches Some(wanted) ==> sent_page_index == wanted
                &&& page_size matches Some(wanted) ==> sent_page_size == wanted
            },
    {
        let ghost wanted = (min_combo_count, page_index, page_size);
        let min_combo_count = given_or(min_combo_count, 3);
        let page_index = given_or(page_index, 0);
        let page_size = given_or(page_size, 0);
        let res = match self.with_client() {
            Ok(client) => match client.fuzzy_search_files(
                query,
                max_threads,
                current_file,
                combo_boost_score_multiplier,
                min_combo_count,
                page_index,
                page_size,
            ) {
                Ok(found) => Ok(search_result_wire_to_lua(&found)),
                Err(e) => Err(told(&e)),
            },
            Err(message) => Err(message),
        };
        proof {
            crate::laws::scripts::fuzzy_search_files_for_scripts(
                *old(self),
                *self,
                query@,
                max_threads,
                crate::client::opt_str(current_file),
                combo_boost_score_multiplier,
                wanted.0,
                wanted.1,
                wanted.2,
                res,
            );
        }
        res
    }

    /// `live_grep` takes the editor's state to `after` and gives `res`.
    pub open spec fn live_grep_done(
        &self,
        after: LuaBridge<S, D>,
        query: Seq<char>,
        file_offset: Option<usize>,
        page_size: Option<usize>,
        max_file_size: Option<u64>,
        max_matches_per_file: Option<usize>,
        smart_case: Option<bool>,
        grep_mode: Option<Seq<char>>,
        time_budget_ms: Option<u64>,
        trim_whitespace: Option<bool>,
        res: Result<Value, String>,
    ) -> bool {
        match self.client {
            Some(client) => self.goes_on(after) && exists|
                inner: Result<GrepResultWire, ClientError>,
            | #[trigger]
                client.live_grep_done(
                    after.client->0,
                    query,
                    given(file_offset, 0),
                    given(page_size, 50),
                    given(max_file_size, 10485760),
                    given(max_matches_per_file, 200),
                    given(smart_case, true),
                    grep_mode_named(grep_mode),
                    given(time_budget_ms, 0),
                    given(trim_whitespace, false),
                    inner,
                ) && match inner {
                    Ok(found) => res matches Ok(value) && crate::table::held(value)
                        == crate::table::grep_table(found),
                    Err(e) => res matches Err(message) && tells(e, message@),
                },
            None => after == *self && fails(res, no_client()),
        }
    }

    /// Searches the contents of files.
    pub fn live_grep(
        &mut self,
        query: &str,
        file_offset: Option<usize>,
        page_size: Option<usize>,
        max_file_size: Option<u64>,
        max_matches_per_file: Option<usize>,
        smart_case: Option<bool>,
        grep_mode: Option<String>,
        time_budget_ms: Option<u64>,
        trim_whitespace: Option<bool>,
    ) -> (res: Result<Value, String>)
        requires
            old(self).ready(),
        ensures
            old(self).live_grep_done(
                *final(self),
                query@,
                file_offset,
                page_size,
                max_file_size,
                max_matches_per_file,
                smart_case,
                crate::client::opt_string(grep_mode),
                time_budget_ms,
                trim_whitespace,
                res,
            ),
    {
        let mode = grep_mode_of(&grep_mode);
        let file_offset = given_or(file_offset, 0);
        let page_size = given_or(page_size, 50);
        let max_file_size = given_or(max_file_size, 10485760);
        let max_matches_per_file = given_or(max_matches_per_file, 200);
        let smart_case = given_or(smart_case, true);
        let time_budget_ms = given_or(time_budget_ms, 0);
        let trim_whitespace = given_or(trim_whitespace, false);
        match self.with_client() {
            Ok(client) => match client.live_grep(
                query,
                file_offset,
                page_size,
                max_file_size,
                max_matches_per_file,
                smart_case,
                mode,
                time_budget_ms,
                trim_whitespace,
            ) {
                Ok(found) => Ok(grep_result_wire_to_lua(&found)),
                Err(e) => Err(told(&e)),
            },
            Err(message) => Err(message),
        }
    }

    /// `track_access` takes the editor's state to `after` and gives `res`.
    pub open spec fn track_access_done(
        &self,
        after: LuaBridge<S, D>,
        file_path: Seq<char>,
        res: Result<bool, String>,
    ) -> bool {
        match self.client {
            Some(client) => self.goes_on(after) && exists|
                inner: Result<bool, ClientError>,
            | #[trigger]
                client.track_access_done(
                    after.client->0,
                    file_path,
                    inner,
                ) && relays(inner, res),
            None => after == *self && fails(res, no_client()),
        }
    }

    /// Notes that a file was opened.
    pub fn track_access(&mut self, file_path: &str) -> (res: Result<bool, String>)
        requires
            old(self).ready(),
        ensures
            old(self).track_access_done(*final(self), file_path@, res),
    {
        match self.with_client() {
            Ok(client) => relay(client.track_access(file_path)),
            Err(message) => Err(message),
        }
    }

    /// `get_scan_progress` takes the editor's state to `after` and gives `res`.
    pub open spec fn get_scan_progress_done(
        &self,
        after: LuaBridge<S, D>,
        res: Result<Value, String>,
    ) -> bool {
        match self.client {
            Some(client) => self.goes_on(after) && exists|
                inner: Result<ScanProgressWire, ClientError>,
            | #[trigger]
                client.get_scan_progress_done(after.client->0, inner) && match inner {
                    Ok(progress) => res matches Ok(value) && crate::table::held(value)
                        == crate::table::progress_table(progress),
                    Err(e) => res matches Err(message) && tells(e, message@),
                },
            None => after == *self && fails(res, no_client()),
        }
    }

    /// Asks how far the scan of the directory has come.
    pub fn get_scan_progress(&mut self) -> (res: Result<Value, String>)
        requires
            old(self).ready(),
        ensures
            old(self).get_scan_progress_done(*final(self), res),
    {
        match self.with_client() {
            Ok(client) => match client.get_scan_progress() {
                Ok(progress) => Ok(scan_progress_to_lua(&progress)),
                Err(e) => Err(told(&e)),
            },
            Err(message) => Err(message),
        }
    }

    /// `is_scanning` takes the editor's state to `after` and gives `res`.
    pub open spec fn is_scanning_done(
        &self,
        after: LuaBridge<S, D>,
        res: Result<bool, String>,
    ) -> bool {
        match self.client {
            Some(client) => self.goes_on(after) && exists|
                inner: Result<bool, ClientError>,
            | #[trigger]
                client.is_scanning_done(after.client->0, inner) && relays(inner, res),
            None => after == *self && fails(res, no_client()),
        }
    }

    /// Asks whether the directory is being scanned.
    pub fn is_scanning(&mut self) -> (res: Result<bool, String>)
        requires
            old(self).ready(),
        ensures
            old(self).is_scanning_done(*final(self), res),
    {
        match self.with_client() {
            Ok(client) => relay(client.is_scanning()),
            Err(message) => Err(message),
        }
    }

    /// `get_git_root` takes the editor's state to `after` and gives `res`.
    pub open spec fn get_git_root_done(
        &self,
        after: LuaBridge<S, D>,
        res: Result<Option<String>, String>,
    ) -> bool {
        match self.client {
            Some(client) => self.goes_on(after) && exists|
                inner: Result<Option<String>, ClientError>,
            | #[trigger]
                client.get_git_root_done(after.client->0, inner) && relays(inner, res),
            None => after == *self && fails(res, no_client()),
        }
    }

    /// Asks for the root of the repository that the directory lies in.
    pub fn get_git_root(&mut self) -> (res: Result<Option<String>, String>)
        requires
            old(self).ready(),
        ensures
            old(self).get_git_root_done(*final(self), res),
    {
        match self.with_client() {
            Ok(client) => relay(client.get_git_root()),
            Err(message) => Err(message),
        }
    }

    /// `get_base_path` takes the editor's state to `after` and gives `res`.
    pub open spec fn get_base_path_done(
        &self,
        after: LuaBridge<S, D>,
        res: Result<Option<String>, String>,
    ) -> bool {
        match self.client {
            Some(client) => self.goes_on(after) && exists|
                inner: Result<Option<String>, ClientError>,
            | #[trigger]
                client.get_base_path_done(after.client->0, inner) && relays(inner, res),
            None => after == *self && fails(res, no_client()),
        }
    }

    /// Asks for the path of the directory.
    pub fn get_base_path(&mut self) -> (res: Result<Option<String>, String>)
        requires
            old(self).ready(),
        ensures
            old(self).get_base_path_done(*final(self), res),
    {
        match self.with_client() {
            Ok(client) => relay(client.get_base_path()),
            Err(message) => Err(message),
        }
    }

    /// `refresh_git_status` takes the editor's state to `after` and gives `res`.
    pub open spec fn refresh_git_status_done(
        &self,
        after: LuaBridge<S, D>,
        res: Result<usize, String>,
    ) -> bool {
        match self.client {
            Some(client) => self.goes_on(after) && exists|
                inner: Result<usize, ClientError>,
            | #[trigger]
                client.refresh_git_status_done(
                    after.client->0,
                    inner,
                ) && relays(inner, res),
            None => after == *self && fails(res, no_client()),
        }
    }

    /// Has the state of the files in version control read again, and gives their number.
    pub fn refresh_git_status(&mut self) -> (res: Result<usize, String>)
        requires
            old(self).ready(),
        ensures
            old(self).refresh_git_status_done(*final(self), res),
    {
        match self.with_client() {
            Ok(client) => relay(client.refresh_git_status()),
            Err(message) => Err(message),
        }
    }

    /// `update_single_file_frecency` takes the editor's state to `after` and gives `res`.
    pub open spec fn update_single_file_frecency_done(
        &self,
        after: LuaBridge<S, D>,
        file_path: Seq<char>,
        res: Result<bool, String>,
    ) -> bool {
        match self.client {
            Some(client) => self.goes_on(after) && exists|
                inner: Result<bool, ClientError>,
            | #[trigger]
                client.update_single_file_frecency_done(
                    after.client->0,
                    file_path,
                    inner,
                ) && relays(inner, res),
            None => after == *self && fails(res, no_client()),
        }
    }

    /// Has the score of a file computed anew.
    pub fn update_single_file_frecency(&mut self, file_path: &str) -> (res: Result<bool, String>)
        requires
            old(self).ready(),
        ensures
            old(self).update_single_file_frecency_done(*final(self), file_path@, res),
    {
        match self.with_client() {
            Ok(client) => relay(client.update_single_file_frecency(file_path)),
            Err(message) => Err(message),
        }
    }

    /// `stop_background_monitor` takes the editor's state to `after` and gives `res`.
    pub open spec fn stop_background_monitor_done(
        &self,
        after: LuaBridge<S, D>,
        res: Result<bool, String>,
    ) -> bool {
        match self.client {
            Some(client) => self.goes_on(after) && exists|
                inner: Result<bool, ClientError>,
            | #[trigger]
                client.stop_background_monitor_done(
                    after.client->0,
                    inner,
                ) && relays(inner, res),
            None => after == *self && fails(res, no_client()),
        }
    }

    /// Stops watching the directory.
    pub fn stop_background_monitor(&mut self) -> (res: Result<bool, String>)
        requires
            old(self).ready(),
        ensures
            old(self).stop_background_monitor_done(*final(self), res),
    {
        match self.with_client() {
            Ok(client) => relay(client.stop_background_monitor()),
            Err(message) => Err(message),
        }
    }

    /// `cleanup_file_picker` takes the editor's state to `after` and gives `res`.
    pub open spec fn cleanup_file_picker_done(
        &self,
        after: LuaBridge<S, D>,
        res: Result<bool, String>,
    ) -> bool {
        match self.client {
            Some(client) => self.goes_on(after) && exists|
                inner: Result<bool, ClientError>,
            | #[trigger]
                client.cleanup_file_picker_done(
                    after.client->0,
                    inner,
                ) && relays(inner, res),
            None => after == *self && fails(res, no_client()),
        }
    }

    /// Tells the daemon that the client is done with the directory.
    pub fn cleanup_file_picker(&mut self) -> (res: Result<bool, String>)
        requires
            old(self).ready(),
        ensures
            old(self).cleanup_file_picker_done(*final(self), res),
    {
        match self.with_client() {
            Ok(client) => relay(client.cleanup_file_picker()),
            Err(message) => Err(message),
        }
    }

    /// `wait_for_initial_scan` takes the editor's state to `after` and gives `res`.
    pub open spec fn wait_for_initial_scan_done(
        &self,
        after: LuaBridge<S, D>,
        timeout_ms: Option<u64>,
        res: Result<bool, String>,
    ) -> bool {
        match self.client {
            Some(client) => self.goes_on(after) && exists|
                inner: Result<bool, ClientError>,
            | #[trigger]
                client.wait_for_initial_scan_done(
                    after.client->0,
                    given(timeout_ms, 500),
                    inner,
                ) && relays(inner, res),
            None => after == *self && fails(res, no_client()),
        }
    }

    /// Waits until the directory has been scanned.
    pub fn wait_for_initial_scan(&mut self, timeout_ms: Option<u64>) -> (res: Result<bool, String>)
        requires
            old(self).ready(),
        ensures
            old(self).wait_for_initial_scan_done(*final(self), timeout_ms, res),
    {
        let timeout_ms = given_or(timeout_ms, 500);
        match self.with_client() {
            Ok(client) => relay(client.wait_for_initial_scan(timeout_ms)),
            Err(message) => Err(message),
        }
    }

    /// `track_query_completion` takes the editor's state to `after` and gives `res`.
    pub open spec fn track_query_completion_done(
        &self,
        after: LuaBridge<S, D>,
        query: Seq<char>,
        file_path: Seq<char>,
        res: Result<bool, String>,
    ) -> bool {
        match self.client {
            Some(client) => self.goes_on(after) && exists|
                inner: Result<bool, ClientError>,
            | #[trigger]
                client.track_query_completion_done(
                    after.client->0,
                    query,
                    file_path,
                    inner,
                ) && relays(inner, res),
            None => after == *self && fails(res, no_client()),
        }
    }

    /// Notes which file a query led to.
    pub fn track_query_completion(&mut self, query: &str, file_path: &str) -> (res: Result<
        bool,
        String,
    >)
        requires
            old(self).ready(),
        ensures
            old(self).track_query_completion_done(*final(self), query@, file_path@, res),
    {
        match self.with_client() {
            Ok(client) => relay(client.track_query_completion(query, file_path)),
            Err(message) => Err(message),
        }
    }

    /// `track_grep_query` takes the editor's state to `after` and gives `res`.
    pub open spec fn track_grep_query_done(
        &self,
        after: LuaBridge<S, D>,
        query: Seq<char>,
        res: Result<bool, String>,
    ) -> bool {
        match self.client {
            Some(client) => self.goes_on(after) && exists|
                inner: Result<bool, ClientError>,
            | #[trigger]
                client.track_grep_query_done(
                    after.client->0,
                    query,
                    inner,
                ) && relays(inner, res),
            None => after == *self && fails(res, no_client()),
        }
    }

    /// Notes a content query.
    pub fn track_grep_query(&mut self, query: &str) -> (res: Result<bool, String>)
        requires
            old(self).ready(),
        ensures
            old(self).track_grep_query_done(*final(self), query@, res),
    {
        match self.with_client() {
            Ok(client) => relay(client.track_grep_query(query)),
            Err(message) => Err(message),
        }
    }

    /// `get_historical_query` takes the editor's state to `after` and gives `res`.
    pub open spec fn get_historical_query_done(
        &self,
        after: LuaBridge<S, D>,
        offset: usize,
        res: Result<Option<String>, String>,
    ) -> bool {
        match self.client {
            Some(client) => self.goes_on(after) && exists|
                inner: Result<Option<String>, ClientError>,
            | #[trigger]
                client.get_historical_query_done(
                    after.client->0,
                    offset,
                    inner,
                ) && relays(inner, res),
            None => after == *self && fails(res, no_client()),
        }
    }

    /// Asks for an earlier query.
    pub fn get_historical_query(&mut self, offset: usize) -> (res: Result<Option<String>, String>)
        requires
            old(self).ready(),
        ensures
            old(self).get_historical_query_done(*final(self), offset, res),
    {
        match self.with_client() {
            Ok(client) => relay(client.get_historical_query(offset)),
            Err(message) => Err(message),
        }
    }

    /// `get_historical_grep_query` takes the editor's state to `after` and gives `res`.
    pub open spec fn get_historical_grep_query_done(
        &self,
        after: LuaBridge<S, D>,
        offset: usize,
        res: Result<Option<String>, String>,
    ) -> bool {
        match self.client {
            Some(client) => self.goes_on(after) && exists|
                inner: Result<Option<String>, ClientError>,
            | #[trigger]
                client.get_historical_grep_query_done(
                    after.client->0,
                    offset,
                    inner,
                ) && relays(inner, res),
            None => after == *self && fails(res, no_client()),
        }
    }

    /// Asks for an earlier content query.
    pub fn get_historical_grep_query(&mut self, offset: usize) -> (res: Result<
        Option<String>,
        String,
    >)
        requires
            old(self).ready(),
        ensures
            old(self).get_historical_grep_query_done(*final(self), offset, res),
    {
        match self.with_client() {
            Ok(client) => relay(client.get_historical_grep_query(offset)),
            Err(message) => Err(message),
        }
    }

    /// `parse_grep_query` takes the editor's state to `after` and gives `res`.
    pub open spec fn parse_grep_query_done(
        &self,
        after: LuaBridge<S, D>,
        query: Seq<char>,
        res: Result<Value, String>,
    ) -> bool {
        match self.client {
            Some(client) => self.goes_on(after) && exists|
                inner: Result<String, ClientError>,
            | #[trigger]
                client.parse_grep_query_done(
                    after.client->0,
                    query,
                    inner,
                ) && match inner {
                    Ok(grep_text) => res matches Ok(value) && crate::table::held(value)
                        == crate::table::parsed_query_table(grep_text@),
                    Err(e) => res matches Err(message) && tells(e, message@),
                },
            None => after == *self && fails(res, no_client()),
        }
    }

    /// Asks which text a content query searches for.
    pub fn parse_grep_query(&mut self, query: &str) -> (res: Result<Value, String>)
        requires
            old(self).ready(),
        ensures
            old(self).parse_grep_query_done(*final(self), query@, res),
    {
        match self.with_client() {
            Ok(client) => match client.parse_grep_query(query) {
                Ok(grep_text) => Ok(parsed_query_to_lua(&grep_text)),
                Err(e) => Err(told(&e)),
            },
            Err(message) => Err(message),
        }
    }

    /// `health_check` takes the editor's state to `after` and gives `res`.
    pub open spec fn health_check_done(
        &self,
        after: LuaBridge<S, D>,
        res: Result<Value, String>,
    ) -> bool {
        match self.client {
            Some(client) => self.goes_on(after) && exists|
                inner: Result<HealthCheckWire, ClientError>,
            | #[trigger]
                client.health_check_done(after.client->0, inner) && match inner {
                    Ok(health) => res matches Ok(value) && crate::table::held(value)
                        == crate::table::health_table(health),
                    Err(e) => res matches Err(message) && tells(e, message@),
                },
            None => after == *self && fails(res, no_client()),
        }
    }

    /// Asks what the daemon knows of itself and of the directory.
    pub fn health_check(&mut self) -> (res: Result<Value, String>)
        requires
            old(self).ready(),
        ensures
            old(self).health_check_done(*final(self), res),
    {
        match self.with_client() {
            Ok(client) => match client.health_check() {
                Ok(health) => Ok(health_to_lua(&health)),
                Err(e) => Err(told(&e)),
            },
            Err(message) => Err(message),
        }
    }

    /// `list_directories` takes the editor's state to `after` and gives `res`.
    pub open spec fn list_directories_done(
        &self,
        after: LuaBridge<S, D>,
        res: Result<Value, String>,
    ) -> bool {
        match self.client {
            Some(client) => self.goes_on(after) && exists|
                inner: Result<Vec<DirectoryInfoWire>, ClientError>,
            | #[trigger]
                client.list_directories_done(after.client->0, inner) && match inner {
                    Ok(infos) => res matches Ok(value) && crate::table::held(value)
                        == crate::table::directory_list(infos@),
                    Err(e) => res matches Err(message) && tells(e, message@),
                },
            None => after == *self && fails(res, no_client()),
        }
    }

    /// Asks which directories are indexed.
    pub fn list_directories(&mut self) -> (res: Result<Value, String>)
        requires
            old(self).ready(),
        ensures
            old(self).list_directories_done(*final(self), res),
    {
        match self.with_client() {
            Ok(client) => match client.list_directories() {
                Ok(infos) => Ok(directories_to_lua(&infos)),
                Err(e) => Err(told(&e)),
            },
            Err(message) => Err(message),
        }
    }

    /// Says that a scan has been cancelled, though a scan by the daemon goes on.
    pub fn cancel_scan(&self) -> (res: Result<bool, String>)
        ensures
            res == Ok::<bool, String>(true),
    {
        Ok(true)
    }

    /// Says that the database of access scores has not been destroyed: it is the daemon's.
    pub fn destroy_frecency_db(&self) -> (res: Result<bool, String>)
        ensures
            res == Ok::<bool, String>(false),
    {
        Ok(false)
    }

    /// Says that the database of query histories has not been destroyed: it is the daemon's.
    pub fn destroy_query_db(&self) -> (res: Result<bool, String>)
        ensures
            res == Ok::<bool, String>(false),
    {
        Ok(false)
    }
}

} // verus!
