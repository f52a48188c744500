//! What every call of a client sends to the daemon, and what the caller gets for what comes
//! back. A call sends one request and no other. The caller gets every failure of the
//! connection and every refusal of the daemon as it came.

use crate::client::{ClientError, DbPaths, FffClient};
use crate::link::Event;
use crate::protocol::{
    DirectoryInfoWire, GrepModeWire, GrepResultWire, HealthCheckWire, Request, Response,
    ScanProgressWire, SearchResultWire,
};
use vstd::prelude::*;
use vstd::string::*;
use vstd::utf8::*;

verus! {

/// The one thing that happened on the line is that this was sent, and that came back.
pub open spec fn only_sent(
    before: Seq<Event>,
    after: Seq<Event>,
    request: Request,
    reply: Result<Response, ClientError>,
) -> bool {
    &&& after.len() == before.len() + 1
    &&& after.take(before.len() as int) == before
    &&& after[before.len() as int] == (Event::Sent { request, reply })
}

/// The text where there is one.
pub open spec fn text_of(text: Option<String>) -> Option<Seq<char>> {
    match text {
        Some(text) => Some(text@),
        None => None,
    }
}

/// The caller is told that an answer was not the one that was asked for.
pub open spec fn not_expected<T>(res: Result<T, ClientError>) -> bool {
    &&& res matches Err(ClientError::DaemonError(message))
    &&& "unexpected response: "@.is_prefix_of(message@)
}

/// Telling the daemon where the databases lie sends one request, which says what the caller
/// says.
pub proof fn init_db_says_what_it_is_told<
    S: Fn(&Request) -> Result<Response, ClientError>,
    D: Fn(&Response) -> String,
>(
    client: FffClient<S, D>,
    after: FffClient<S, D>,
    frecency_db_path: Seq<char>,
    history_db_path: Seq<char>,
    use_unsafe_no_lock: bool,
    res: Result<bool, ClientError>,
)
    requires
        client.init_db_done(after, frecency_db_path, history_db_path, use_unsafe_no_lock, res),
    ensures
        exists|request: Request, reply: Result<Response, ClientError>| {
            &&& #[trigger] only_sent(client.link.log(), after.link.log(), request, reply)
            &&& request matches Request::InitDb {
                frecency_db_path: sent_frecency_db_path,
                history_db_path: sent_history_db_path,
                use_unsafe_no_lock: sent_use_unsafe_no_lock,
            }
            &&& sent_frecency_db_path@ == frecency_db_path
            &&& sent_history_db_path@ == history_db_path
            &&& sent_use_unsafe_no_lock == use_unsafe_no_lock
            &&& match reply {
                Err(e) => res == Err::<bool, ClientError>(e),
                Ok(Response::Error(refusal)) => res == Err::<bool, ClientError>(
                    ClientError::DaemonError(refusal),
                ),
                Ok(Response::Bool(b)) => res == Ok::<bool, ClientError>(b),
                Ok(_) => res == Ok::<bool, ClientError>(true),
            }
            &&& after.base_path@ == client.base_path@
            &&& after.uses == client.uses
            &&& match reply {
                Ok(Response::Error(_)) | Err(_) => after.db == client.db,
                Ok(_) => after.db matches Some(DbPaths {
                    frecency_db_path: frecency,
                    history_db_path: history,
                    use_unsafe_no_lock: no_lock,
                }) && frecency@ == frecency_db_path && history@ == history_db_path && no_lock
                    == use_unsafe_no_lock,
            }
            &&& after.lost == (client.lost || reply matches Err(ClientError::Io(_)))
        },
{
    let (request, reply) = choose|request: Request, reply: Result<Response, ClientError>|
        client.asked(after, request, reply);
    assert(after.link.log().take(client.link.log().len() as int) =~= client.link.log());
    assert(only_sent(client.link.log(), after.link.log(), request, reply));
}

/// Asking for a directory sends one request, which says what the caller says.
pub proof fn init_file_picker_says_what_it_is_told<
    S: Fn(&Request) -> Result<Response, ClientError>,
    D: Fn(&Response) -> String,
>(
    client: FffClient<S, D>,
    after: FffClient<S, D>,
    base_path: Seq<char>,
    watch_git_events: bool,
    res: Result<bool, ClientError>,
)
    requires
        client.init_file_picker_done(after, base_path, watch_git_events, res),
    ensures
        exists|request: Request, reply: Result<Response, ClientError>| {
            &&& #[trigger] only_sent(client.link.log(), after.link.log(), request, reply)
            &&& request matches Request::IndexDirectory {
                path,
                watch_git_events: sent_watch_git_events,
            }
            &&& path@ == encode_utf8(base_path)
            &&& sent_watch_git_events == watch_git_events
            &&& match reply {
                Err(e) => res == Err::<bool, ClientError>(e),
                Ok(Response::Error(refusal)) => res == Err::<bool, ClientError>(
                    ClientError::DaemonError(refusal),
                ),
                Ok(Response::Bool(b)) => res == Ok::<bool, ClientError>(b),
                Ok(_) => res == Ok::<bool, ClientError>(true),
            }
            &&& after.base_path@ == encode_utf8(base_path)
            &&& after.db == client.db
            &&& match reply {
                Ok(Response::Error(_)) => after.uses is None,
                Ok(_) => after.uses == Some(watch_git_events),
                Err(_) => after.uses is None || after.lost,
            }
            &&& after.lost == (client.lost || reply matches Err(ClientError::Io(_)))
        },
{
    let (request, reply) = choose|request: Request, reply: Result<Response, ClientError>|
        client.asked(after, request, reply);
    assert(after.link.log().take(client.link.log().len() as int) =~= client.link.log());
    assert(only_sent(client.link.log(), after.link.log(), request, reply));
}

/// Moving to another directory sends one request, which says what the caller says.
pub proof fn restart_index_in_path_says_what_it_is_told<
    S: Fn(&Request) -> Result<Response, ClientError>,
    D: Fn(&Response) -> String,
>(
    client: FffClient<S, D>,
    after: FffClient<S, D>,
    new_path: Seq<char>,
    res: Result<(), ClientError>,
)
    requires
        client.restart_index_in_path_done(after, new_path, res),
    ensures
        exists|request: Request, reply: Result<Response, ClientError>| {
            &&& #[trigger] only_sent(client.link.log(), after.link.log(), request, reply)
            &&& request matches Request::RestartIndex {
                path,
                new_path: sent_new_path,
            }
            &&& path@ == client.base_path@
            &&& sent_new_path@ == encode_utf8(new_path)
            &&& match reply {
                Err(e) => res == Err::<(), ClientError>(e),
                Ok(Response::Error(refusal)) => res == Err::<(), ClientError>(
                    ClientError::DaemonError(refusal),
                ),
                Ok(_) => res == Ok::<(), ClientError>(()),
            }
            &&& after.base_path@ == encode_utf8(new_path)
            &&& after.db == client.db
            &&& match reply {
                Ok(Response::Error(_)) => after.uses is None,
                Ok(_) => after.uses == Some(true),
                Err(_) => after.uses is None || after.lost,
            }
            &&& after.lost == (client.lost || reply matches Err(ClientError::Io(_)))
        },
{
    let (request, reply) = choose|request: Request, reply: Result<Response, ClientError>|
        client.asked(after, request, reply);
    assert(after.link.log().take(client.link.log().len() as int) =~= client.link.log());
    assert(only_sent(client.link.log(), after.link.log(), request, reply));
}

/// Asking for another scan sends one request, which says what the caller says.
pub proof fn scan_files_says_what_it_is_told<
    S: Fn(&Request) -> Result<Response, ClientError>,
    D: Fn(&Response) -> String,
>(
    client: FffClient<S, D>,
    after: FffClient<S, D>,
    res: Result<(), ClientError>,
)
    requires
        client.scan_files_done(after, res),
    ensures
        exists|request: Request, reply: Result<Response, ClientError>| {
            &&& #[trigger] only_sent(client.link.log(), after.link.log(), request, reply)
            &&& request matches Request::TriggerRescan {
                path,
            }
            &&& path@ == client.base_path@
            &&& match reply {
                Err(e) => res == Err::<(), ClientError>(e),
                Ok(Response::Error(refusal)) => res == Err::<(), ClientError>(
                    ClientError::DaemonError(refusal),
                ),
                Ok(_) => res == Ok::<(), ClientError>(()),
            }
            &&& after.base_path@ == client.base_path@
            &&& after.db == client.db
            &&& after.uses == client.uses
            &&& after.lost == (client.lost || reply matches Err(ClientError::Io(_)))
        },
{
    let (request, reply) = choose|request: Request, reply: Result<Response, ClientError>|
        client.asked(after, request, reply);
    assert(after.link.log().take(client.link.log().len() as int) =~= client.link.log());
    assert(only_sent(client.link.log(), after.link.log(), request, reply));
}

/// A search for files sends one request, which says what the caller says.
pub proof fn fuzzy_search_files_says_what_it_is_told<
    S: Fn(&Request) -> Result<Response, ClientError>,
    D: Fn(&Response) -> String,
>(
    client: FffClient<S, D>,
    after: FffClient<S, D>,
    query: Seq<char>,
    max_threads: usize,
    current_file: Option<Seq<char>>,
    combo_boost_score_multiplier: i32,
    min_combo_count: u32,
    page_index: usize,
    page_size: usize,
    res: Result<SearchResultWire, ClientError>,
)
    requires
        client.fuzzy_search_files_done(
            after,
            query,
            max_threads,
            current_file,
            combo_boost_score_multiplier,
            min_combo_count,
            page_index,
            page_size,
            res,
        ),
    ensures
        exists|request: Request, reply: Result<Response, ClientError>| {
            &&& #[trigger] only_sent(client.link.log(), after.link.log(), request, reply)
            &&& request matches Request::FuzzySearch {
                path,
                query: sent_query,
                max_threads: sent_max_threads,
                current_file: sent_current_file,
                combo_boost_score_multiplier: sent_combo_boost_score_multiplier,
                min_combo_count: sent_min_combo_count,
                page_index: sent_page_index,
                page_size: sent_page_size,
            }
            &&& path@ == client.base_path@
            &&& sent_query@ == query
            &&& sent_max_threads == max_threads
            &&& text_of(sent_current_file) == current_file
            &&& sent_combo_boost_score_multiplier == combo_boost_score_multiplier
            &&& sent_min_combo_count == min_combo_count
            &&& sent_page_index == page_index
            &&& sent_page_size == page_size
            &&& match reply {
                Err(e) => res == Err::<SearchResultWire, ClientError>(e),
                Ok(Response::Error(refusal)) => res == Err::<SearchResultWire, ClientError>(
                    ClientError::DaemonError(refusal),
                ),
                Ok(Response::SearchResult(found)) => res == Ok::<SearchResultWire, ClientError>(found),
                Ok(_) => not_expected(res),
            }
            &&& after.base_path@ == client.base_path@
            &&& after.db == client.db
            &&& after.uses == client.uses
            &&& after.lost == (client.lost || reply matches Err(ClientError::Io(_)))
        },
{
    let (request, reply) = choose|request: Request, reply: Result<Response, ClientError>|
        client.asked(after, request, reply);
    assert(after.link.log().take(client.link.log().len() as int) =~= client.link.log());
    assert(only_sent(client.link.log(), after.link.log(), request, reply));
}

/// A content search sends one request, which says what the caller says.
pub proof fn live_grep_says_what_it_is_told<
    S: Fn(&Request) -> Result<Response, ClientError>,
    D: Fn(&Response) -> String,
>(
    client: FffClient<S, D>,
    after: FffClient<S, D>,
    query: Seq<char>,
    file_offset: usize,
    page_size: usize,
    max_file_size: u64,
    max_matches_per_file: usize,
    smart_case: bool,
    grep_mode: GrepModeWire,
    time_budget_ms: u64,
    trim_whitespace: bool,
    res: Result<GrepResultWire, ClientError>,
)
    requires
        client.live_grep_done(
            after,
            query,
            file_offset,
            page_size,
            max_file_size,
            max_matches_per_file,
            smart_case,
            grep_mode,
            time_budget_ms,
            trim_whitespace,
            res,
        ),
    ensures
        exists|request: Request, reply: Result<Response, ClientError>| {
            &&& #[trigger] only_sent(client.link.log(), after.link.log(), request, reply)
            &&& request matches Request::GrepSearch {
                path,
                query: sent_query,
                file_offset: sent_file_offset,
                page_size: sent_page_size,
                max_file_size: sent_max_file_size,
                max_matches_per_file: sent_max_matches_per_file,
                smart_case: sent_smart_case,
                grep_mode: sent_grep_mode,
                time_budget_ms: sent_time_budget_ms,
                trim_whitespace: sent_trim_whitespace,
            }
            &&& path@ == client.base_path@
            &&& sent_query@ == query
            &&& sent_file_offset == file_offset
            &&& sent_page_size == page_size
            &&& sent_max_file_size == max_file_size
            &&& sent_max_matches_per_file == max_matches_per_file
            &&& sent_smart_case == smart_case
            &&& sent_grep_mode == grep_mode
            &&& sent_time_budget_ms == time_budget_ms
            &&& sent_trim_whitespace == trim_whitespace
            &&& match reply {
                Err(e) => res == Err::<GrepResultWire, ClientError>(e),
                Ok(Response::Error(refusal)) => res == Err::<GrepResultWire, ClientError>(
                    ClientError::DaemonError(refusal),
                ),
                Ok(Response::GrepResult(found)) => res == Ok::<GrepResultWire, ClientError>(found),
                Ok(_) => not_expected(res),
            }
            &&& after.base_path@ == client.base_path@
            &&& after.db == client.db
            &&& after.uses == client.uses
            &&& after.lost == (client.lost || reply matches Err(ClientError::Io(_)))
        },
{
    let (request, reply) = choose|request: Request, reply: Result<Response, ClientError>|
        client.asked(after, request, reply);
    assert(after.link.log().take(client.link.log().len() as int) =~= client.link.log());
    assert(only_sent(client.link.log(), after.link.log(), request, reply));
}

/// Noting an opened file sends one request, which says what the caller says.
pub proof fn track_access_says_what_it_is_told<
    S: Fn(&Request) -> Result<Response, ClientError>,
    D: Fn(&Response) -> String,
>(
    client: FffClient<S, D>,
    after: FffClient<S, D>,
    file_path: Seq<char>,
    res: Result<bool, ClientError>,
)
    requires
        client.track_access_done(after, file_path, res),
    ensures
        exists|request: Request, reply: Result<Response, ClientError>| {
            &&& #[trigger] only_sent(client.link.log(), after.link.log(), request, reply)
            &&& request matches Request::TrackAccess {
                path,
                file_path: sent_file_path,
            }
            &&& path@ == client.base_path@
            &&& sent_file_path@ == file_path
            &&& match reply {
                Err(e) => res == Err::<bool, ClientError>(e),
                Ok(Response::Error(refusal)) => res == Err::<bool, ClientError>(
                    ClientError::DaemonError(refusal),
                ),
                Ok(Response::Bool(b)) => res == Ok::<bool, ClientError>(b),
                Ok(_) => res == Ok::<bool, ClientError>(true),
            }
            &&& after.base_path@ == client.base_path@
            &&& after.db == client.db
            &&& after.uses == client.uses
            &&& after.lost == (client.lost || reply matches Err(ClientError::Io(_)))
        },
{
    let (request, reply) = choose|request: Request, reply: Result<Response, ClientError>|
        client.asked(after, request, reply);
    assert(after.link.log().take(client.link.log().len() as int) =~= client.link.log());
    assert(only_sent(client.link.log(), after.link.log(), request, reply));
}

/// A question for the scan sends one request, which says what the caller says.
pub proof fn get_scan_progress_says_what_it_is_told<
    S: Fn(&Request) -> Result<Response, ClientError>,
    D: Fn(&Response) -> String,
>(
    client: FffClient<S, D>,
    after: FffClient<S, D>,
    res: Result<ScanProgressWire, ClientError>,
)
    requires
        client.get_scan_progress_done(after, res),
    ensures
        exists|request: Request, reply: Result<Response, ClientError>| {
            &&& #[trigger] only_sent(client.link.log(), after.link.log(), request, reply)
            &&& request matches Request::GetScanProgress {
                path,
            }
            &&& path@ == client.base_path@
            &&& match reply {
                Err(e) => res == Err::<ScanProgressWire, ClientError>(e),
                Ok(Response::Error(refusal)) => res == Err::<ScanProgressWire, ClientError>(
                    ClientError::DaemonError(refusal),
                ),
                Ok(Response::ScanProgress(progress)) => res == Ok::<ScanProgressWire, ClientError>(progress),
                Ok(_) => not_expected(res),
            }
            &&& after.base_path@ == client.base_path@
            &&& after.db == client.db
            &&& after.uses == client.uses
            &&& after.lost == (client.lost || reply matches Err(ClientError::Io(_)))
        },
{
    let (request, reply) = choose|request: Request, reply: Result<Response, ClientError>|
        client.asked(after, request, reply);
    assert(after.link.log().take(client.link.log().len() as int) =~= client.link.log());
    assert(only_sent(client.link.log(), after.link.log(), request, reply));
}

/// A question whether a scan goes on sends one request, which says what the caller says.
pub proof fn is_scanning_says_what_it_is_told<
    S: Fn(&Request) -> Result<Response, ClientError>,
    D: Fn(&Response) -> String,
>(
    client: FffClient<S, D>,
    after: FffClient<S, D>,
    res: Result<bool, ClientError>,
)
    requires
        client.is_scanning_done(after, res),
    ensures
        exists|request: Request, reply: Result<Response, ClientError>| {
            &&& #[trigger] only_sent(client.link.log(), after.link.log(), request, reply)
            &&& request matches Request::IsScanning {
                path,
            }
            &&& path@ == client.base_path@
            &&& match reply {
                Err(e) => res == Err::<bool, ClientError>(e),
                Ok(Response::Error(refusal)) => res == Err::<bool, ClientError>(
                    ClientError::DaemonError(refusal),
                ),
                Ok(Response::Bool(b)) => res == Ok::<bool, ClientError>(b),
                Ok(_) => res == Ok::<bool, ClientError>(false),
            }
            &&& after.base_path@ == client.base_path@
            &&& after.db == client.db
            &&& after.uses == client.uses
            &&& after.lost == (client.lost || reply matches Err(ClientError::Io(_)))
        },
{
    let (request, reply) = choose|request: Request, reply: Result<Response, ClientError>|
        client.asked(after, request, reply);
    assert(after.link.log().take(client.link.log().len() as int) =~= client.link.log());
    assert(only_sent(client.link.log(), after.link.log(), request, reply));
}

/// A question for the repository sends one request, which says what the caller says.
pub proof fn get_git_root_says_what_it_is_told<
    S: Fn(&Request) -> Result<Response, ClientError>,
    D: Fn(&Response) -> String,
>(
    client: FffClient<S, D>,
    after: FffClient<S, D>,
    res: Result<Option<String>, ClientError>,
)
    requires
        client.get_git_root_done(after, res),
    ensures
        exists|request: Request, reply: Result<Response, ClientError>| {
            &&& #[trigger] only_sent(client.link.log(), after.link.log(), request, reply)
            &&& request matches Request::GetGitRoot {
                path,
            }
            &&& path@ == client.base_path@
            &&& match reply {
                Err(e) => res == Err::<Option<String>, ClientError>(e),
                Ok(Response::Error(refusal)) => res == Err::<Option<String>, ClientError>(
                    ClientError::DaemonError(refusal),
                ),
                Ok(Response::OptionalString(text)) => res == Ok::<Option<String>, ClientError>(text),
                Ok(_) => res == Ok::<Option<String>, ClientError>(None),
            }
            &&& after.base_path@ == client.base_path@
            &&& after.db == client.db
            &&& after.uses == client.uses
            &&& after.lost == (client.lost || reply matches Err(ClientError::Io(_)))
        },
{
    let (request, reply) = choose|request: Request, reply: Result<Response, ClientError>|
        client.asked(after, request, reply);
    assert(after.link.log().take(client.link.log().len() as int) =~= client.link.log());
    assert(only_sent(client.link.log(), after.link.log(), request, reply));
}

/// A question for the path of the directory sends one request, which says what the caller says.
pub proof fn get_base_path_says_what_it_is_told<
    S: Fn(&Request) -> Result<Response, ClientError>,
    D: Fn(&Response) -> String,
>(
    client: FffClient<S, D>,
    after: FffClient<S, D>,
    res: Result<Option<String>, ClientError>,
)
    requires
        client.get_base_path_done(after, res),
    ensures
        exists|request: Request, reply: Result<Response, ClientError>| {
            &&& #[trigger] only_sent(client.link.log(), after.link.log(), request, reply)
            &&& request matches Request::GetBasePath {
                path,
            }
            &&& path@ == client.base_path@
            &&& match reply {
                Err(e) => res == Err::<Option<String>, ClientError>(e),
                Ok(Response::Error(refusal)) => res == Err::<Option<String>, ClientError>(
                    ClientError::DaemonError(refusal),
                ),
                Ok(Response::OptionalString(text)) => res == Ok::<Option<String>, ClientError>(text),
                Ok(_) => res == Ok::<Option<String>, ClientError>(None),
            }
            &&& after.base_path@ == client.base_path@
            &&& after.db == client.db
            &&& after.uses == client.uses
            &&& after.lost == (client.lost || reply matches Err(ClientError::Io(_)))
        },
{
    let (request, reply) = choose|request: Request, reply: Result<Response, ClientError>|
        client.asked(after, request, reply);
    assert(after.link.log().take(client.link.log().len() as int) =~= client.link.log());
    assert(only_sent(client.link.log(), after.link.log(), request, reply));
}

/// Having the state in version control read again sends one request, which says what the caller
/// says.
pub proof fn refresh_git_status_says_what_it_is_told<
    S: Fn(&Request) -> Result<Response, ClientError>,
    D: Fn(&Response) -> String,
>(
    client: FffClient<S, D>,
    after: FffClient<S, D>,
    res: Result<usize, ClientError>,
)
    requires
        client.refresh_git_status_done(after, res),
    ensures
        exists|request: Request, reply: Result<Response, ClientError>| {
            &&& #[trigger] only_sent(client.link.log(), after.link.log(), request, reply)
            &&& request matches Request::RefreshGitStatus {
                path,
            }
            &&& path@ == client.base_path@
            &&& match reply {
                Err(e) => res == Err::<usize, ClientError>(e),
                Ok(Response::Error(refusal)) => res == Err::<usize, ClientError>(
                    ClientError::DaemonError(refusal),
                ),
                Ok(Response::Usize(n)) => res == Ok::<usize, ClientError>(n),
                Ok(_) => res == Ok::<usize, ClientError>(0),
            }
            &&& after.base_path@ == client.base_path@
            &&& after.db == client.db
            &&& after.uses == client.uses
            &&& after.lost == (client.lost || reply matches Err(ClientError::Io(_)))
        },
{
    let (request, reply) = choose|request: Request, reply: Result<Response, ClientError>|
        client.asked(after, request, reply);
    assert(after.link.log().take(client.link.log().len() as int) =~= client.link.log());
    assert(only_sent(client.link.log(), after.link.log(), request, reply));
}

/// Having a score computed anew sends one request, which says what the caller says.
pub proof fn update_single_file_frecency_says_what_it_is_told<
    S: Fn(&Request) -> Result<Response, ClientError>,
    D: Fn(&Response) -> String,
>(
    client: FffClient<S, D>,
    after: FffClient<S, D>,
    file_path: Seq<char>,
    res: Result<bool, ClientError>,
)
    requires
        client.update_single_file_frecency_done(after, file_path, res),
    ensures
        exists|request: Request, reply: Result<Response, ClientError>| {
            &&& #[trigger] only_sent(client.link.log(), after.link.log(), request, reply)
            &&& request matches Request::UpdateSingleFileFrecency {
                path,
                file_path: sent_file_path,
            }
            &&& path@ == client.base_path@
            &&& sent_file_path@ == file_path
            &&& match reply {
                Err(e) => res == Err::<bool, ClientError>(e),
                Ok(Response::Error(refusal)) => res == Err::<bool, ClientError>(
                    ClientError::DaemonError(refusal),
                ),
                Ok(Response::Bool(b)) => res == Ok::<bool, ClientError>(b),
                Ok(_) => res == Ok::<bool, ClientError>(true),
            }
            &&& after.base_path@ == client.base_path@
            &&& after.db == client.db
            &&& after.uses == client.uses
            &&& after.lost == (client.lost || reply matches Err(ClientError::Io(_)))
        },
{
    let (request, reply) = choose|request: Request, reply: Result<Response, ClientError>|
        client.asked(after, request, reply);
    assert(after.link.log().take(client.link.log().len() as int) =~= client.link.log());
    assert(only_sent(client.link.log(), after.link.log(), request, reply));
}

/// Ending the watch over the directory sends one request, which says what the caller says.
pub proof fn stop_background_monitor_says_what_it_is_told<
    S: Fn(&Request) -> Result<Response, ClientError>,
    D: Fn(&Response) -> String,
>(
    client: FffClient<S, D>,
    after: FffClient<S, D>,
    res: Result<bool, ClientError>,
)
    requires
        client.stop_background_monitor_done(after, res),
    ensures
        exists|request: Request, reply: Result<Response, ClientError>| {
            &&& #[trigger] only_sent(client.link.log(), after.link.log(), request, reply)
            &&& request matches Request::StopBackgroundMonitor {
                path,
            }
            &&& path@ == client.base_path@
            &&& match reply {
                Err(e) => res == Err::<bool, ClientError>(e),
                Ok(Response::Error(refusal)) => res == Err::<bool, ClientError>(
                    ClientError::DaemonError(refusal),
                ),
                Ok(Response::Bool(b)) => res == Ok::<bool, ClientError>(b),
                Ok(_) => res == Ok::<bool, ClientError>(true),
            }
            &&& after.base_path@ == client.base_path@
            &&& after.db == client.db
            &&& after.uses == client.uses
            &&& after.lost == (client.lost || reply matches Err(ClientError::Io(_)))
        },
{
    let (request, reply) = choose|request: Request, reply: Result<Response, ClientError>|
        client.asked(after, request, reply);
    assert(after.link.log().take(client.link.log().len() as int) =~= client.link.log());
    assert(only_sent(client.link.log(), after.link.log(), request, reply));
}

/// Leaving the directory sends one request, which says what the caller says.
pub proof fn cleanup_file_picker_says_what_it_is_told<
    S: Fn(&Request) -> Result<Response, ClientError>,
    D: Fn(&Response) -> String,
>(
    client: FffClient<S, D>,
    after: FffClient<S, D>,
    res: Result<bool, ClientError>,
)
    requires
        client.cleanup_file_picker_done(after, res),
    ensures
        exists|request: Request, reply: Result<Response, ClientError>| {
            &&& #[trigger] only_sent(client.link.log(), after.link.log(), request, reply)
            &&& request matches Request::CleanupFilePicker {
                path,
            }
            &&& path@ == client.base_path@
            &&& match reply {
                Err(e) => res == Err::<bool, ClientError>(e),
                Ok(Response::Error(refusal)) => res == Err::<bool, ClientError>(
                    ClientError::DaemonError(refusal),
                ),
                Ok(Response::Bool(b)) => res == Ok::<bool, ClientError>(b),
                Ok(_) => res == Ok::<bool, ClientError>(true),
            }
            &&& after.base_path@ == client.base_path@
            &&& after.db == client.db
            &&& match reply {
                Ok(Response::Error(_)) | Err(_) => after.uses == client.uses,
                Ok(_) => after.uses is None,
            }
            &&& after.lost == (client.lost || reply matches Err(ClientError::Io(_)))
        },
{
    let (request, reply) = choose|request: Request, reply: Result<Response, ClientError>|
        client.asked(after, request, reply);
    assert(after.link.log().take(client.link.log().len() as int) =~= client.link.log());
    assert(only_sent(client.link.log(), after.link.log(), request, reply));
}

/// Waiting for the scan sends one request, which says what the caller says.
pub proof fn wait_for_initial_scan_says_what_it_is_told<
    S: Fn(&Request) -> Result<Response, ClientError>,
    D: Fn(&Response) -> String,
>(
    client: FffClient<S, D>,
    after: FffClient<S, D>,
    timeout_ms: u64,
    res: Result<bool, ClientError>,
)
    requires
        client.wait_for_initial_scan_done(after, timeout_ms, res),
    ensures
        exists|request: Request, reply: Result<Response, ClientError>| {
            &&& #[trigger] only_sent(client.link.log(), after.link.log(), request, reply)
            &&& request matches Request::WaitForScan {
                path,
                timeout_ms: sent_timeout_ms,
            }
            &&& path@ == client.base_path@
            &&& sent_timeout_ms == timeout_ms
            &&& match reply {
                Err(e) => res == Err::<bool, ClientError>(e),
                Ok(Response::Error(refusal)) => res == Err::<bool, ClientError>(
                    ClientError::DaemonError(refusal),
                ),
                Ok(Response::Bool(b)) => res == Ok::<bool, ClientError>(b),
                Ok(_) => res == Ok::<bool, ClientError>(true),
            }
            &&& after.base_path@ == client.base_path@
            &&& after.db == client.db
            &&& after.uses == client.uses
            &&& after.lost == (client.lost || reply matches Err(ClientError::Io(_)))
        },
{
    let (request, reply) = choose|request: Request, reply: Result<Response, ClientError>|
        client.asked(after, request, reply);
    assert(after.link.log().take(client.link.log().len() as int) =~= client.link.log());
    assert(only_sent(client.link.log(), after.link.log(), request, reply));
}

/// Noting which file a query led to sends one request, which says what the caller says.
pub proof fn track_query_completion_says_what_it_is_told<
    S: Fn(&Request) -> Result<Response, ClientError>,
    D: Fn(&Response) -> String,
>(
    client: FffClient<S, D>,
    after: FffClient<S, D>,
    query: Seq<char>,
    file_path: Seq<char>,
    res: Result<bool, ClientError>,
)
    requires
        client.track_query_completion_done(after, query, file_path, res),
    ensures
        exists|request: Request, reply: Result<Response, ClientError>| {
            &&& #[trigger] only_sent(client.link.log(), after.link.log(), request, reply)
            &&& request matches Request::TrackQueryCompletion {
                path,
                query: sent_query,
                file_path: sent_file_path,
            }
            &&& path@ == client.base_path@
            &&& sent_query@ == query
            &&& sent_file_path@ == file_path
            &&& match reply {
                Err(e) => res == Err::<bool, ClientError>(e),
                Ok(Response::Error(refusal)) => res == Err::<bool, ClientError>(
                    ClientError::DaemonError(refusal),
                ),
                Ok(Response::Bool(b)) => res == Ok::<bool, ClientError>(b),
                Ok(_) => res == Ok::<bool, ClientError>(true),
            }
            &&& after.base_path@ == client.base_path@
            &&& after.db == client.db
            &&& after.uses == client.uses
            &&& after.lost == (client.lost || reply matches Err(ClientError::Io(_)))
        },
{
    let (request, reply) = choose|request: Request, reply: Result<Response, ClientError>|
        client.asked(after, request, reply);
    assert(after.link.log().take(client.link.log().len() as int) =~= client.link.log());
    assert(only_sent(client.link.log(), after.link.log(), request, reply));
}

/// Noting a content query sends one request, which says what the caller says.
pub proof fn track_grep_query_says_what_it_is_told<
    S: Fn(&Request) -> Result<Response, ClientError>,
    D: Fn(&Response) -> String,
>(
    client: FffClient<S, D>,
    after: FffClient<S, D>,
    query: Seq<char>,
    res: Result<bool, ClientError>,
)
    requires
        client.track_grep_query_done(after, query, res),
    ensures
        exists|request: Request, reply: Result<Response, ClientError>| {
            &&& #[trigger] only_sent(client.link.log(), after.link.log(), request, reply)
            &&& request matches Request::TrackGrepQuery {
                path,
                query: sent_query,
            }
            &&& path@ == client.base_path@
            &&& sent_query@ == query
            &&& match reply {
                Err(e) => res == Err::<bool, ClientError>(e),
                Ok(Response::Error(refusal)) => res == Err::<bool, ClientError>(
                    ClientError::DaemonError(refusal),
                ),
                Ok(Response::Bool(b)) => res == Ok::<bool, ClientError>(b),
                Ok(_) => res == Ok::<bool, ClientError>(true),
            }
            &&& after.base_path@ == client.base_path@
            &&& after.db == client.db
            &&& after.uses == client.uses
            &&& after.lost == (client.lost || reply matches Err(ClientError::Io(_)))
        },
{
    let (request, reply) = choose|request: Request, reply: Result<Response, ClientError>|
        client.asked(after, request, reply);
    assert(after.link.log().take(client.link.log().len() as int) =~= client.link.log());
    assert(only_sent(client.link.log(), after.link.log(), request, reply));
}

/// A question for an earlier query sends one request, which says what the caller says.
pub proof fn get_historical_query_says_what_it_is_told<
    S: Fn(&Request) -> Result<Response, ClientError>,
    D: Fn(&Response) -> String,
>(
    client: FffClient<S, D>,
    after: FffClient<S, D>,
    offset: usize,
    res: Result<Option<String>, ClientError>,
)
    requires
        client.get_historical_query_done(after, offset, res),
    ensures
        exists|request: Request, reply: Result<Response, ClientError>| {
            &&& #[trigger] only_sent(client.link.log(), after.link.log(), request, reply)
            &&& request matches Request::GetHistoricalQuery {
                path,
                offset: sent_offset,
            }
            &&& path@ == client.base_path@
            &&& sent_offset == offset
            &&& match reply {
                Err(e) => res == Err::<Option<String>, ClientError>(e),
                Ok(Response::Error(refusal)) => res == Err::<Option<String>, ClientError>(
                    ClientError::DaemonError(refusal),
                ),
                Ok(Response::OptionalString(text)) => res == Ok::<Option<String>, ClientError>(text),
                Ok(_) => res == Ok::<Option<String>, ClientError>(None),
            }
            &&& after.base_path@ == client.base_path@
            &&& after.db == client.db
            &&& after.uses == client.uses
            &&& after.lost == (client.lost || reply matches Err(ClientError::Io(_)))
        },
{
    let (request, reply) = choose|request: Request, reply: Result<Response, ClientError>|
        client.asked(after, request, reply);
    assert(after.link.log().take(client.link.log().len() as int) =~= client.link.log());
    assert(only_sent(client.link.log(), after.link.log(), request, reply));
}

/// A question for an earlier content query sends one request, which says what the caller says.
pub proof fn get_historical_grep_query_says_what_it_is_told<
    S: Fn(&Request) -> Result<Response, ClientError>,
    D: Fn(&Response) -> String,
>(
    client: FffClient<S, D>,
    after: FffClient<S, D>,
    offset: usize,
    res: Result<Option<String>, ClientError>,
)
    requires
        client.get_historical_grep_query_done(after, offset, res),
    ensures
        exists|request: Request, reply: Result<Response, ClientError>| {
            &&& #[trigger] only_sent(client.link.log(), after.link.log(), request, reply)
            &&& request matches Request::GetHistoricalGrepQuery {
                path,
                offset: sent_offset,
            }
            &&& path@ == client.base_path@
            &&& sent_offset == offset
            &&& match reply {
                Err(e) => res == Err::<Option<String>, ClientError>(e),
                Ok(Response::Error(refusal)) => res == Err::<Option<String>, ClientError>(
                    ClientError::DaemonError(refusal),
                ),
                Ok(Response::OptionalString(text)) => res == Ok::<Option<String>, ClientError>(text),
                Ok(_) => res == Ok::<Option<String>, ClientError>(None),
            }
            &&& after.base_path@ == client.base_path@
            &&& after.db == client.db
            &&& after.uses == client.uses
            &&& after.lost == (client.lost || reply matches Err(ClientError::Io(_)))
        },
{
    let (request, reply) = choose|request: Request, reply: Result<Response, ClientError>|
        client.asked(after, request, reply);
    assert(after.link.log().take(client.link.log().len() as int) =~= client.link.log());
    assert(only_sent(client.link.log(), after.link.log(), request, reply));
}

/// A question what a content query searches for sends one request, which says what the caller
/// says.
pub proof fn parse_grep_query_says_what_it_is_told<
    S: Fn(&Request) -> Result<Response, ClientError>,
    D: Fn(&Response) -> String,
>(
    client: FffClient<S, D>,
    after: FffClient<S, D>,
    query: Seq<char>,
    res: Result<String, ClientError>,
)
    requires
        client.parse_grep_query_done(after, query, res),
    ensures
        exists|request: Request, reply: Result<Response, ClientError>| {
            &&& #[trigger] only_sent(client.link.log(), after.link.log(), request, reply)
            &&& request matches Request::ParseGrepQuery {
                query: sent_query,
            }
            &&& sent_query@ == query
            &&& match reply {
                Err(e) => res == Err::<String, ClientError>(e),
                Ok(Response::Error(refusal)) => res == Err::<String, ClientError>(
                    ClientError::DaemonError(refusal),
                ),
                Ok(Response::ParsedGrepQuery { grep_text }) => res == Ok::<String, ClientError>(grep_text),
                Ok(_) => not_expected(res),
            }
            &&& after.base_path@ == client.base_path@
            &&& after.db == client.db
            &&& after.uses == client.uses
            &&& after.lost == (client.lost || reply matches Err(ClientError::Io(_)))
        },
{
    let (request, reply) = choose|request: Request, reply: Result<Response, ClientError>|
        client.asked(after, request, reply);
    assert(after.link.log().take(client.link.log().len() as int) =~= client.link.log());
    assert(only_sent(client.link.log(), after.link.log(), request, reply));
}

/// A health check sends one request, which says what the caller says.
pub proof fn health_check_says_what_it_is_told<
    S: Fn(&Request) -> Result<Response, ClientError>,
    D: Fn(&Response) -> String,
>(
    client: FffClient<S, D>,
    after: FffClient<S, D>,
    res: Result<HealthCheckWire, ClientError>,
)
    requires
        client.health_check_done(after, res),
    ensures
        exists|request: Request, reply: Result<Response, ClientError>| {
            &&& #[trigger] only_sent(client.link.log(), after.link.log(), request, reply)
            &&& request matches Request::HealthCheck {
                path,
            }
            &&& path@ == client.base_path@
            &&& match reply {
                Err(e) => res == Err::<HealthCheckWire, ClientError>(e),
                Ok(Response::Error(refusal)) => res == Err::<HealthCheckWire, ClientError>(
                    ClientError::DaemonError(refusal),
                ),
                Ok(Response::HealthCheck(health)) => res == Ok::<HealthCheckWire, ClientError>(health),
                Ok(_) => not_expected(res),
            }
            &&& after.base_path@ == client.base_path@
            &&& after.db == client.db
            &&& after.uses == client.uses
            &&& after.lost == (client.lost || reply matches Err(ClientError::Io(_)))
        },
{
    let (request, reply) = choose|request: Request, reply: Result<Response, ClientError>|
        client.asked(after, request, reply);
    assert(after.link.log().take(client.link.log().len() as int) =~= client.link.log());
    assert(only_sent(client.link.log(), after.link.log(), request, reply));
}

/// A question for the indexed directories sends one request, which says what the caller says.
pub proof fn list_directories_says_what_it_is_told<
    S: Fn(&Request) -> Result<Response, ClientError>,
    D: Fn(&Response) -> String,
>(
    client: FffClient<S, D>,
    after: FffClient<S, D>,
    res: Result<Vec<DirectoryInfoWire>, ClientError>,
)
    requires
        client.list_directories_done(after, res),
    ensures
        exists|request: Request, reply: Result<Response, ClientError>| {
            &&& #[trigger] only_sent(client.link.log(), after.link.log(), request, reply)
            &&& request is ListDirectories
            &&& match reply {
                Err(e) => res == Err::<Vec<DirectoryInfoWire>, ClientError>(e),
                Ok(Response::Error(refusal)) => res == Err::<Vec<DirectoryInfoWire>, ClientError>(
                    ClientError::DaemonError(refusal),
                ),
                Ok(Response::Directories(infos)) => res == Ok::<Vec<DirectoryInfoWire>, ClientError>(infos),
                Ok(_) => not_expected(res),
            }
            &&& after.base_path@ == client.base_path@
            &&& after.db == client.db
            &&& after.uses == client.uses
            &&& after.lost == (client.lost || reply matches Err(ClientError::Io(_)))
        },
{
    let (request, reply) = choose|request: Request, reply: Result<Response, ClientError>|
        client.asked(after, request, reply);
    assert(after.link.log().take(client.link.log().len() as int) =~= client.link.log());
    assert(only_sent(client.link.log(), after.link.log(), request, reply));
}

/// A ping sends one request, which says what the caller says.
pub proof fn ping_says_what_it_is_told<
    S: Fn(&Request) -> Result<Response, ClientError>,
    D: Fn(&Response) -> String,
>(
    client: FffClient<S, D>,
    after: FffClient<S, D>,
    res: Result<(), ClientError>,
)
    requires
        client.ping_done(after, res),
    ensures
        exists|request: Request, reply: Result<Response, ClientError>| {
            &&& #[trigger] only_sent(client.link.log(), after.link.log(), request, reply)
            &&& request is Ping
            &&& match reply {
                Err(e) => res == Err::<(), ClientError>(e),
                Ok(Response::Error(refusal)) => res == Err::<(), ClientError>(
                    ClientError::DaemonError(refusal),
                ),
                Ok(Response::Pong) => res == Ok::<(), ClientError>(()),
                Ok(_) => not_expected(res),
            }
            &&& after.base_path@ == client.base_path@
            &&& after.db == client.db
            &&& after.uses == client.uses
            &&& after.lost == (client.lost || reply matches Err(ClientError::Io(_)))
        },
{
    let (request, reply) = choose|request: Request, reply: Result<Response, ClientError>|
        client.asked(after, request, reply);
    assert(after.link.log().take(client.link.log().len() as int) =~= client.link.log());
    assert(only_sent(client.link.log(), after.link.log(), request, reply));
}

/// The request to stop sends one request, which says what the caller says.
pub proof fn shutdown_says_what_it_is_told<
    S: Fn(&Request) -> Result<Response, ClientError>,
    D: Fn(&Response) -> String,
>(
    client: FffClient<S, D>,
    after: FffClient<S, D>,
    res: Result<(), ClientError>,
)
    requires
        client.shutdown_done(after, res),
    ensures
        exists|request: Request, reply: Result<Response, ClientError>| {
            &&& #[trigger] only_sent(client.link.log(), after.link.log(), request, reply)
            &&& request is Shutdown
            &&& res == Ok::<(), ClientError>(())
            &&& after.base_path@ == client.base_path@
            &&& after.db == client.db
            &&& after.uses == client.uses
            &&& after.lost == (client.lost || reply matches Err(ClientError::Io(_)))
        },
{
    let (request, reply) = choose|request: Request, reply: Result<Response, ClientError>|
        client.asked(after, request, reply);
    assert(after.link.log().take(client.link.log().len() as int) =~= client.link.log());
    assert(only_sent(client.link.log(), after.link.log(), request, reply));
}

/// A client that goes on over a new connection first tells the daemon of the databases that it had
/// accepted, and then asks for the directory that it uses, unless the daemon refused the first. It
/// says nothing else. It works on with the same directory and databases; a refused directory it
/// uses no longer, and where it could not be told of the databases it needs another connection.
pub proof fn reconnect_says_what_the_daemon_must_know<
    S: Fn(&Request) -> Result<Response, ClientError>,
    D: Fn(&Response) -> String,
>(
    client: FffClient<S, D>,
    after: FffClient<S, D>,
    exchange: S,
    res: Result<(), ClientError>,
)
    requires
        client.reconnect_done(after, exchange, res),
    ensures
        ({
            let old = client.link.log().len() as int;
            let log = after.link.log();
            let told = if client.db is Some {
                1int
            } else {
                0
            };
            let refused = client.db is Some && !(log[old + 1]->reply matches Ok(answer)
                && !(answer is Error));
            let asked = client.uses is Some && !refused;
            &&& log.len() == old + 1 + told + (if asked {
                1int
            } else {
                0
            })
            &&& log.take(old) == client.link.log()
            &&& log[old] is Opened
            &&& client.db matches Some(db) ==> {
                &&& log[old + 1] is Sent
                &&& log[old + 1]->request matches Request::InitDb {
                    frecency_db_path: frecency,
                    history_db_path: history,
                    use_unsafe_no_lock: no_lock,
                }
                &&& frecency@ == db.frecency_db_path@
                &&& history@ == db.history_db_path@
                &&& no_lock == db.use_unsafe_no_lock
            }
            &&& refused ==> res is Err && after.lost && after.uses == client.uses
            &&& asked ==> {
                &&& log[old + told + 1] is Sent
                &&& log[old + told + 1]->request matches Request::IndexDirectory {
                    path,
                    watch_git_events,
                }
                &&& path@ == client.base_path@
                &&& Some(watch_git_events) == client.uses
                &&& match log[old + told + 1]->reply {
                    Ok(Response::Error(refusal)) => res == Err::<(), ClientError>(
                        ClientError::DaemonError(refusal),
                    ) && after.uses is None && !after.lost,
                    Ok(_) => res is Ok && after.uses == client.uses && !after.lost,
                    Err(ClientError::Io(_)) => res is Err && after.lost,
                    Err(_) => res is Err && after.uses is None,
                }
            }
            &&& !refused && !asked ==> res is Ok && !after.lost
            &&& after.base_path@ == client.base_path@
            &&& after.db == client.db
        }),
{
    let old = client.link.log().len() as int;
    let log = after.link.log();
    let talk = log.skip(old);
    assert(log.take(old) =~= client.link.log());
    assert(talk[0] == log[old]);
    if talk.len() > 1 {
        assert(talk[1] == log[old + 1]);
    }
    if talk.len() > 2 {
        assert(talk[2] == log[old + 2]);
    }
}

} // verus!
