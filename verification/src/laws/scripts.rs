//! What the functions that scripts call send to the daemon, with the values that stand in for
//! arguments left out, and what the script gets for what comes back.

use crate::client::ClientError;
use crate::laws::calls::{only_sent, text_of};
use crate::lua::{relays, LuaBridge};
use crate::protocol::{
    DirectoryInfoWire, GrepModeWire, GrepResultWire, HealthCheckWire, Request, Response,
    ScanProgressWire, SearchResultWire,
};
use crate::table::{held, Value};
use vstd::prelude::*;
use vstd::string::*;
use vstd::utf8::*;

verus! {

/// The script is told what went wrong.
pub open spec fn fails_with<T>(res: Result<T, String>, words: Seq<char>) -> bool {
    res matches Err(message) && message@ == words
}

/// The script is told that something went wrong with the daemon.
pub open spec fn fails_over_the_daemon<T>(res: Result<T, String>) -> bool {
    res matches Err(message) && "daemon error: "@.is_prefix_of(message@)
}

/// The script is told what the daemon said when it refused.
pub open spec fn refused_with<T>(res: Result<T, String>, refusal: Seq<char>) -> bool {
    fails_with(res, "daemon error: "@ + ("daemon error: "@ + refusal))
}

/// The mode of a content search is the one that the script names: `regex` and `fuzzy` for these
/// two, and plain text for anything else.
pub open spec fn mode_is_named(mode: GrepModeWire, name: Option<Seq<char>>) -> bool {
    &&& mode is Regex <==> name == Some("regex"@)
    &&& mode is Fuzzy <==> name == Some("fuzzy"@)
}

/// No two modes have one name.
proof fn lemma_modes()
    ensures
        "regex"@ != "fuzzy"@,
{
    reveal_strlit("regex");
    reveal_strlit("fuzzy");
    assert("regex"@[0] != "fuzzy"@[0]);
}

/// A script's `restart_index_in_path` sends the daemon one request, which says what the script
/// says, and gives the script what comes back. Before there is a client it sends nothing.
pub proof fn restart_index_in_path_for_scripts<
    S: Fn(&Request) -> Result<Response, ClientError>,
    D: Fn(&Response) -> String,
>(
    bridge: LuaBridge<S, D>,
    after: LuaBridge<S, D>,
    new_path: Seq<char>,
    res: Result<(), String>,
)
    requires
        bridge.restart_index_in_path_done(after, new_path, res),
    ensures
        bridge.client is None ==> after == bridge && fails_with(
            res,
            "daemon client not initialized — call init_file_picker first"@,
        ),
        bridge.client is Some ==> after.client is Some && exists|
            request: Request,
            reply: Result<Response, ClientError>,
        | {
            &&& #[trigger] only_sent(
                bridge.client->0.link.log(),
                after.client->0.link.log(),
                request,
                reply,
            )
            &&& request matches Request::RestartIndex {
                path,
                new_path: sent_new_path,
            }
            &&& path@ == bridge.client->0.base_path@
            &&& sent_new_path@ == encode_utf8(new_path)
            &&& match reply {
                Err(_) => fails_over_the_daemon(res),
                Ok(Response::Error(refusal)) => refused_with(res, refusal@),
                Ok(_) => res is Ok,
            }
        },
        after.pending == bridge.pending,
        after.closed == bridge.closed,
{
    if bridge.client is Some {
        let client = bridge.client->0;
        let inner = choose|inner: Result<(), ClientError>|
            client.restart_index_in_path_done(
                after.client->0,
                new_path,
                inner,
            ) && relays(inner, res);
        crate::laws::calls::restart_index_in_path_says_what_it_is_told(
            client,
            after.client->0,
            new_path,
            inner,
        );
    }
}

/// A script's `scan_files` sends the daemon one request, which says what the script
/// says, and gives the script what comes back. Before there is a client it sends nothing.
pub proof fn scan_files_for_scripts<
    S: Fn(&Request) -> Result<Response, ClientError>,
    D: Fn(&Response) -> String,
>(
    bridge: LuaBridge<S, D>,
    after: LuaBridge<S, D>,
    res: Result<(), String>,
)
    requires
        bridge.scan_files_done(after, res),
    ensures
        bridge.client is None ==> after == bridge && fails_with(
            res,
            "daemon client not initialized — call init_file_picker first"@,
        ),
        bridge.client is Some ==> after.client is Some && exists|
            request: Request,
            reply: Result<Response, ClientError>,
        | {
            &&& #[trigger] only_sent(
                bridge.client->0.link.log(),
                after.client->0.link.log(),
                request,
                reply,
            )
            &&& request matches Request::TriggerRescan {
                path,
            }
            &&& path@ == bridge.client->0.base_path@
            &&& match reply {
                Err(_) => fails_over_the_daemon(res),
                Ok(Response::Error(refusal)) => refused_with(res, refusal@),
                Ok(_) => res is Ok,
            }
        },
        after.pending == bridge.pending,
        after.closed == bridge.closed,
{
    if bridge.client is Some {
        let client = bridge.client->0;
        let inner = choose|inner: Result<(), ClientError>|
            client.scan_files_done(after.client->0, inner) && relays(inner, res);
        crate::laws::calls::scan_files_says_what_it_is_told(
            client,
            after.client->0,
            inner,
        );
    }
}

/// A script's `fuzzy_search_files` sends the daemon one request, which says what the script
/// says, and gives the script what comes back. Before there is a client it sends nothing.
pub proof fn fuzzy_search_files_for_scripts<
    S: Fn(&Request) -> Result<Response, ClientError>,
    D: Fn(&Response) -> String,
>(
    bridge: LuaBridge<S, D>,
    after: LuaBridge<S, D>,
    query: Seq<char>,
    max_threads: usize,
    current_file: Option<Seq<char>>,
    combo_boost_score_multiplier: i32,
    min_combo_count: Option<u32>,
    page_index: Option<usize>,
    page_size: Option<usize>,
    res: Result<Value, String>,
)
    requires
        bridge.fuzzy_search_files_done(
            after,
            query,
            max_threads,
            current_file,
            combo_boost_score_multiplier,
            min_combo_count,
            page_index,
            page_size,
            res,
        ),
    ensures
        bridge.client is None ==> after == bridge && fails_with(
            res,
            "daemon client not initialized — call init_file_picker first"@,
        ),
        bridge.client is Some ==> after.client is Some && exists|
            request: Request,
            reply: Result<Response, ClientError>,
        | {
            &&& #[trigger] only_sent(
                bridge.client->0.link.log(),
                after.client->0.link.log(),
                request,
                reply,
            )
            &&& request matches Request::FuzzySearch {
                path,
                query: sent_query,
                max_threads: sent_max_threads,
                current_file: sent_current_file,
                combo_boost_score_multiplier: sent_combo_boost_score_multiplier,
                min_combo_count: sent_min_combo_count,
                page_index: sent_page_index,
                page_size: sent_page_size,
            }
            &&& path@ == bridge.client->0.base_path@
            &&& sent_query@ == query
            &&& sent_max_threads == max_threads
            &&& text_of(sent_current_file) == current_file
            &&& sent_combo_boost_score_multiplier == combo_boost_score_multiplier
            &&& sent_min_combo_count == (match min_combo_count {
                Some(wanted) => wanted,
                None => 3,
            })
            &&& sent_page_index == (match page_index {
                Some(wanted) => wanted,
                None => 0,
            })
            &&& sent_page_size == (match page_size {
                Some(wanted) => wanted,
                None => 0,
            })
            &&& match reply {
                Err(_) => fails_over_the_daemon(res),
                Ok(Response::Error(refusal)) => refused_with(res, refusal@),
                Ok(Response::SearchResult(found)) => res matches Ok(value) && held(value)
                    == crate::table::search_table(found),
                Ok(_) => fails_over_the_daemon(res),
            }
        },
        after.pending == bridge.pending,
        after.closed == bridge.closed,
{
    if bridge.client is Some {
        let client = bridge.client->0;
        let inner = choose|inner: Result<SearchResultWire, ClientError>|
            client.fuzzy_search_files_done(
                after.client->0,
                query,
                max_threads,
                current_file,
                combo_boost_score_multiplier,
                crate::lua::given(min_combo_count, 3),
                crate::lua::given(page_index, 0),
                crate::lua::given(page_size, 0),
                inner,
            ) && match inner {
                Ok(found) => res matches Ok(value) && held(value)
                    == crate::table::search_table(found),
                Err(e) => res matches Err(message) && crate::lua::tells(e, message@),
            };
        crate::laws::calls::fuzzy_search_files_says_what_it_is_told(
            client,
            after.client->0,
            query,
            max_threads,
            current_file,
            combo_boost_score_multiplier,
            crate::lua::given(min_combo_count, 3),
            crate::lua::given(page_index, 0),
            crate::lua::given(page_size, 0),
            inner,
        );
    }
}

/// A script's `live_grep` sends the daemon one request, which says what the script
/// says, and gives the script what comes back. Before there is a client it sends nothing.
pub proof fn live_grep_for_scripts<
    S: Fn(&Request) -> Result<Response, ClientError>,
    D: Fn(&Response) -> String,
>(
    bridge: LuaBridge<S, D>,
    after: LuaBridge<S, D>,
    query: Seq<char>,
    file_offset: Option<usize>,
    page_size: Option<usize>,
    max_file_size: Option<u64>,
    max_matches_per_file: Option<usize>,
    smart_case: Option<bool>,
    grep_mode: Option<Seq<char>>,
    time_budget_ms: Option<u64>,
    trim_whitespace: Option<bool>,
    res: Result<Value, String>,
)
    requires
        bridge.live_grep_done(
            after,
            query,
            file_offset,
            page_size,
            max_file_size,
            max_matches_per_file,
            smart_case,
            grep_mode,
            time_budget_ms,
            trim_whitespace,
            res,
        ),
    ensures
        bridge.client is None ==> after == bridge && fails_with(
            res,
            "daemon client not initialized — call init_file_picker first"@,
        ),
        bridge.client is Some ==> after.client is Some && exists|
            request: Request,
            reply: Result<Response, ClientError>,
        | {
            &&& #[trigger] only_sent(
                bridge.client->0.link.log(),
                after.client->0.link.log(),
                request,
                reply,
            )
            &&& request matches Request::GrepSearch {
                path,
                query: sent_query,
                file_offset: sent_file_offset,
                page_size: sent_page_size,
                max_file_size: sent_max_file_size,
                max_matches_per_file: sent_max_matches_per_file,
                smart_case: sent_smart_case,
                grep_mode: sent_grep_mode,
                time_budget_ms: sent_time_budget_ms,
                trim_whitespace: sent_trim_whitespace,
            }
            &&& path@ == bridge.client->0.base_path@
            &&& sent_query@ == query
            &&& sent_file_offset == (match file_offset {
                Some(wanted) => wanted,
                None => 0,
            })
            &&& sent_page_size == (match page_size {
                Some(wanted) => wanted,
                None => 50,
            })
            &&& sent_max_file_size == (match max_file_size {
                Some(wanted) => wanted,
                None => 10485760,
            })
            &&& sent_max_matches_per_file == (match max_matches_per_file {
                Some(wanted) => wanted,
                None => 200,
            })
            &&& sent_smart_case == (match smart_case {
                Some(wanted) => wanted,
                None => true,
            })
            &&& mode_is_named(sent_grep_mode, grep_mode)
            &&& sent_time_budget_ms == (match time_budget_ms {
                Some(wanted) => wanted,
                None => 0,
            })
            &&& sent_trim_whitespace == (match trim_whitespace {
                Some(wanted) => wanted,
                None => false,
            })
            &&& match reply {
                Err(_) => fails_over_the_daemon(res),
                Ok(Response::Error(refusal)) => refused_with(res, refusal@),
                Ok(Response::GrepResult(found)) => res matches Ok(value) && held(value)
                    == crate::table::grep_table(found),
                Ok(_) => fails_over_the_daemon(res),
            }
        },
        after.pending == bridge.pending,
        after.closed == bridge.closed,
{
    if bridge.client is Some {
        let client = bridge.client->0;
        let inner = choose|inner: Result<GrepResultWire, ClientError>|
            client.live_grep_done(
                after.client->0,
                query,
                crate::lua::given(file_offset, 0),
                crate::lua::given(page_size, 50),
                crate::lua::given(max_file_size, 10485760),
                crate::lua::given(max_matches_per_file, 200),
                crate::lua::given(smart_case, true),
                crate::lua::grep_mode_named(grep_mode),
                crate::lua::given(time_budget_ms, 0),
                crate::lua::given(trim_whitespace, false),
                inner,
            ) && match inner {
                Ok(found) => res matches Ok(value) && held(value)
                    == crate::table::grep_table(found),
                Err(e) => res matches Err(message) && crate::lua::tells(e, message@),
            };
        crate::laws::calls::live_grep_says_what_it_is_told(
            client,
            after.client->0,
            query,
            crate::lua::given(file_offset, 0),
            crate::lua::given(page_size, 50),
            crate::lua::given(max_file_size, 10485760),
            crate::lua::given(max_matches_per_file, 200),
            crate::lua::given(smart_case, true),
            crate::lua::grep_mode_named(grep_mode),
            crate::lua::given(time_budget_ms, 0),
            crate::lua::given(trim_whitespace, false),
            inner,
        );
        lemma_modes();
    }
}

/// A script's `track_access` sends the daemon one request, which says what the script
/// says, and gives the script what comes back. Before there is a client it sends nothing.
pub proof fn track_access_for_scripts<
    S: Fn(&Request) -> Result<Response, ClientError>,
    D: Fn(&Response) -> String,
>(
    bridge: LuaBridge<S, D>,
    after: LuaBridge<S, D>,
    file_path: Seq<char>,
    res: Result<bool, String>,
)
    requires
        bridge.track_access_done(after, file_path, res),
    ensures
        bridge.client is None ==> after == bridge && fails_with(
            res,
            "daemon client not initialized — call init_file_picker first"@,
        ),
        bridge.client is Some ==> after.client is Some && exists|
            request: Request,
            reply: Result<Response, ClientError>,
        | {
            &&& #[trigger] only_sent(
                bridge.client->0.link.log(),
                after.client->0.link.log(),
                request,
                reply,
            )
            &&& request matches Request::TrackAccess {
                path,
                file_path: sent_file_path,
            }
            &&& path@ == bridge.client->0.base_path@
            &&& sent_file_path@ == file_path
            &&& match reply {
                Err(_) => fails_over_the_daemon(res),
                Ok(Response::Error(refusal)) => refused_with(res, refusal@),
                Ok(Response::Bool(b)) => res == Ok::<bool, String>(b),
                Ok(_) => res == Ok::<bool, String>(true),
            }
        },
        after.pending == bridge.pending,
        after.closed == bridge.closed,
{
    if bridge.client is Some {
        let client = bridge.client->0;
        let inner = choose|inner: Result<bool, ClientError>|
            client.track_access_done(after.client->0, file_path, inner) && relays(inner, res);
        crate::laws::calls::track_access_says_what_it_is_told(
            client,
            after.client->0,
            file_path,
            inner,
        );
    }
}

/// A script's `get_scan_progress` sends the daemon one request, which says what the script
/// says, and gives the script what comes back. Before there is a client it sends nothing.
pub proof fn get_scan_progress_for_scripts<
    S: Fn(&Request) -> Result<Response, ClientError>,
    D: Fn(&Response) -> String,
>(
    bridge: LuaBridge<S, D>,
    after: LuaBridge<S, D>,
    res: Result<Value, String>,
)
    requires
        bridge.get_scan_progress_done(after, res),
    ensures
        bridge.client is None ==> after == bridge && fails_with(
            res,
            "daemon client not initialized — call init_file_picker first"@,
        ),
        bridge.client is Some ==> after.client is Some && exists|
            request: Request,
            reply: Result<Response, ClientError>,
        | {
            &&& #[trigger] only_sent(
                bridge.client->0.link.log(),
                after.client->0.link.log(),
                request,
                reply,
            )
            &&& request matches Request::GetScanProgress {
                path,
            }
            &&& path@ == bridge.client->0.base_path@
            &&& match reply {
                Err(_) => fails_over_the_daemon(res),
                Ok(Response::Error(refusal)) => refused_with(res, refusal@),
                Ok(Response::ScanProgress(progress)) => res matches Ok(value) && held(value)
                    == crate::table::progress_table(progress),
                Ok(_) => fails_over_the_daemon(res),
            }
        },
        after.pending == bridge.pending,
        after.closed == bridge.closed,
{
    if bridge.client is Some {
        let client = bridge.client->0;
        let inner = choose|inner: Result<ScanProgressWire, ClientError>|
            client.get_scan_progress_done(after.client->0, inner) && match inner {
                Ok(progress) => res matches Ok(value) && held(value)
                    == crate::table::progress_table(progress),
                Err(e) => res matches Err(message) && crate::lua::tells(e, message@),
            };
        crate::laws::calls::get_scan_progress_says_what_it_is_told(
            client,
            after.client->0,
            inner,
        );
    }
}

/// A script's `is_scanning` sends the daemon one request, which says what the script
/// says, and gives the script what comes back. Before there is a client it sends nothing.
pub proof fn is_scanning_for_scripts<
    S: Fn(&Request) -> Result<Response, ClientError>,
    D: Fn(&Response) -> String,
>(
    bridge: LuaBridge<S, D>,
    after: LuaBridge<S, D>,
    res: Result<bool, String>,
)
    requires
        bridge.is_scanning_done(after, res),
    ensures
        bridge.client is None ==> after == bridge && fails_with(
            res,
            "daemon client not initialized — call init_file_picker first"@,
        ),
        bridge.client is Some ==> after.client is Some && exists|
            request: Request,
            reply: Result<Response, ClientError>,
        | {
            &&& #[trigger] only_sent(
                bridge.client->0.link.log(),
                after.client->0.link.log(),
                request,
                reply,
            )
            &&& request matches Request::IsScanning {
                path,
            }
            &&& path@ == bridge.client->0.base_path@
            &&& match reply {
                Err(_) => fails_over_the_daemon(res),
                Ok(Response::Error(refusal)) => refused_with(res, refusal@),
                Ok(Response::Bool(b)) => res == Ok::<bool, String>(b),
                Ok(_) => res == Ok::<bool, String>(false),
            }
        },
        after.pending == bridge.pending,
        after.closed == bridge.closed,
{
    if bridge.client is Some {
        let client = bridge.client->0;
        let inner = choose|inner: Result<bool, ClientError>|
            client.is_scanning_done(after.client->0, inner) && relays(inner, res);
        crate::laws::calls::is_scanning_says_what_it_is_told(
            client,
            after.client->0,
            inner,
        );
    }
}

/// A script's `get_git_root` sends the daemon one request, which says what the script
/// says, and gives the script what comes back. Before there is a client it sends nothing.
pub proof fn get_git_root_for_scripts<
    S: Fn(&Request) -> Result<Response, ClientError>,
    D: Fn(&Response) -> String,
>(
    bridge: LuaBridge<S, D>,
    after: LuaBridge<S, D>,
    res: Result<Option<String>, String>,
)
    requires
        bridge.get_git_root_done(after, res),
    ensures
        bridge.client is None ==> after == bridge && fails_with(
            res,
            "daemon client not initialized — call init_file_picker first"@,
        ),
        bridge.client is Some ==> after.client is Some && exists|
            request: Request,
            reply: Result<Response, ClientError>,
        | {
            &&& #[trigger] only_sent(
                bridge.client->0.link.log(),
                after.client->0.link.log(),
                request,
                reply,
            )
            &&& request matches Request::GetGitRoot {
                path,
            }
            &&& path@ == bridge.client->0.base_path@
            &&& match reply {
                Err(_) => fails_over_the_daemon(res),
                Ok(Response::Error(refusal)) => refused_with(res, refusal@),
                Ok(Response::OptionalString(text)) => res == Ok::<Option<String>, String>(text),
                Ok(_) => res == Ok::<Option<String>, String>(None),
            }
        },
        after.pending == bridge.pending,
        after.closed == bridge.closed,
{
    if bridge.client is Some {
        let client = bridge.client->0;
        let inner = choose|inner: Result<Option<String>, ClientError>|
            client.get_git_root_done(after.client->0, inner) && relays(inner, res);
        crate::laws::calls::get_git_root_says_what_it_is_told(
            client,
            after.client->0,
            inner,
        );
    }
}

/// A script's `get_base_path` sends the daemon one request, which says what the script
/// says, and gives the script what comes back. Before there is a client it sends nothing.
pub proof fn get_base_path_for_scripts<
    S: Fn(&Request) -> Result<Response, ClientError>,
    D: Fn(&Response) -> String,
>(
    bridge: LuaBridge<S, D>,
    after: LuaBridge<S, D>,
    res: Result<Option<String>, String>,
)
    requires
        bridge.get_base_path_done(after, res),
    ensures
        bridge.client is None ==> after == bridge && fails_with(
            res,
            "daemon client not initialized — call init_file_picker first"@,
        ),
        bridge.client is Some ==> after.client is Some && exists|
            request: Request,
            reply: Result<Response, ClientError>,
        | {
            &&& #[trigger] only_sent(
                bridge.client->0.link.log(),
                after.client->0.link.log(),
                request,
                reply,
            )
            &&& request matches Request::GetBasePath {
                path,
            }
            &&& path@ == bridge.client->0.base_path@
            &&& match reply {
                Err(_) => fails_over_the_daemon(res),
                Ok(Response::Error(refusal)) => refused_with(res, refusal@),
                Ok(Response::OptionalString(text)) => res == Ok::<Option<String>, String>(text),
                Ok(_) => res == Ok::<Option<String>, String>(None),
            }
        },
        after.pending == bridge.pending,
        after.closed == bridge.closed,
{
    if bridge.client is Some {
        let client = bridge.client->0;
        let inner = choose|inner: Result<Option<String>, ClientError>|
            client.get_base_path_done(after.client->0, inner) && relays(inner, res);
        crate::laws::calls::get_base_path_says_what_it_is_told(
            client,
            after.client->0,
            inner,
        );
    }
}

/// A script's `refresh_git_status` sends the daemon one request, which says what the script
/// says, and gives the script what comes back. Before there is a client it sends nothing.
pub proof fn refresh_git_status_for_scripts<
    S: Fn(&Request) -> Result<Response, ClientError>,
    D: Fn(&Response) -> String,
>(
    bridge: LuaBridge<S, D>,
    after: LuaBridge<S, D>,
    res: Result<usize, String>,
)
    requires
        bridge.refresh_git_status_done(after, res),
    ensures
        bridge.client is None ==> after == bridge && fails_with(
            res,
            "daemon client not initialized — call init_file_picker first"@,
        ),
        bridge.client is Some ==> after.client is Some && exists|
            request: Request,
            reply: Result<Response, ClientError>,
        | {
            &&& #[trigger] only_sent(
                bridge.client->0.link.log(),
                after.client->0.link.log(),
                request,
                reply,
            )
            &&& request matches Request::RefreshGitStatus {
                path,
            }
            &&& path@ == bridge.client->0.base_path@
            &&& match reply {
                Err(_) => fails_over_the_daemon(res),
                Ok(Response::Error(refusal)) => refused_with(res, refusal@),
                Ok(Response::Usize(n)) => res == Ok::<usize, String>(n),
                Ok(_) => res == Ok::<usize, String>(0),
            }
        },
        after.pending == bridge.pending,
        after.closed == bridge.closed,
{
    if bridge.client is Some {
        let client = bridge.client->0;
        let inner = choose|inner: Result<usize, ClientError>|
            client.refresh_git_status_done(after.client->0, inner) && relays(inner, res);
        crate::laws::calls::refresh_git_status_says_what_it_is_told(
            client,
            after.client->0,
            inner,
        );
    }
}

/// A script's `update_single_file_frecency` sends the daemon one request, which says what the script
/// says, and gives the script what comes back. Before there is a client it sends nothing.
pub proof fn update_single_file_frecency_for_scripts<
    S: Fn(&Request) -> Result<Response, ClientError>,
    D: Fn(&Response) -> String,
>(
    bridge: LuaBridge<S, D>,
    after: LuaBridge<S, D>,
    file_path: Seq<char>,
    res: Result<bool, String>,
)
    requires
        bridge.update_single_file_frecency_done(after, file_path, res),
    ensures
        bridge.client is None ==> after == bridge && fails_with(
            res,
            "daemon client not initialized — call init_file_picker first"@,
        ),
        bridge.client is Some ==> after.client is Some && exists|
            request: Request,
            reply: Result<Response, ClientError>,
        | {
            &&& #[trigger] only_sent(
                bridge.client->0.link.log(),
                after.client->0.link.log(),
                request,
                reply,
            )
            &&& request matches Request::UpdateSingleFileFrecency {
                path,
                file_path: sent_file_path,
            }
            &&& path@ == bridge.client->0.base_path@
            &&& sent_file_path@ == file_path
            &&& match reply {
                Err(_) => fails_over_the_daemon(res),
                Ok(Response::Error(refusal)) => refused_with(res, refusal@),
                Ok(Response::Bool(b)) => res == Ok::<bool, String>(b),
                Ok(_) => res == Ok::<bool, String>(true),
            }
        },
        after.pending == bridge.pending,
        after.closed == bridge.closed,
{
    if bridge.client is Some {
        let client = bridge.client->0;
        let inner = choose|inner: Result<bool, ClientError>|
            client.update_single_file_frecency_done(
                after.client->0,
                file_path,
                inner,
            ) && relays(inner, res);
        crate::laws::calls::update_single_file_frecency_says_what_it_is_told(
            client,
            after.client->0,
            file_path,
            inner,
        );
    }
}

/// A script's `stop_background_monitor` sends the daemon one request, which says what the script
/// says, and gives the script what comes back. Before there is a client it sends nothing.
pub proof fn stop_background_monitor_for_scripts<
    S: Fn(&Request) -> Result<Response, ClientError>,
    D: Fn(&Response) -> String,
>(
    bridge: LuaBridge<S, D>,
    after: LuaBridge<S, D>,
    res: Result<bool, String>,
)
    requires
        bridge.stop_background_monitor_done(after, res),
    ensures
        bridge.client is None ==> after == bridge && fails_with(
            res,
            "daemon client not initialized — call init_file_picker first"@,
        ),
        bridge.client is Some ==> after.client is Some && exists|
            request: Request,
            reply: Result<Response, ClientError>,
        | {
            &&& #[trigger] only_sent(
                bridge.client->0.link.log(),
                after.client->0.link.log(),
                request,
                reply,
            )
            &&& request matches Request::StopBackgroundMonitor {
                path,
            }
            &&& path@ == bridge.client->0.base_path@
            &&& match reply {
                Err(_) => fails_over_the_daemon(res),
                Ok(Response::Error(refusal)) => refused_with(res, refusal@),
                Ok(Response::Bool(b)) => res == Ok::<bool, String>(b),
                Ok(_) => res == Ok::<bool, String>(true),
            }
        },
        after.pending == bridge.pending,
        after.closed == bridge.closed,
{
    if bridge.client is Some {
        let client = bridge.client->0;
        let inner = choose|inner: Result<bool, ClientError>|
            client.stop_background_monitor_done(after.client->0, inner) && relays(inner, res);
        crate::laws::calls::stop_background_monitor_says_what_it_is_told(
            client,
            after.client->0,
            inner,
        );
    }
}

/// A script's `cleanup_file_picker` sends the daemon one request, which says what the script
/// says, and gives the script what comes back. Before there is a client it sends nothing.
pub proof fn cleanup_file_picker_for_scripts<
    S: Fn(&Request) -> Result<Response, ClientError>,
    D: Fn(&Response) -> String,
>(
    bridge: LuaBridge<S, D>,
    after: LuaBridge<S, D>,
    res: Result<bool, String>,
)
    requires
        bridge.cleanup_file_picker_done(after, res),
    ensures
        bridge.client is None ==> after == bridge && fails_with(
            res,
            "daemon client not initialized — call init_file_picker first"@,
        ),
        bridge.client is Some ==> after.client is Some && exists|
            request: Request,
            reply: Result<Response, ClientError>,
        | {
            &&& #[trigger] only_sent(
                bridge.client->0.link.log(),
                after.client->0.link.log(),
                request,
                reply,
            )
            &&& request matches Request::CleanupFilePicker {
                path,
            }
            &&& path@ == bridge.client->0.base_path@
            &&& match reply {
                Err(_) => fails_over_the_daemon(res),
                Ok(Response::Error(refusal)) => refused_with(res, refusal@),
                Ok(Response::Bool(b)) => res == Ok::<bool, String>(b),
                Ok(_) => res == Ok::<bool, String>(true),
            }
        },
        after.pending == bridge.pending,
        after.closed == bridge.closed,
{
    if bridge.client is Some {
        let client = bridge.client->0;
        let inner = choose|inner: Result<bool, ClientError>|
            client.cleanup_file_picker_done(after.client->0, inner) && relays(inner, res);
        crate::laws::calls::cleanup_file_picker_says_what_it_is_told(
            client,
            after.client->0,
            inner,
        );
    }
}

/// A script's `wait_for_initial_scan` sends the daemon one request, which says what the script
/// says, and gives the script what comes back. Before there is a client it sends nothing.
pub proof fn wait_for_initial_scan_for_scripts<
    S: Fn(&Request) -> Result<Response, ClientError>,
    D: Fn(&Response) -> String,
>(
    bridge: LuaBridge<S, D>,
    after: LuaBridge<S, D>,
    timeout_ms: Option<u64>,
    res: Result<bool, String>,
)
    requires
        bridge.wait_for_initial_scan_done(after, timeout_ms, res),
    ensures
        bridge.client is None ==> after == bridge && fails_with(
            res,
            "daemon client not initialized — call init_file_picker first"@,
        ),
        bridge.client is Some ==> after.client is Some && exists|
            request: Request,
            reply: Result<Response, ClientError>,
        | {
            &&& #[trigger] only_sent(
                bridge.client->0.link.log(),
                after.client->0.link.log(),
                request,
                reply,
            )
            &&& request matches Request::WaitForScan {
                path,
                timeout_ms: sent_timeout_ms,
            }
            &&& path@ == bridge.client->0.base_path@
            &&& sent_timeout_ms == (match timeout_ms {
                Some(wanted) => wanted,
                None => 500,
            })
            &&& match reply {
                Err(_) => fails_over_the_daemon(res),
                Ok(Response::Error(refusal)) => refused_with(res, refusal@),
                Ok(Response::Bool(b)) => res == Ok::<bool, String>(b),
                Ok(_) => res == Ok::<bool, String>(true),
            }
        },
        after.pending == bridge.pending,
        after.closed == bridge.closed,
{
    if bridge.client is Some {
        let client = bridge.client->0;
        let inner = choose|inner: Result<bool, ClientError>|
            client.wait_for_initial_scan_done(
                after.client->0,
                crate::lua::given(timeout_ms, 500),
                inner,
            ) && relays(inner, res);
        crate::laws::calls::wait_for_initial_scan_says_what_it_is_told(
            client,
            after.client->0,
            crate::lua::given(timeout_ms, 500),
            inner,
        );
    }
}

/// A script's `track_query_completion` sends the daemon one request, which says what the script
/// says, and gives the script what comes back. Before there is a client it sends nothing.
pub proof fn track_query_completion_for_scripts<
    S: Fn(&Request) -> Result<Response, ClientError>,
    D: Fn(&Response) -> String,
>(
    bridge: LuaBridge<S, D>,
    after: LuaBridge<S, D>,
    query: Seq<char>,
    file_path: Seq<char>,
    res: Result<bool, String>,
)
    requires
        bridge.track_query_completion_done(after, query, file_path, res),
    ensures
        bridge.client is None ==> after == bridge && fails_with(
            res,
            "daemon client not initialized — call init_file_picker first"@,
        ),
        bridge.client is Some ==> after.client is Some && exists|
            request: Request,
            reply: Result<Response, ClientError>,
        | {
            &&& #[trigger] only_sent(
                bridge.client->0.link.log(),
                after.client->0.link.log(),
                request,
                reply,
            )
            &&& request matches Request::TrackQueryCompletion {
                path,
                query: sent_query,
                file_path: sent_file_path,
            }
            &&& path@ == bridge.client->0.base_path@
            &&& sent_query@ == query
            &&& sent_file_path@ == file_path
            &&& match reply {
                Err(_) => fails_over_the_daemon(res),
                Ok(Response::Error(refusal)) => refused_with(res, refusal@),
                Ok(Response::Bool(b)) => res == Ok::<bool, String>(b),
                Ok(_) => res == Ok::<bool, String>(true),
            }
        },
        after.pending == bridge.pending,
        after.closed == bridge.closed,
{
    if bridge.client is Some {
        let client = bridge.client->0;
        let inner = choose|inner: Result<bool, ClientError>|
            client.track_query_completion_done(
                after.client->0,
                query,
                file_path,
                inner,
            ) && relays(inner, res);
        crate::laws::calls::track_query_completion_says_what_it_is_told(
            client,
            after.client->0,
            query,
            file_path,
            inner,
        );
    }
}

/// A script's `track_grep_query` sends the daemon one request, which says what the script
/// says, and gives the script what comes back. Before there is a client it sends nothing.
pub proof fn track_grep_query_for_scripts<
    S: Fn(&Request) -> Result<Response, ClientError>,
    D: Fn(&Response) -> String,
>(
    bridge: LuaBridge<S, D>,
    after: LuaBridge<S, D>,
    query: Seq<char>,
    res: Result<bool, String>,
)
    requires
        bridge.track_grep_query_done(after, query, res),
    ensures
        bridge.client is None ==> after == bridge && fails_with(
            res,
            "daemon client not initialized — call init_file_picker first"@,
        ),
        bridge.client is Some ==> after.client is Some && exists|
            request: Request,
            reply: Result<Response, ClientError>,
        | {
            &&& #[trigger] only_sent(
                bridge.client->0.link.log(),
                after.client->0.link.log(),
                request,
                reply,
            )
            &&& request matches Request::TrackGrepQuery {
                path,
                query: sent_query,
            }
            &&& path@ == bridge.client->0.base_path@
            &&& sent_query@ == query
            &&& match reply {
                Err(_) => fails_over_the_daemon(res),
                Ok(Response::Error(refusal)) => refused_with(res, refusal@),
                Ok(Response::Bool(b)) => res == Ok::<bool, String>(b),
                Ok(_) => res == Ok::<bool, String>(true),
            }
        },
        after.pending == bridge.pending,
        after.closed == bridge.closed,
{
    if bridge.client is Some {
        let client = bridge.client->0;
        let inner = choose|inner: Result<bool, ClientError>|
            client.track_grep_query_done(after.client->0, query, inner) && relays(inner, res);
        crate::laws::calls::track_grep_query_says_what_it_is_told(
            client,
            after.client->0,
            query,
            inner,
        );
    }
}

/// A script's `get_historical_query` sends the daemon one request, which says what the script
/// says, and gives the script what comes back. Before there is a client it sends nothing.
pub proof fn get_historical_query_for_scripts<
    S: Fn(&Request) -> Result<Response, ClientError>,
    D: Fn(&Response) -> String,
>(
    bridge: LuaBridge<S, D>,
    after: LuaBridge<S, D>,
    offset: usize,
    res: Result<Option<String>, String>,
)
    requires
        bridge.get_historical_query_done(after, offset, res),
    ensures
        bridge.client is None ==> after == bridge && fails_with(
            res,
            "daemon client not initialized — call init_file_picker first"@,
        ),
        bridge.client is Some ==> after.client is Some && exists|
            request: Request,
            reply: Result<Response, ClientError>,
        | {
            &&& #[trigger] only_sent(
                bridge.client->0.link.log(),
                after.client->0.link.log(),
                request,
                reply,
            )
            &&& request matches Request::GetHistoricalQuery {
                path,
                offset: sent_offset,
            }
            &&& path@ == bridge.client->0.base_path@
            &&& sent_offset == offset
            &&& match reply {
                Err(_) => fails_over_the_daemon(res),
                Ok(Response::Error(refusal)) => refused_with(res, refusal@),
                Ok(Response::OptionalString(text)) => res == Ok::<Option<String>, String>(text),
                Ok(_) => res == Ok::<Option<String>, String>(None),
            }
        },
        after.pending == bridge.pending,
        after.closed == bridge.closed,
{
    if bridge.client is Some {
        let client = bridge.client->0;
        let inner = choose|inner: Result<Option<String>, ClientError>|
            client.get_historical_query_done(after.client->0, offset, inner) && relays(inner, res);
        crate::laws::calls::get_historical_query_says_what_it_is_told(
            client,
            after.client->0,
            offset,
            inner,
        );
    }
}

/// A script's `get_historical_grep_query` sends the daemon one request, which says what the script
/// says, and gives the script what comes back. Before there is a client it sends nothing.
pub proof fn get_historical_grep_query_for_scripts<
    S: Fn(&Request) -> Result<Response, ClientError>,
    D: Fn(&Response) -> String,
>(
    bridge: LuaBridge<S, D>,
    after: LuaBridge<S, D>,
    offset: usize,
    res: Result<Option<String>, String>,
)
    requires
        bridge.get_historical_grep_query_done(after, offset, res),
    ensures
        bridge.client is None ==> after == bridge && fails_with(
            res,
            "daemon client not initialized — call init_file_picker first"@,
        ),
        bridge.client is Some ==> after.client is Some && exists|
            request: Request,
            reply: Result<Response, ClientError>,
        | {
            &&& #[trigger] only_sent(
                bridge.client->0.link.log(),
                after.client->0.link.log(),
                request,
                reply,
            )
            &&& request matches Request::GetHistoricalGrepQuery {
                path,
                offset: sent_offset,
            }
            &&& path@ == bridge.client->0.base_path@
            &&& sent_offset == offset
            &&& match reply {
                Err(_) => fails_over_the_daemon(res),
                Ok(Response::Error(refusal)) => refused_with(res, refusal@),
                Ok(Response::OptionalString(text)) => res == Ok::<Option<String>, String>(text),
                Ok(_) => res == Ok::<Option<String>, String>(None),
            }
        },
        after.pending == bridge.pending,
        after.closed == bridge.closed,
{
    if bridge.client is Some {
        let client = bridge.client->0;
        let inner = choose|inner: Result<Option<String>, ClientError>|
            client.get_historical_grep_query_done(
                after.client->0,
                offset,
                inner,
            ) && relays(inner, res);
        crate::laws::calls::get_historical_grep_query_says_what_it_is_told(
            client,
            after.client->0,
            offset,
            inner,
        );
    }
}

/// A script's `parse_grep_query` sends the daemon one request, which says what the script
/// says, and gives the script what comes back. Before there is a client it sends nothing.
pub proof fn parse_grep_query_for_scripts<
    S: Fn(&Request) -> Result<Response, ClientError>,
    D: Fn(&Response) -> String,
>(
    bridge: LuaBridge<S, D>,
    after: LuaBridge<S, D>,
    query: Seq<char>,
    res: Result<Value, String>,
)
    requires
        bridge.parse_grep_query_done(after, query, res),
    ensures
        bridge.client is None ==> after == bridge && fails_with(
            res,
            "daemon client not initialized — call init_file_picker first"@,
        ),
        bridge.client is Some ==> after.client is Some && exists|
            request: Request,
            reply: Result<Response, ClientError>,
        | {
            &&& #[trigger] only_sent(
                bridge.client->0.link.log(),
                after.client->0.link.log(),
                request,
                reply,
            )
            &&& request matches Request::ParseGrepQuery {
                query: sent_query,
            }
            &&& sent_query@ == query
            &&& match reply {
                Err(_) => fails_over_the_daemon(res),
                Ok(Response::Error(refusal)) => refused_with(res, refusal@),
                Ok(Response::ParsedGrepQuery { grep_text }) => res matches Ok(value) && held(value)
                    == crate::table::parsed_query_table(grep_text@),
                Ok(_) => fails_over_the_daemon(res),
            }
        },
        after.pending == bridge.pending,
        after.closed == bridge.closed,
{
    if bridge.client is Some {
        let client = bridge.client->0;
        let inner = choose|inner: Result<String, ClientError>|
            client.parse_grep_query_done(after.client->0, query, inner) && match inner {
                Ok(grep_text) => res matches Ok(value) && held(value)
                    == crate::table::parsed_query_table(grep_text@),
                Err(e) => res matches Err(message) && crate::lua::tells(e, message@),
            };
        crate::laws::calls::parse_grep_query_says_what_it_is_told(
            client,
            after.client->0,
            query,
            inner,
        );
    }
}

/// A script's `health_check` sends the daemon one request, which says what the script
/// says, and gives the script what comes back. Before there is a client it sends nothing.
pub proof fn health_check_for_scripts<
    S: Fn(&Request) -> Result<Response, ClientError>,
    D: Fn(&Response) -> String,
>(
    bridge: LuaBridge<S, D>,
    after: LuaBridge<S, D>,
    res: Result<Value, String>,
)
    requires
        bridge.health_check_done(after, res),
    ensures
        bridge.client is None ==> after == bridge && fails_with(
            res,
            "daemon client not initialized — call init_file_picker first"@,
        ),
        bridge.client is Some ==> after.client is Some && exists|
            request: Request,
            reply: Result<Response, ClientError>,
        | {
            &&& #[trigger] only_sent(
                bridge.client->0.link.log(),
                after.client->0.link.log(),
                request,
                reply,
            )
            &&& request matches Request::HealthCheck {
                path,
            }
            &&& path@ == bridge.client->0.base_path@
            &&& match reply {
                Err(_) => fails_over_the_daemon(res),
                Ok(Response::Error(refusal)) => refused_with(res, refusal@),
                Ok(Response::HealthCheck(health)) => res matches Ok(value) && held(value)
                    == crate::table::health_table(health),
                Ok(_) => fails_over_the_daemon(res),
            }
        },
        after.pending == bridge.pending,
        after.closed == bridge.closed,
{
    if bridge.client is Some {
        let client = bridge.client->0;
        let inner = choose|inner: Result<HealthCheckWire, ClientError>|
            client.health_check_done(after.client->0, inner) && match inner {
                Ok(health) => res matches Ok(value) && held(value)
                    == crate::table::health_table(health),
                Err(e) => res matches Err(message) && crate::lua::tells(e, message@),
            };
        crate::laws::calls::health_check_says_what_it_is_told(
            client,
            after.client->0,
            inner,
        );
    }
}

/// A script's `list_directories` sends the daemon one request, which says what the script
/// says, and gives the script what comes back. Before there is a client it sends nothing.
pub proof fn list_directories_for_scripts<
    S: Fn(&Request) -> Result<Response, ClientError>,
    D: Fn(&Response) -> String,
>(
    bridge: LuaBridge<S, D>,
    after: LuaBridge<S, D>,
    res: Result<Value, String>,
)
    requires
        bridge.list_directories_done(after, res),
    ensures
        bridge.client is None ==> after == bridge && fails_with(
            res,
            "daemon client not initialized — call init_file_picker first"@,
        ),
        bridge.client is Some ==> after.client is Some && exists|
            request: Request,
            reply: Result<Response, ClientError>,
        | {
            &&& #[trigger] only_sent(
                bridge.client->0.link.log(),
                after.client->0.link.log(),
                request,
                reply,
            )
            &&& request is ListDirectories
            &&& match reply {
                Err(_) => fails_over_the_daemon(res),
                Ok(Response::Error(refusal)) => refused_with(res, refusal@),
                Ok(Response::Directories(infos)) => res matches Ok(value) && held(value)
                    == crate::table::directory_list(infos@),
                Ok(_) => fails_over_the_daemon(res),
            }
        },
        after.pending == bridge.pending,
        after.closed == bridge.closed,
{
    if bridge.client is Some {
        let client = bridge.client->0;
        let inner = choose|inner: Result<Vec<DirectoryInfoWire>, ClientError>|
            client.list_directories_done(after.client->0, inner) && match inner {
                Ok(infos) => res matches Ok(value) && held(value)
                    == crate::table::directory_list(infos@),
                Err(e) => res matches Err(message) && crate::lua::tells(e, message@),
            };
        crate::laws::calls::list_directories_says_what_it_is_told(
            client,
            after.client->0,
            inner,
        );
    }
}

/// A script that names the places of the databases before there is a client has them kept in mind,
/// and nothing is sent. Once there is a client the daemon is told.
pub proof fn init_db_for_scripts<
    S: Fn(&Request) -> Result<Response, ClientError>,
    D: Fn(&Response) -> String,
>(
    bridge: LuaBridge<S, D>,
    after: LuaBridge<S, D>,
    frecency_db_path: String,
    history_db_path: String,
    use_unsafe_no_lock: bool,
    res: Result<bool, String>,
)
    requires
        bridge.init_db_done(after, frecency_db_path, history_db_path, use_unsafe_no_lock, res),
    ensures
        bridge.client is None ==> {
            &&& res == Ok::<bool, String>(true)
            &&& after.client is None
            &&& after.pending matches Some(db)
            &&& db.frecency_db_path@ == frecency_db_path@
            &&& db.history_db_path@ == history_db_path@
            &&& db.use_unsafe_no_lock == use_unsafe_no_lock
        },
        bridge.client is Some ==> after.client is Some && exists|
            request: Request,
            reply: Result<Response, ClientError>,
        | {
            &&& #[trigger] only_sent(
                bridge.client->0.link.log(),
                after.client->0.link.log(),
                request,
                reply,
            )
            &&& request matches Request::InitDb {
                frecency_db_path: frecency,
                history_db_path: history,
                use_unsafe_no_lock: no_lock,
            }
            &&& frecency@ == frecency_db_path@
            &&& history@ == history_db_path@
            &&& no_lock == use_unsafe_no_lock
            &&& match reply {
                Err(_) => fails_over_the_daemon(res),
                Ok(Response::Error(refusal)) => refused_with(res, refusal@),
                Ok(_) => res == Ok::<bool, String>(true),
            }
        },
{
    if bridge.client is Some {
        let client = bridge.client->0;
        let inner = choose|inner: Result<bool, ClientError>|
            client.init_db_done(
                after.client->0,
                frecency_db_path@,
                history_db_path@,
                use_unsafe_no_lock,
                inner,
            ) && match inner {
                Ok(_) => res == Ok::<bool, String>(true),
                Err(e) => res matches Err(message) && crate::lua::tells(e, message@),
            };
        crate::laws::calls::init_db_says_what_it_is_told(
            client,
            after.client->0,
            frecency_db_path@,
            history_db_path@,
            use_unsafe_no_lock,
            inner,
        );
    }
}

/// A script's request for a directory over the client that there is sends the daemon that one
/// request. Git events are watched unless the script says otherwise.
pub proof fn init_file_picker_for_scripts<
    S: Fn(&Request) -> Result<Response, ClientError>,
    D: Fn(&Response) -> String,
>(
    bridge: LuaBridge<S, D>,
    after: LuaBridge<S, D>,
    base_path: Seq<char>,
    watch_git_events: Option<bool>,
    res: Result<bool, String>,
)
    requires
        bridge.init_file_picker_done(after, base_path, watch_git_events, None, res),
        bridge.client is Some,
    ensures
        after.client is Some,
        after.client->0.base_path@ == encode_utf8(base_path),
        exists|request: Request, reply: Result<Response, ClientError>| {
            &&& #[trigger] only_sent(
                bridge.client->0.link.log(),
                after.client->0.link.log(),
                request,
                reply,
            )
            &&& request matches Request::IndexDirectory { path, watch_git_events: watch }
            &&& path@ == encode_utf8(base_path)
            &&& watch == (match watch_git_events {
                Some(wanted) => wanted,
                None => true,
            })
            &&& match reply {
                Err(_) => fails_over_the_daemon(res),
                Ok(Response::Error(refusal)) => refused_with(res, refusal@),
                Ok(_) => res == Ok::<bool, String>(true),
            }
        },
{
    let client = bridge.client->0;
    let inner = choose|inner: Result<bool, ClientError>|
        client.init_file_picker_done(
            after.client->0,
            base_path,
            crate::lua::given(watch_git_events, true),
            inner,
        ) && match inner {
            Ok(_) => res == Ok::<bool, String>(true),
            Err(e) => res matches Err(message) && crate::lua::tells(e, message@),
        };
    crate::laws::calls::init_file_picker_says_what_it_is_told(
        client,
        after.client->0,
        base_path,
        crate::lua::given(watch_git_events, true),
        inner,
    );
}

/// The first request for a directory goes over the new connection, behind what was kept in mind of
/// the databases. The client is kept exactly where the daemon grants all of it, with the directory
/// as its own and the databases in mind; otherwise nothing is kept but what was in mind before.
pub proof fn first_requests_of_scripts<
    S: Fn(&Request) -> Result<Response, ClientError>,
    D: Fn(&Response) -> String,
>(
    bridge: LuaBridge<S, D>,
    after: LuaBridge<S, D>,
    base_path: Seq<char>,
    watch_git_events: Option<bool>,
    exchange: S,
    show: D,
    res: Result<bool, String>,
)
    requires
        bridge.init_file_picker_done(
            after,
            base_path,
            watch_git_events,
            Some(Ok((exchange, show))),
            res,
        ),
        bridge.client is None,
    ensures
        res matches Ok(granted) ==> granted && {
            &&& after.client matches Some(client)
            &&& after.pending is None
            &&& client.base_path@ == encode_utf8(base_path)
            &&& !client.lost
            &&& client.link.log().last() is Sent
            &&& client.link.log().last()->request matches Request::IndexDirectory {
                path,
                watch_git_events: watch,
            }
            &&& path@ == encode_utf8(base_path)
            &&& watch == (match watch_git_events {
                Some(wanted) => wanted,
                None => true,
            })
            &&& bridge.pending matches Some(db) ==> {
                &&& client.link.log().len() == 3
                &&& client.link.log()[1] is Sent
                &&& client.link.log()[1]->request matches Request::InitDb {
                    frecency_db_path: frecency,
                    history_db_path: history,
                    use_unsafe_no_lock: no_lock,
                }
                &&& frecency@ == db.frecency_db_path@
                &&& history@ == db.history_db_path@
                &&& no_lock == db.use_unsafe_no_lock
                &&& client.db is Some
                &&& client.db->0.frecency_db_path@ == db.frecency_db_path@
                &&& client.db->0.history_db_path@ == db.history_db_path@
            }
            &&& bridge.pending is None ==> client.link.log().len() == 2
        },
        res is Err ==> after.client is None && after.pending == bridge.pending,
{
}

/// A script needs a first connection where there is no client, another one where the client has
/// lost its own, and none otherwise.
pub proof fn connections_are_asked_for<
    S: Fn(&Request) -> Result<Response, ClientError>,
    D: Fn(&Response) -> String,
>(bridge: LuaBridge<S, D>)
    ensures
        bridge.need() is First <==> bridge.client is None,
        bridge.need() is Another <==> bridge.client is Some && bridge.client->0.lost,
        bridge.need() is Nothing <==> bridge.client is Some && !bridge.client->0.lost,
{
}

/// Where there is no connection to be had, nothing changes, and the script is told why, be it for
/// the first connection or for another one.
pub proof fn missing_connections_change_nothing<
    S: Fn(&Request) -> Result<Response, ClientError>,
    D: Fn(&Response) -> String,
>(
    bridge: LuaBridge<S, D>,
    first: LuaBridge<S, D>,
    again: LuaBridge<S, D>,
    base_path: Seq<char>,
    watch_git_events: Option<bool>,
    error: ClientError,
    first_res: Result<bool, String>,
    again_res: Result<(), String>,
)
    requires
        bridge.client is None ==> bridge.init_file_picker_done(
            first,
            base_path,
            watch_git_events,
            Some(Err(error)),
            first_res,
        ),
        bridge.reconnect_done(again, Err(error), again_res),
    ensures
        bridge.client is None ==> first == bridge && (first_res matches Err(message)
            && "failed to connect to daemon: "@.is_prefix_of(message@)),
        again == bridge,
        again_res matches Err(message) && "failed to connect to daemon: "@.is_prefix_of(message@),
{
}

/// After a successful change to another connection the client works on as before: on the same
/// directory, with the same databases, and it needs no further connection.
pub proof fn scripts_go_on_after_a_loss<
    S: Fn(&Request) -> Result<Response, ClientError>,
    D: Fn(&Response) -> String,
>(
    bridge: LuaBridge<S, D>,
    after: LuaBridge<S, D>,
    exchange: S,
    res: Result<(), String>,
)
    requires
        bridge.client is Some,
        bridge.reconnect_done(after, Ok(exchange), res),
        res is Ok,
    ensures
        after.client is Some,
        after.client->0.base_path@ == bridge.client->0.base_path@,
        after.client->0.db == bridge.client->0.db,
        after.client->0.uses == bridge.client->0.uses,
        after.client->0.link.exchange() == exchange,
        !after.client->0.lost,
        after.pending == bridge.pending,
{
}

} // verus!
