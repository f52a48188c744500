//! What the daemon asks of the search engine for every request, and what the engine's word means
//! for the answer.

use crate::handler::{
    access, handled, named_paths, next_state, open_finished, replies, Action, EngineCall,
    EngineOutcome, GrepMode, Joined, Locked, Purpose,
};
use crate::laws::calls::text_of;
use crate::laws::pages::{found_files_arrive, same_file, same_place, same_score};
use crate::path::FsPath;
use crate::protocol::{GrepModeWire, Request, Response, ScanProgressWire};
use crate::state::{Client, OpenPlan, StateModel};
use vstd::prelude::*;
use vstd::string::*;

verus! {

/// The directory of a request is indexed, and the request came to this call on its handles.
pub open spec fn asks<H: Clone, F: Fn(&H) -> Option<ScanProgressWire>>(
    call: EngineCall,
    handles: H,
    before: StateModel<H>,
    request: Request,
    resolved: Seq<Result<FsPath, String>>,
    client: Client,
    now: u128,
    version: Seq<char>,
    probe: F,
) -> bool {
    &&& resolved.len() == 1
    &&& resolved[0] matches Ok(at)
    &&& before.dirs.contains_key(at@)
    &&& handled(
        Action::Engine { handles, call },
        before,
        request,
        resolved,
        client,
        now,
        version,
        probe,
    )
}

/// The engine reads a content query as the request wants it read.
pub open spec fn same_mode(asked: GrepMode, wanted: GrepModeWire) -> bool {
    &&& asked is PlainText <==> wanted is PlainText
    &&& asked is Regex <==> wanted is Regex
    &&& asked is Fuzzy <==> wanted is Fuzzy
}

/// Every call to the engine comes of the request for just that, with the arguments of the
/// request and the handles of the directory that the request names.
pub proof fn every_call_has_its_request<H: Clone, F: Fn(&H) -> Option<ScanProgressWire>>(
    call: EngineCall,
    handles: H,
    before: StateModel<H>,
    request: Request,
    resolved: Seq<Result<FsPath, String>>,
    client: Client,
    now: u128,
    version: Seq<char>,
    probe: F,
)
    requires
        asks(call, handles, before, request, resolved, client, now, version, probe),
    ensures
        cloned(before.dirs[resolved[0]->Ok_0@].handles, handles),
        match call {
            EngineCall::WaitForScan { timeout_ms } => request matches Request::WaitForScan {
                timeout_ms: wanted,
                ..
            } && timeout_ms == wanted,
            EngineCall::ScanProgress => request is GetScanProgress,
            EngineCall::IsScanning => request is IsScanning,
            EngineCall::FuzzySearch { query, options } => {
                &&& request matches Request::FuzzySearch {
                    query: wanted,
                    max_threads,
                    current_file,
                    combo_boost_score_multiplier,
                    min_combo_count,
                    page_index,
                    page_size,
                    ..
                }
                &&& query@ == wanted@
                &&& options.max_threads == max_threads
                &&& text_of(options.current_file) == text_of(current_file)
                &&& options.combo_boost_score_multiplier == combo_boost_score_multiplier
                &&& options.min_combo_count == min_combo_count
                &&& options.offset == page_index
                &&& options.limit == page_size
            },
            EngineCall::Grep { query, options } => {
                &&& request matches Request::GrepSearch {
                    query: wanted,
                    file_offset,
                    page_size,
                    max_file_size,
                    max_matches_per_file,
                    smart_case,
                    grep_mode,
                    time_budget_ms,
                    trim_whitespace,
                    ..
                }
                &&& query@ == wanted@
                &&& options.file_offset == file_offset
                &&& options.page_limit == page_size
                &&& options.max_file_size == max_file_size
                &&& options.max_matches_per_file == max_matches_per_file
                &&& options.smart_case == smart_case
                &&& same_mode(options.mode, grep_mode)
                &&& options.time_budget_ms == time_budget_ms
                &&& options.trim_whitespace == trim_whitespace
            },
            EngineCall::TrackAccess { file_path } => request matches Request::TrackAccess {
                file_path: wanted,
                ..
            } && file_path@ == wanted@,
            EngineCall::UpdateFrecency {
                file_path,
            } => request matches Request::UpdateSingleFileFrecency { file_path: wanted, .. }
                && file_path@ == wanted@,
            EngineCall::TrackQuery {
                query,
                file_path,
            } => request matches Request::TrackQueryCompletion {
                query: wanted,
                file_path: wanted_path,
                ..
            } && query@ == wanted@ && file_path@ == wanted_path@,
            EngineCall::TrackGrepQuery { query } => request matches Request::TrackGrepQuery {
                query: wanted,
                ..
            } && query@ == wanted@,
            EngineCall::PastQuery { offset } => request matches Request::GetHistoricalQuery {
                offset: wanted,
                ..
            } && offset == wanted,
            EngineCall::PastGrepQuery {
                offset,
            } => request matches Request::GetHistoricalGrepQuery { offset: wanted, .. } && offset
                == wanted,
            EngineCall::RefreshGitStatus => request is RefreshGitStatus,
            EngineCall::GitRoot => request is GetGitRoot,
            EngineCall::BasePath => request is GetBasePath,
            EngineCall::Rescan => request is TriggerRescan,
            EngineCall::StopMonitor => request is StopBackgroundMonitor,
            EngineCall::Health { path } => request matches Request::HealthCheck { path: wanted }
                && path@ == wanted@,
        },
{
}

/// Every question about an indexed directory is put to the engine, and is not answered without
/// it.
pub proof fn every_question_reaches_the_engine<H: Clone, F: Fn(&H) -> Option<ScanProgressWire>>(
    action: Action<H>,
    before: StateModel<H>,
    request: Request,
    resolved: Seq<Result<FsPath, String>>,
    client: Client,
    now: u128,
    version: Seq<char>,
    probe: F,
)
    requires
        handled(action, before, request, resolved, client, now, version, probe),
        resolved.len() == 1,
        resolved[0] is Ok,
        before.dirs.contains_key(resolved[0]->Ok_0@),
        !(request is IndexDirectory || request is DropDirectory || request is CleanupFilePicker
            || request is RestartIndex),
        resolved.len() == named_paths(request).len(),
    ensures
        action is Engine,
{
}

/// A question about a directory that is not indexed, or whose path leads nowhere, does not reach
/// the engine. The answer says so, with the path or with the reason.
pub proof fn unknown_directories_are_refused<H: Clone, F: Fn(&H) -> Option<ScanProgressWire>>(
    action: Action<H>,
    before: StateModel<H>,
    request: Request,
    resolved: Seq<Result<FsPath, String>>,
    client: Client,
    now: u128,
    version: Seq<char>,
    probe: F,
)
    requires
        handled(action, before, request, resolved, client, now, version, probe),
        resolved.len() == 1,
        resolved[0] matches Ok(at) ==> !before.dirs.contains_key(at@),
        !(request is IndexDirectory || request is DropDirectory || request is CleanupFilePicker
            || request is HealthCheck),
        resolved.len() == named_paths(request).len(),
    ensures
        action matches Action::Reply(Response::Error(message)) && message@ == match resolved[0] {
            Ok(_) => "directory not indexed: "@ + crate::path::lossy_text(
                named_paths(request)[0]@,
            ),
            Err(reason) => "failed to canonicalize path: "@ + reason@,
        },
{
}

/// The daemon looks up the directory that a request names, and no other. To move, it looks up
/// the old directory and the new one.
pub proof fn requests_name_their_directory(request: Request)
    ensures
        match request {
            Request::IndexDirectory { path, .. }
            | Request::DropDirectory { path }
            | Request::WaitForScan { path, .. }
            | Request::GetScanProgress { path }
            | Request::IsScanning { path }
            | Request::FuzzySearch { path, .. }
            | Request::GrepSearch { path, .. }
            | Request::TrackAccess { path, .. }
            | Request::UpdateSingleFileFrecency { path, .. }
            | Request::TrackQueryCompletion { path, .. }
            | Request::TrackGrepQuery { path, .. }
            | Request::GetHistoricalQuery { path, .. }
            | Request::GetHistoricalGrepQuery { path, .. }
            | Request::RefreshGitStatus { path }
            | Request::GetGitRoot { path }
            | Request::GetBasePath { path }
            | Request::TriggerRescan { path }
            | Request::StopBackgroundMonitor { path }
            | Request::CleanupFilePicker { path }
            | Request::HealthCheck { path } => named_paths(request).len() == 1 && named_paths(
                request,
            )[0]@ == path@,
            Request::RestartIndex { path, new_path } => {
                &&& named_paths(request).len() == 3
                &&& named_paths(request)[0]@ == path@
                &&& named_paths(request)[1]@ == path@
                &&& named_paths(request)[2]@ == new_path@
            },
            _ => named_paths(request).len() == 0,
        },
{
}

/// Requests that ask the same of the engine are requests of the same kind: nothing that is asked
/// for one of them stands in for another.
pub proof fn different_requests_ask_for_different_things<
    H: Clone,
    F: Fn(&H) -> Option<ScanProgressWire>,
>(
    call: EngineCall,
    a: Request,
    b: Request,
    handles_a: H,
    handles_b: H,
    before: StateModel<H>,
    resolved_a: Seq<Result<FsPath, String>>,
    resolved_b: Seq<Result<FsPath, String>>,
    client: Client,
    now: u128,
    version: Seq<char>,
    probe: F,
)
    requires
        asks(call, handles_a, before, a, resolved_a, client, now, version, probe),
        asks(call, handles_b, before, b, resolved_b, client, now, version, probe),
    ensures
        a is WaitForScan <==> b is WaitForScan,
        a is GetScanProgress <==> b is GetScanProgress,
        a is IsScanning <==> b is IsScanning,
        a is FuzzySearch <==> b is FuzzySearch,
        a is GrepSearch <==> b is GrepSearch,
        a is TrackAccess <==> b is TrackAccess,
        a is UpdateSingleFileFrecency <==> b is UpdateSingleFileFrecency,
        a is TrackQueryCompletion <==> b is TrackQueryCompletion,
        a is TrackGrepQuery <==> b is TrackGrepQuery,
        a is GetHistoricalQuery <==> b is GetHistoricalQuery,
        a is GetHistoricalGrepQuery <==> b is GetHistoricalGrepQuery,
        a is RefreshGitStatus <==> b is RefreshGitStatus,
        a is GetGitRoot <==> b is GetGitRoot,
        a is GetBasePath <==> b is GetBasePath,
        a is TriggerRescan <==> b is TriggerRescan,
        a is StopBackgroundMonitor <==> b is StopBackgroundMonitor,
        a is HealthCheck <==> b is HealthCheck,
        (a, b) matches (
            Request::GrepSearch { grep_mode: first, .. },
            Request::GrepSearch { grep_mode: second, .. },
        ) ==> first == second,
{
    every_call_has_its_request(
        call,
        handles_a,
        before,
        a,
        resolved_a,
        client,
        now,
        version,
        probe,
    );
    every_call_has_its_request(
        call,
        handles_b,
        before,
        b,
        resolved_b,
        client,
        now,
        version,
        probe,
    );
}

/// A request to leave a directory or to drop it is answered with whether the directory is indexed.
pub proof fn leaving_is_answered<H: Clone, F: Fn(&H) -> Option<ScanProgressWire>>(
    action: Action<H>,
    before: StateModel<H>,
    request: Request,
    resolved: Seq<Result<FsPath, String>>,
    client: Client,
    now: u128,
    version: Seq<char>,
    probe: F,
)
    requires
        handled(action, before, request, resolved, client, now, version, probe),
        request is CleanupFilePicker || request is DropDirectory,
        resolved.len() == 1,
    ensures
        action matches Action::Reply(Response::Bool(done)) && (done <==> (resolved[0] is Ok
            && before.dirs.contains_key(resolved[0]->Ok_0@))),
{
}

/// Where a request makes the engine open a directory, the plan is for the directory that the
/// request names and for the client that asks. It watches git events as the request says, and
/// always after a move.
pub proof fn opened_directories_are_those_asked_for<
    H: Clone,
    F: Fn(&H) -> Option<ScanProgressWire>,
>(
    plan: OpenPlan,
    purpose: Purpose,
    before: StateModel<H>,
    request: Request,
    resolved: Seq<Result<FsPath, String>>,
    client: Client,
    now: u128,
    version: Seq<char>,
    probe: F,
)
    requires
        resolved.len() == named_paths(request).len(),
        handled(
            Action::Open { plan, purpose },
            before,
            request,
            resolved,
            client,
            now,
            version,
            probe,
        ),
    ensures
        plan.client == client,
        plan.db_unsafe_no_lock == before.settings.db_unsafe_no_lock,
        match request {
            Request::IndexDirectory { watch_git_events, .. } => {
                &&& purpose is Index
                &&& plan.watch_git_events == watch_git_events
                &&& resolved[0] is Ok
                &&& plan.path@ == resolved[0]->Ok_0@
                &&& !before.dirs.contains_key(plan.path@)
            },
            Request::RestartIndex { .. } => {
                &&& purpose is Restart
                &&& plan.watch_git_events
                &&& resolved[2] is Ok
                &&& plan.path@ == resolved[2]->Ok_0@
                &&& !before.dirs.contains_key(plan.path@)
            },
            _ => false,
        },
{
    if request is RestartIndex {
        let mid = before.used(resolved[0], now).released(resolved[1], client);
        assert(mid.dirs.dom() =~= before.dirs.dom());
    }
}

/// Once the engine has opened a directory it is indexed with the engine's handles and used by the
/// client of the plan, and the request is granted. Where the engine fails nothing changes, and the
/// answer says why.
pub proof fn opening_is_answered<H>(
    before: StateModel<H>,
    after: StateModel<H>,
    plan: OpenPlan,
    purpose: Purpose,
    opened: Result<H, String>,
    now: u128,
    response: Response,
)
    requires
        open_finished(before, after, plan, purpose, opened, now, response),
    ensures
        opened matches Ok(handles) ==> {
            &&& match purpose {
                Purpose::Index => response == Response::Bool(true),
                Purpose::Restart => response is Done,
            }
            &&& after.dirs.contains_key(plan.path@)
            &&& after.dirs[plan.path@].handles == handles
            &&& after.dirs[plan.path@].clients.contains_key(plan.client.connection)
            &&& after.lru.last() == plan.path@
        },
        opened matches Err(reason) ==> after == before && refuses_with(
            response,
            "failed to init file picker: "@ + reason@,
        ),
{
}

/// Only requests that may change the state need it for themselves, and those that need nothing of
/// it name no directory.
pub proof fn requests_need_what_they_use<H>(
    before: StateModel<H>,
    request: Request,
    resolved: Seq<Result<FsPath, String>>,
    client: Client,
    now: u128,
)
    ensures
        !(access(request) is Exclusive) ==> next_state(before, request, resolved, client, now)
            == before,
        access(request) is Nothing ==> named_paths(request).len() == 0 && !(request
            is ListDirectories),
        request is IndexDirectory || request is DropDirectory || request is RestartIndex || request
            is CleanupFilePicker || request is InitDb ==> access(request) is Exclusive,
{
}

/// Requests that need no directory are answered for what they are: a ping with a pong, a query to
/// be parsed as it is written, and the databases are never destroyed.
pub proof fn requests_without_a_directory<H: Clone, F: Fn(&H) -> Option<ScanProgressWire>>(
    action: Action<H>,
    before: StateModel<H>,
    request: Request,
    resolved: Seq<Result<FsPath, String>>,
    client: Client,
    now: u128,
    version: Seq<char>,
    probe: F,
)
    requires
        handled(action, before, request, resolved, client, now, version, probe),
    ensures
        request is Ping ==> action matches Action::Reply(Response::Pong),
        request is Shutdown ==> action matches Action::Reply(Response::Done),
        request is InitDb ==> action matches Action::Reply(Response::Bool(true)),
        request is ListDirectories ==> (action matches Action::Reply(Response::Directories(infos))
            && crate::state::lists(infos@, before.dirs, probe)),
        request is DestroyFrecencyDb || request is DestroyQueryDb ==> (action matches Action::Reply(
            Response::Error(message),
        ) && "not supported in daemon mode"@.is_prefix_of(message@)),
        request matches Request::ParseGrepQuery { query } ==> action matches Action::ParseGrep {
            query: asked,
        } && asked@ == query@,
{
    if request is DestroyFrecencyDb || request is DestroyQueryDb {
        let whole =
            "not supported in daemon mode — manage DB lifecycle via the daemon's directory management"@;
        let start = "not supported in daemon mode"@;
        reveal_strlit("not supported in daemon mode");
        reveal_strlit(
            "not supported in daemon mode — manage DB lifecycle via the daemon's directory management",
        );
        assert(start =~= whole.subrange(0, start.len() as int));
    }
}

/// `response` refuses the request with these words.
pub open spec fn refuses_with(response: Response, words: Seq<char>) -> bool {
    response matches Response::Error(message) && message@ == words
}

/// `response` is a text that may be missing: this one.
pub open spec fn tells(response: Response, text: Option<Seq<char>>) -> bool {
    response matches Response::OptionalString(given) && text_of(given) == text
}

/// The engine's word is passed on: a number, a flag, a text or a scan as it is, and an error with
/// its words. What the engine does not have yet is no scan, no text, or an error.
pub proof fn the_engines_word_is_passed_on(
    response: Response,
    outcome: EngineOutcome,
    version: Seq<char>,
    libgit2: (u32, u32, u32),
)
    requires
        replies(response, outcome, version, libgit2),
    ensures
        outcome matches EngineOutcome::WaitForScan(completed) ==> response matches Response::Bool(
            told,
        ) && told == completed,
        outcome matches EngineOutcome::ScanProgress(Locked::Held(progress))
            ==> response matches Response::ScanProgress(told) && told.scanned_files_count
            == progress.scanned_files_count && told.is_scanning == progress.is_scanning,
        outcome matches EngineOutcome::ScanProgress(Locked::Missing) ==> refuses_with(
            response,
            "picker not initialized"@,
        ),
        outcome matches EngineOutcome::ScanProgress(Locked::Failed(reason)) ==> refuses_with(
            response,
            reason@,
        ),
        outcome matches EngineOutcome::IsScanning(Locked::Held(scanning))
            ==> response matches Response::Bool(told) && told == scanning,
        outcome matches EngineOutcome::IsScanning(Locked::Missing)
            ==> response matches Response::Bool(told) && !told,
        outcome matches EngineOutcome::IsScanning(Locked::Failed(reason)) ==> refuses_with(
            response,
            reason@,
        ),
        outcome is Noted ==> response == Response::Bool(true),
        outcome matches EngineOutcome::PastQuery(
            Joined::Finished(Locked::Held(Locked::Held(Ok(query)))),
        ) ==> tells(response, text_of(query)),
        outcome matches EngineOutcome::PastQuery(Joined::Finished(Locked::Held(Locked::Held(Err(_)))))
            ==> tells(response, None),
        outcome matches EngineOutcome::PastQuery(Joined::Finished(Locked::Missing)) ==> tells(
            response,
            None,
        ),
        outcome matches EngineOutcome::PastQuery(Joined::Broken(reason)) ==> refuses_with(
            response,
            reason@,
        ),
        outcome matches EngineOutcome::RefreshGitStatus(Joined::Finished(Ok(count)))
            ==> response matches Response::Usize(told) && told == count,
        outcome matches EngineOutcome::RefreshGitStatus(Joined::Finished(Err(reason)))
            ==> refuses_with(response, reason@),
        outcome matches EngineOutcome::RefreshGitStatus(Joined::Broken(reason)) ==> refuses_with(
            response,
            reason@,
        ),
        outcome matches EngineOutcome::GitRoot(Locked::Held(Some(root))) ==> tells(
            response,
            Some(crate::path::lossy_text(root@)),
        ),
        outcome matches EngineOutcome::GitRoot(Locked::Held(None)) ==> tells(response, None),
        outcome matches EngineOutcome::GitRoot(Locked::Missing) ==> tells(response, None),
        outcome matches EngineOutcome::BasePath(Locked::Held(base)) ==> tells(
            response,
            Some(crate::path::lossy_text(base@)),
        ),
        outcome matches EngineOutcome::BasePath(Locked::Missing) ==> tells(response, None),
        outcome matches EngineOutcome::Rescan(Joined::Finished(Ok(_))) ==> response is Done,
        outcome matches EngineOutcome::Rescan(Joined::Finished(Err(reason))) ==> refuses_with(
            response,
            reason@,
        ),
        outcome matches EngineOutcome::Rescan(Joined::Broken(reason)) ==> refuses_with(
            response,
            reason@,
        ),
        outcome matches EngineOutcome::StopMonitor(Joined::Finished(Ok(_)))
            ==> response matches Response::Bool(told) && told,
        outcome matches EngineOutcome::StopMonitor(Joined::Finished(Err(reason))) ==> refuses_with(
            response,
            reason@,
        ),
        outcome matches EngineOutcome::StopMonitor(Joined::Broken(reason)) ==> refuses_with(
            response,
            reason@,
        ),
        outcome matches EngineOutcome::ParseGrep { grep_text: text }
            ==> response matches Response::ParsedGrepQuery { grep_text: told } && told@ == text@,
{
}

/// A search of either kind is answered with what the engine found. Before the engine is ready, or
/// where it fails, the answer is an error with its words.
pub proof fn searches_are_answered(
    response: Response,
    outcome: EngineOutcome,
    version: Seq<char>,
    libgit2: (u32, u32, u32),
)
    requires
        replies(response, outcome, version, libgit2),
    ensures
        outcome matches EngineOutcome::FuzzySearch(Joined::Finished(Locked::Held(Ok(page)))) ==> {
            &&& response matches Response::SearchResult(sent)
            &&& sent.items@.len() == page.items@.len()
            &&& forall|k: int|
                0 <= k < page.items@.len() ==> same_file(#[trigger] sent.items@[k], page.items@[k])
            &&& sent.scores@.len() == page.scores@.len()
            &&& forall|k: int|
                0 <= k < page.scores@.len() ==> same_score(
                    #[trigger] sent.scores@[k],
                    page.scores@[k],
                )
            &&& sent.total_matched == page.total_matched
            &&& sent.total_files == page.total_files
            &&& page.location is Some ==> sent.location is Some && same_place(
                sent.location->0,
                page.location->0,
            )
        },
        outcome matches EngineOutcome::FuzzySearch(Joined::Finished(Locked::Held(Err(reason))))
            ==> refuses_with(response, reason@),
        outcome matches EngineOutcome::FuzzySearch(Joined::Finished(Locked::Missing))
            ==> refuses_with(response, "picker not initialized"@),
        outcome matches EngineOutcome::FuzzySearch(Joined::Finished(Locked::Failed(reason)))
            ==> refuses_with(response, reason@),
        outcome matches EngineOutcome::FuzzySearch(Joined::Broken(reason)) ==> refuses_with(
            response,
            "task join error: "@ + reason@,
        ),
        outcome matches EngineOutcome::Grep(Joined::Finished(Locked::Held(page))) ==> {
            &&& response matches Response::GrepResult(sent)
            &&& sent.items@.len() == page.matches@.len()
            &&& sent.total_matched == page.matches@.len()
            &&& sent.next_file_offset == page.next_file_offset
            &&& crate::convert::shows_grep(sent, page)
        },
        outcome matches EngineOutcome::Grep(Joined::Finished(Locked::Missing)) ==> refuses_with(
            response,
            "picker not initialized"@,
        ),
        outcome matches EngineOutcome::Grep(Joined::Finished(Locked::Failed(reason)))
            ==> refuses_with(response, reason@),
        outcome matches EngineOutcome::Grep(Joined::Broken(reason)) ==> refuses_with(
            response,
            "task join error: "@ + reason@,
        ),
{
    if let EngineOutcome::FuzzySearch(Joined::Finished(Locked::Held(Ok(page)))) = outcome {
        found_files_arrive(response->SearchResult_0, page);
    }
}

/// A health check of an indexed directory says which version runs, whether there is a repository
/// and where, and how far the index is; what is not there is left out.
pub proof fn health_is_told(
    response: Response,
    outcome: EngineOutcome,
    version: Seq<char>,
    libgit2: (u32, u32, u32),
)
    requires
        replies(response, outcome, version, libgit2),
        outcome is Health,
    ensures
        response matches Response::HealthCheck(health) && {
            &&& health.version@ == version
            &&& health.git_available
            &&& health.git_libgit2_version@ == crate::text::decimal(libgit2.0 as nat) + "."@
                + crate::text::decimal(libgit2.1 as nat) + "."@ + crate::text::decimal(
                libgit2.2 as nat,
            )
            &&& health.git_repository_found == (outcome->repository is Some)
            &&& outcome->repository matches Some(repository) ==> match repository.workdir {
                Some(dir) => health.git_workdir matches Some(told) && told@
                    == crate::path::lossy_text(dir@),
                None => health.git_workdir is None,
            }
            &&& outcome->repository is None ==> health.git_workdir is None
            &&& health.file_picker_initialized == (outcome->Health_picker is Held)
            &&& outcome->Health_picker matches Locked::Held(facts) ==> {
                &&& health.file_picker_base_path matches Some(told) && told@
                    == crate::path::lossy_text(facts.base_path@)
                &&& health.file_picker_is_scanning == Some(facts.progress.is_scanning)
                &&& health.file_picker_indexed_files == Some(facts.progress.scanned_files_count)
            }
            &&& !(outcome->Health_picker is Held) ==> health.file_picker_base_path is None
                && health.file_picker_is_scanning is None && health.file_picker_indexed_files
                is None
        },
{
}

/// A health check of a directory that is not indexed says which version runs and that nothing
/// else is known.
pub proof fn health_of_an_unknown_directory<H: Clone, F: Fn(&H) -> Option<ScanProgressWire>>(
    action: Action<H>,
    before: StateModel<H>,
    path: FsPath,
    resolved: Seq<Result<FsPath, String>>,
    client: Client,
    now: u128,
    version: Seq<char>,
    probe: F,
)
    requires
        handled(
            action,
            before,
            Request::HealthCheck { path },
            resolved,
            client,
            now,
            version,
            probe,
        ),
        resolved[0] matches Ok(at) ==> !before.dirs.contains_key(at@),
    ensures
        action matches Action::Reply(Response::HealthCheck(health)) && {
            &&& health.version@ == version
            &&& !health.git_available
            &&& !health.git_repository_found
            &&& health.git_libgit2_version@.len() == 0
            &&& health.git_workdir is None
            &&& !health.file_picker_initialized
            &&& health.file_picker_base_path is None
            &&& health.file_picker_is_scanning is None
            &&& health.file_picker_indexed_files is None
        },
{
}

} // verus!
