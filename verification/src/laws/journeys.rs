//! From the script to the search engine and back: what a script asks for is what the engine is
//! asked for, and what the engine finds is what the script reads.

use crate::client::{ClientError, FffClient};
use crate::convert::{shows_search, SearchPage};
use crate::handler::EngineCall;
use crate::laws::calls::{only_sent, track_access_says_what_it_is_told};
use crate::laws::engine::{asks, every_call_has_its_request};
use crate::laws::pages::{found_files_arrive, same_file};
use crate::laws::scripts::live_grep_for_scripts;
use crate::laws::tables::{files_show_their_fields, found_files_are_listed, has, item_is};
use crate::lua::LuaBridge;
use crate::path::FsPath;
use crate::protocol::{Request, Response, ScanProgressWire, SearchResultWire};
use crate::state::{Client, StateModel};
use crate::table::{file_table, search_table, Value, ValueModel};
use vstd::prelude::*;
use vstd::string::*;

verus! {

/// A file that a client notes as opened is what the engine is asked to record: an access to that
/// file, and not merely a new score.
pub proof fn opened_files_are_recorded<
    S: Fn(&Request) -> Result<Response, ClientError>,
    D: Fn(&Response) -> String,
    H: Clone,
    F: Fn(&H) -> Option<ScanProgressWire>,
>(
    client: FffClient<S, D>,
    after: FffClient<S, D>,
    file_path: Seq<char>,
    res: Result<bool, ClientError>,
    call: EngineCall,
    handles: H,
    before: StateModel<H>,
    resolved: Seq<Result<FsPath, String>>,
    who: Client,
    now: u128,
    version: Seq<char>,
    probe: F,
)
    requires
        client.track_access_done(after, file_path, res),
        asks(
            call,
            handles,
            before,
            after.link.log().last()->request,
            resolved,
            who,
            now,
            version,
            probe,
        ),
    ensures
        call matches EngineCall::TrackAccess { file_path: noted } && noted@ == file_path,
{
    track_access_says_what_it_is_told(client, after, file_path, res);
    every_call_has_its_request(
        call,
        handles,
        before,
        after.link.log().last()->request,
        resolved,
        who,
        now,
        version,
        probe,
    );
}

/// A script that greps for a pattern has the engine search for just that text, as a pattern exactly
/// where the script says `regex`, from the file and as far as the script says.
pub proof fn greps_reach_the_engine<
    S: Fn(&Request) -> Result<Response, ClientError>,
    D: Fn(&Response) -> String,
    H: Clone,
    F: Fn(&H) -> Option<ScanProgressWire>,
>(
    bridge: LuaBridge<S, D>,
    after: LuaBridge<S, D>,
    query: Seq<char>,
    file_offset: Option<usize>,
    page_size: Option<usize>,
    max_file_size: Option<u64>,
    max_matches_per_file: Option<usize>,
    smart_case: Option<bool>,
    grep_mode: Option<Seq<char>>,
    time_budget_ms: Option<u64>,
    trim_whitespace: Option<bool>,
    res: Result<Value, String>,
    call: EngineCall,
    handles: H,
    before: StateModel<H>,
    resolved: Seq<Result<FsPath, String>>,
    who: Client,
    now: u128,
    version: Seq<char>,
    probe: F,
)
    requires
        bridge.client is Some,
        bridge.live_grep_done(
            after,
            query,
            file_offset,
            page_size,
            max_file_size,
            max_matches_per_file,
            smart_case,
            grep_mode,
            time_budget_ms,
            trim_whitespace,
            res,
        ),
        asks(
            call,
            handles,
            before,
            after.client->0.link.log().last()->request,
            resolved,
            who,
            now,
            version,
            probe,
        ),
    ensures
        call matches EngineCall::Grep { query: searched, options } && {
            &&& searched@ == query
            &&& options.mode is Regex <==> grep_mode == Some("regex"@)
            &&& options.mode is Fuzzy <==> grep_mode == Some("fuzzy"@)
            &&& file_offset matches Some(wanted) ==> options.file_offset == wanted
            &&& page_size matches Some(wanted) ==> options.page_limit == wanted
        },
{
    live_grep_for_scripts(
        bridge,
        after,
        query,
        file_offset,
        page_size,
        max_file_size,
        max_matches_per_file,
        smart_case,
        grep_mode,
        time_budget_ms,
        trim_whitespace,
        res,
    );
    let (request, reply) = choose|request: Request, reply: Result<Response, ClientError>|
        only_sent(
            bridge.client->0.link.log(),
            after.client->0.link.log(),
            request,
            reply,
        );
    assert(after.client->0.link.log().last()->request == request);
    every_call_has_its_request(
        call,
        handles,
        before,
        request,
        resolved,
        who,
        now,
        version,
        probe,
    );
}

/// The files that the engine finds are the files that the script reads: in the same order, each
/// with its path below the directory, its name and its size.
pub proof fn found_files_reach_the_script(sent: SearchResultWire, page: SearchPage, k: int)
    requires
        shows_search(sent, page),
        0 <= k < page.items@.len(),
    ensures
        exists|items: ValueModel, item: ValueModel| {
            &&& #[trigger] has(search_table(sent), "items"@, items)
            &&& #[trigger] item_is(items, k, item)
            &&& has(item, "relative_path"@, ValueModel::Text(page.items@[k].relative_path@))
            &&& has(item, "name"@, ValueModel::Text(page.items@[k].name@))
            &&& has(item, "size"@, ValueModel::Number(page.items@[k].size as int))
        },
{
    found_files_arrive(sent, page);
    found_files_are_listed(sent);
    let items = choose|items: ValueModel| #[trigger]
        has(search_table(sent), "items"@, items) && forall|j: int|
            0 <= j < sent.items@.len() ==> item_is(
                items,
                j,
                file_table(#[trigger] sent.items@[j]),
            );
    let item = file_table(sent.items@[k]);
    assert(same_file(sent.items@[k], page.items@[k]));
    files_show_their_fields(sent.items@[k]);
    assert(item_is(items, k, item));
}

} // verus!
