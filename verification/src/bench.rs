//! What the comparison of the two ways to match paths decides: which queries are run, what
//! the directory is called, and whether both ways agree on the best match.

use crate::text::{decimal_text, prefixed};
use vstd::prelude::*;
use vstd::string::*;
use vstd::utf8::*;

verus! {

/// How often every way is run before it is timed.
pub const WARMUP_RUNS: usize = 5;

/// How often every way is run while it is timed.
pub const TIMED_RUNS: usize = 200;

/// How many characters of a query may be missing from a path.
pub const MAX_TYPOS: u16 = 2;

/// How many threads may be asked for.
pub const MAX_THREADS: usize = 4096;

/// How many bytes a query may have: the score of a longer one could overflow.
pub const MAX_QUERY_BYTES: usize = 3275;

/// Up to how many bytes a path is aligned with the query in full.
pub const MAX_ALIGNED_BYTES: usize = 512;

/// How many bytes a path may have.
pub const MAX_PATH_BYTES: usize = 65000;

/// What is searched for where nothing is named.
pub open spec fn default_query() -> Seq<char> {
    "controller"@
}

/// What is searched for where several queries are wanted.
pub open spec fn several_queries() -> Seq<Seq<char>> {
    seq![
        "controller"@,
        "component"@,
        "Button"@,
        "index"@,
        "main"@,
        "server"@,
        "util"@,
        "test"@,
    ]
}

/// The texts of a list.
pub open spec fn texts_of(list: Seq<String>) -> Seq<Seq<char>> {
    list.map_values(|text: String| text@)
}

/// What the arguments ask for.
#[derive(Debug)]
pub struct Plan {
    pub repo_path: String,
    pub query: String,
}

/// `res` is what the arguments ask for.
pub open spec fn planned(args: Seq<String>, res: Option<Plan>) -> bool {
    match res {
        Some(plan) => {
            &&& args.len() >= 2
            &&& plan.repo_path@ == args[1]@
            &&& plan.query@ == (if args.len() > 2 {
                args[2]@
            } else {
                default_query()
            })
        },
        None => args.len() < 2,
    }
}

/// What the arguments ask for, the first of which is the program: a directory, and a query
/// where one is given. Without a directory there is nothing to do.
pub fn plan(args: &Vec<String>) -> (res: Option<Plan>)
    ensures
        planned(args@, res),
{
    if args.len() < 2 {
        return None;
    }
    let query = if args.len() > 2 {
        args[2].clone()
    } else {
        "controller".to_owned()
    };
    Some(Plan { repo_path: args[1].clone(), query })
}

/// The queries that are run for one that is named.
pub open spec fn queries_for(query: Seq<char>) -> Seq<Seq<char>> {
    if query == "multi"@ {
        several_queries()
    } else {
        seq![query]
    }
}

/// The queries that are run: several for `multi`, and otherwise the one that is named.
pub fn queries(query: &String) -> (res: Vec<String>)
    ensures
        texts_of(res@) == queries_for(query@),
{
    let mut res: Vec<String> = Vec::new();
    if *query == "multi".to_owned() {
        res.push("controller".to_owned());
        res.push("component".to_owned());
        res.push("Button".to_owned());
        res.push("index".to_owned());
        res.push("main".to_owned());
        res.push("server".to_owned());
        res.push("util".to_owned());
        res.push("test".to_owned());
        assert(texts_of(res@) =~= several_queries());
    } else {
        res.push(query.clone());
        assert(texts_of(res@) =~= seq![query@]);
    }
    res
}

/// What stands behind the last slash.
pub open spec fn last_piece(path: Seq<char>) -> Seq<char>
    decreases path.len(),
{
    if path.len() == 0 || path.last() == '/' {
        Seq::empty()
    } else {
        last_piece(path.drop_last()).push(path.last())
    }
}

/// What the directory is called.
pub fn repo_name(path: &str) -> (res: String)
    ensures
        res@ == last_piece(path@),
{
    let len: usize = path.unicode_len();
    let mut start: usize = 0;
    let mut i: usize = 0;
    assert(path@.take(0) =~= Seq::<char>::empty());
    assert(path@.subrange(0, 0) =~= Seq::<char>::empty());
    while i < len
        invariant
            start <= i <= len,
            len == path@.len(),
            path@.subrange(start as int, i as int) == last_piece(path@.take(i as int)),
        decreases len - i,
    {
        assert(path@.take(i + 1).drop_last() =~= path@.take(i as int));
        if path.get_char(i) == '/' {
            start = i + 1;
            assert(path@.subrange(start as int, i + 1) =~= Seq::<char>::empty());
        } else {
            assert(path@.subrange(start as int, i + 1) =~= path@.subrange(
                start as int,
                i as int,
            ).push(path@[i as int]));
        }
        i += 1;
    }
    assert(path@.take(len as int) =~= path@);
    path.substring_char(start, len).to_owned()
}

/// A path that matches: which one, and how well.
#[derive(Debug, Clone, Copy, PartialEq, Eq, Structural)]
pub struct Hit {
    pub index: u32,
    pub score: u16,
}

/// Whether `a` is the better match: it has the higher score, or comes first.
pub open spec fn better(a: Hit, b: Hit) -> bool {
    a.score > b.score || (a.score == b.score && a.index < b.index)
}

/// `hits` are matches among `count` paths, no path twice, the best one first where they are
/// sorted.
pub open spec fn ranked(hits: Seq<Hit>, count: nat, sorted: bool) -> bool {
    &&& forall|k: int| 0 <= k < hits.len() ==> (#[trigger] hits[k]).index < count
    &&& forall|a: int, b: int|
        0 <= a < b < hits.len() ==> (#[trigger] hits[a]).index != (#[trigger] hits[b]).index
    &&& sorted ==> forall|a: int, b: int|
        0 <= a < b < hits.len() ==> better(#[trigger] hits[a], #[trigger] hits[b])
}

/// How many bytes a text has.
pub open spec fn byte_count(text: Seq<char>) -> nat {
    encode_utf8(text).len()
}

/// Whether the path can be held against the query: an empty path only where the query is
/// longer than the typos that it may have, and a path too long for a full alignment only
/// where it is no shorter than the query, or shorter by more than these typos.
pub open spec fn comparable(query: Seq<char>, path: Seq<char>, max_typos: u16) -> bool {
    &&& byte_count(path) > 0 || byte_count(query) > max_typos
    &&& byte_count(path) <= MAX_ALIGNED_BYTES || byte_count(path) >= byte_count(query)
        || byte_count(path) + max_typos < byte_count(query)
    &&& byte_count(path) <= MAX_PATH_BYTES
}

/// Whether the query can be held against all of the paths.
pub open spec fn matchable(query: Seq<char>, paths: Seq<Seq<char>>, max_typos: u16) -> bool {
    &&& byte_count(query) <= MAX_QUERY_BYTES
    &&& paths.len() < u32::MAX
    &&& query.len() > 0 ==> forall|k: int|
        0 <= k < paths.len() ==> comparable(query, #[trigger] paths[k], max_typos)
}

/// Every one of `count` paths, with no score.
pub open spec fn all_hits(count: nat) -> Seq<Hit> {
    Seq::new(count, |k: int| Hit { index: k as u32, score: 0 })
}

/// What `neo_frizbee::match_list_parallel` gives, sorted, for the query among the paths, with
/// so many typos and threads.
pub uninterp spec fn frizbee_matches(
    query: Seq<char>,
    paths: Seq<Seq<char>>,
    max_typos: u16,
    threads: usize,
) -> Seq<Hit>;

/// Calls `neo_frizbee::match_list_parallel`, and takes the index and the score of every
/// match. The contract says that every match is one of the paths, that no path matches
/// twice, and that the matches come by falling score and, of equal scores, in the order of
/// the paths where sorting is asked for. An empty query matches every path, in order and
/// without a score. For a query without the character NUL, the sorted matches are a function
/// of the arguments, the same on every machine; which paths match, and how well, is left
/// unsaid beyond that. The contract asks for one or two typos: without a typo the function
/// may panic on paths that are `matchable` too, as it does on those that are not. It also
/// panics on more threads than it can start. The bound on them keeps its list of threads
/// small; whether the system starts so many cannot be known before the call.
#[verifier::external_body]
fn match_list_parallel(
    query: &str,
    paths: &Vec<String>,
    max_typos: u16,
    sort: bool,
    threads: usize,
) -> (res: Vec<Hit>)
    requires
        matchable(query@, texts_of(paths@), max_typos),
        0 < max_typos < 3,
        threads <= MAX_THREADS,
    ensures
        ranked(res@, paths@.len(), sort),
        query@.len() == 0 ==> res@ == all_hits(paths@.len()),
        sort && !query@.contains('\0') ==> res@ == frizbee_matches(
            query@,
            texts_of(paths@),
            max_typos,
            threads,
        ),
{
    let config = neo_frizbee::Config { max_typos: Some(max_typos), sort, ..Default::default() };
    neo_frizbee::match_list_parallel(query, paths, &config, threads)
        .into_iter()
        .map(|m| Hit { index: m.index, score: m.score })
        .collect()
}

/// Whether the query can be held against all of the paths.
pub fn can_match(query: &str, paths: &Vec<String>) -> (res: bool)
    ensures
        res == matchable(query@, texts_of(paths@), MAX_TYPOS),
{
    let query_len: usize = query.as_bytes().len();
    if query_len > MAX_QUERY_BYTES || paths.len() >= 4294967295 {
        return false;
    }
    proof {
        lemma_no_bytes(query@);
    }
    if query_len == 0 {
        return true;
    }
    let mut i: usize = 0;
    while i < paths.len()
        invariant
            i <= paths@.len(),
            query_len == byte_count(query@),
            query@.len() > 0,
            forall|k: int|
                0 <= k < i ==> comparable(query@, #[trigger] texts_of(paths@)[k], MAX_TYPOS),
        decreases paths@.len() - i,
    {
        let len: usize = paths[i].as_str().as_bytes().len();
        assert(texts_of(paths@)[i as int] == paths@[i as int]@);
        if len > MAX_PATH_BYTES || (len == 0 && query_len <= MAX_TYPOS as usize) || (len
            > MAX_ALIGNED_BYTES && len < query_len && len + MAX_TYPOS as usize >= query_len) {
            return false;
        }
        i += 1;
    }
    true
}

/// A text without bytes is empty.
proof fn lemma_no_bytes(text: Seq<char>)
    ensures
        byte_count(text) == 0 <==> text.len() == 0,
{
    reveal_with_fuel(encode_utf8, 2);
}

/// The paths that match the query, the best one first.
pub fn contiguous_matches(query: &str, paths: &Vec<String>, threads: usize) -> (res: Vec<Hit>)
    requires
        matchable(query@, texts_of(paths@), MAX_TYPOS),
        threads <= MAX_THREADS,
    ensures
        ranked(res@, paths@.len(), true),
        query@.len() == 0 ==> res@ == all_hits(paths@.len()),
        !query@.contains('\0') ==> res@ == frizbee_matches(
            query@,
            texts_of(paths@),
            MAX_TYPOS,
            threads,
        ),
{
    match_list_parallel(query, paths, MAX_TYPOS, true, threads)
}

/// The best matches of the two ways, where each has one.
#[derive(Debug, Clone, Copy, PartialEq, Eq, Structural)]
pub struct Tops {
    pub contiguous: Hit,
    pub chunked: Hit,
}

/// The best matches of the two ways, where each has one.
pub open spec fn best_of(contiguous: Seq<Hit>, chunked: Seq<Hit>) -> Option<Tops> {
    if contiguous.len() > 0 && chunked.len() > 0 {
        Some(Tops { contiguous: contiguous[0], chunked: chunked[0] })
    } else {
        None
    }
}

/// The best matches of the two ways, where each has one.
pub fn tops(contiguous: &Vec<Hit>, chunked: &Vec<Hit>) -> (res: Option<Tops>)
    ensures
        res == best_of(contiguous@, chunked@),
{
    if contiguous.len() > 0 && chunked.len() > 0 {
        Some(Tops { contiguous: contiguous[0], chunked: chunked[0] })
    } else {
        None
    }
}

/// A match as it is reported.
pub open spec fn hit_text(hit: Hit) -> Seq<char> {
    "idx="@ + crate::text::decimal(hit.index as nat) + ", score="@ + crate::text::decimal(
        hit.score as nat,
    )
}

/// Writes a match as it is reported.
fn report_hit(hit: Hit) -> (res: String)
    ensures
        res@ == hit_text(hit),
{
    let index = decimal_text(hit.index as u64);
    let score = decimal_text(hit.score as u64);
    prefixed("idx=", index.as_str()).concat(", score=").concat(score.as_str())
}

/// What is reported of the best matches.
pub open spec fn parity_text(tops: Tops) -> Seq<char> {
    if tops.contiguous == tops.chunked {
        "  Parity:     OK (top match: "@ + hit_text(tops.contiguous) + ")"@
    } else {
        "  Parity:     MISMATCH! seg=("@ + hit_text(tops.contiguous) + ") chunk=("@ + hit_text(
            tops.chunked,
        ) + ")"@
    }
}

/// What is reported of the best matches: that both ways agree on the path and on its score,
/// or what each of them found.
pub fn parity_line(tops: Tops) -> (res: String)
    ensures
        res@ == parity_text(tops),
{
    let contiguous = report_hit(tops.contiguous);
    if tops.contiguous.score == tops.chunked.score && tops.contiguous.index == tops.chunked.index {
        prefixed("  Parity:     OK (top match: ", contiguous.as_str()).concat(")")
    } else {
        let chunked = report_hit(tops.chunked);
        let line = prefixed("  Parity:     MISMATCH! seg=(", contiguous.as_str());
        line.concat(") chunk=(").concat(chunked.as_str()).concat(")")
    }
}

/// The best match of a ranking is better than every other one.
pub proof fn first_hit_is_best(hits: Seq<Hit>, count: nat, k: int)
    requires
        ranked(hits, count, true),
        0 < k < hits.len(),
    ensures
        better(hits[0], hits[k]),
{
}

} // verus!
