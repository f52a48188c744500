//! What the comparison of the two ways to match paths runs and reports.

use crate::bench::{
    best_of, last_piece, parity_text, planned, queries_for, ranked, Hit, Plan, Tops,
};
use vstd::prelude::*;
use vstd::string::*;

verus! {

/// The first argument behind the program is the directory and the second one the query, for which
/// `controller` stands in.
pub proof fn arguments_are_taken_in_order(args: Seq<String>, res: Option<Plan>)
    requires
        planned(args, res),
    ensures
        res is Some <==> args.len() >= 2,
        args.len() >= 2 ==> res->0.repo_path@ == args[1]@,
        args.len() == 2 ==> res->0.query@ == "controller"@,
        args.len() > 2 ==> res->0.query@ == args[2]@,
{
}

/// A query other than `multi` is run alone and as it is; `multi` stands for eight.
pub proof fn queries_are_run_as_named(query: Seq<char>)
    ensures
        query != "multi"@ ==> queries_for(query).len() == 1 && queries_for(query)[0] == query,
        query == "multi"@ ==> queries_for(query).len() == 8,
        query == "multi"@ ==> queries_for(query).take(4) == seq![
            "controller"@,
            "component"@,
            "Button"@,
            "index"@,
        ],
        query == "multi"@ ==> queries_for(query).skip(4) == seq![
            "main"@,
            "server"@,
            "util"@,
            "test"@,
        ],
{
    if query == "multi"@ {
        assert(queries_for(query).take(4) =~= seq![
            "controller"@,
            "component"@,
            "Button"@,
            "index"@,
        ]);
        assert(queries_for(query).skip(4) =~= seq!["main"@, "server"@, "util"@, "test"@]);
    }
}

/// The name of a directory is what stands behind the last slash of its path.
pub proof fn names_stand_behind_the_last_slash(path: Seq<char>)
    ensures
        ({
            let name = last_piece(path);
            let start = path.len() - name.len();
            &&& 0 <= start
            &&& path.skip(start) == name
            &&& !name.contains('/')
            &&& start > 0 ==> path[start - 1] == '/'
        }),
    decreases path.len(),
{
    let name = last_piece(path);
    if path.len() == 0 {
        assert(path.skip(0) =~= name);
    } else if path.last() == '/' {
        assert(path.skip(path.len() as int) =~= name);
    } else {
        let front = path.drop_last();
        names_stand_behind_the_last_slash(front);
        let head = last_piece(front);
        let start = front.len() - head.len();
        assert(front.skip(start) == head);
        assert(path.skip(start) =~= head.push(path.last())) by {
            assert forall|k: int| 0 <= k < head.len() implies path.skip(start)[k] == head[k] by {
                assert(front.skip(start)[k] == front[start + k]);
            }
        }
        if name.contains('/') {
            let k = choose|k: int| 0 <= k < name.len() && name[k] == '/';
            assert(k < head.len());
            assert(head[k] == '/');
            assert(head.contains('/'));
        }
    }
}

/// A ranking goes by falling score and, of equal scores, by the order of the paths; every hit is
/// one of the paths, and none comes twice.
pub proof fn rankings_go_by_score(hits: Seq<Hit>, count: nat, a: int, b: int)
    requires
        ranked(hits, count, true),
        0 <= a < b < hits.len(),
    ensures
        hits[a].score >= hits[b].score,
        hits[a].score == hits[b].score ==> hits[a].index < hits[b].index,
        hits[a].index != hits[b].index,
        hits[a].index < count,
        hits[b].index < count,
{
}

/// The best matches are compared exactly where both ways have one, and they are the first ones.
pub proof fn first_matches_are_compared(contiguous: Seq<Hit>, chunked: Seq<Hit>)
    ensures
        best_of(contiguous, chunked) is Some <==> contiguous.len() > 0 && chunked.len() > 0,
        best_of(contiguous, chunked) matches Some(best) ==> best.contiguous == contiguous[0]
            && best.chunked == chunked[0],
{
}

/// The report says that both ways agree exactly where they found the same path with the same score.
pub proof fn parity_is_reported(tops: Tops)
    ensures
        "  Parity:     OK"@.is_prefix_of(parity_text(tops)) <==> tops.contiguous.index
            == tops.chunked.index && tops.contiguous.score == tops.chunked.score,
{
    reveal_strlit("  Parity:     OK");
    reveal_strlit("  Parity:     OK (top match: ");
    reveal_strlit("  Parity:     MISMATCH! seg=(");
    let text = parity_text(tops);
    if tops.contiguous == tops.chunked {
        assert(text.subrange(0, 16) =~= "  Parity:     OK"@);
    } else {
        assert(text[14] == 'M');
        assert("  Parity:     OK"@[14] == 'O');
        if "  Parity:     OK"@.is_prefix_of(text) {
            assert(text.subrange(0, 16)[14] == 'O');
        }
    }
}

} // verus!
