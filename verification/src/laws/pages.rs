//! What the search engine finds is what goes over the wire: the same files, scores, places and
//! matches, in the same order.

use crate::convert::{
    shows_grep, shows_search, FileItem, GrepPage, Location, Score, SearchPage,
};
use crate::protocol::{
    FileItemWire, GrepResultWire, LocationWire, ScoreWire, SearchResultWire,
};
use vstd::prelude::*;

verus! {

/// Both are the same file.
pub open spec fn same_file(sent: FileItemWire, found: FileItem) -> bool {
    &&& sent.relative_path@ == found.relative_path@
    &&& sent.name@ == found.name@
    &&& sent.size == found.size
    &&& sent.modified == found.modified
    &&& sent.access_frecency_score == found.access_frecency_score
    &&& sent.modification_frecency_score == found.modification_frecency_score
    &&& sent.total_frecency_score == found.total_frecency_score
    &&& sent.git_status@ == found.git_status@
    &&& sent.is_binary == found.is_binary
}

/// Both are the same score.
pub open spec fn same_score(sent: ScoreWire, given: Score) -> bool {
    &&& sent.total == given.total
    &&& sent.base_score == given.base_score
    &&& sent.filename_bonus == given.filename_bonus
    &&& sent.special_filename_bonus == given.special_filename_bonus
    &&& sent.frecency_boost == given.frecency_boost
    &&& sent.git_status_boost == given.git_status_boost
    &&& sent.distance_penalty == given.distance_penalty
    &&& sent.current_file_penalty == given.current_file_penalty
    &&& sent.combo_match_boost == given.combo_match_boost
    &&& sent.path_alignment_bonus == given.path_alignment_bonus
    &&& sent.exact_match == given.exact_match
    &&& sent.match_type@ == given.match_type@
}

/// Both are the same place: a line stays a line, a position keeps its line and its column, and
/// a range its two ends.
pub open spec fn same_place(sent: LocationWire, named: Location) -> bool {
    match (sent, named) {
        (LocationWire::Line(a), Location::Line(b)) => a == b,
        (
            LocationWire::Position { line: la, col: ca },
            Location::Position { line: lb, col: cb },
        ) => la == lb && ca == cb,
        (
            LocationWire::Range { start: sa, end: ea },
            Location::Range { start: sb, end: eb },
        ) => sa.0 == sb.0 && sa.1 == sb.1 && ea.0 == eb.0 && ea.1 == eb.1,
        _ => false,
    }
}

/// Every file and every score that the search engine finds goes over the wire with all its
/// properties, in the order of the page, and so do the totals and the place that the query
/// names.
pub proof fn found_files_arrive(sent: SearchResultWire, page: SearchPage)
    requires
        shows_search(sent, page),
    ensures
        sent.items@.len() == page.items@.len(),
        forall|k: int|
            0 <= k < page.items@.len() ==> same_file(#[trigger] sent.items@[k], page.items@[k]),
        sent.scores@.len() == page.scores@.len(),
        forall|k: int|
            0 <= k < page.scores@.len() ==> same_score(
                #[trigger] sent.scores@[k],
                page.scores@[k],
            ),
        sent.total_matched == page.total_matched,
        sent.total_files == page.total_files,
        sent.location is Some <==> page.location is Some,
        page.location is Some ==> same_place(sent.location->0, page.location->0),
{
}

/// Files with different paths have different paths on the wire, also where they have the same
/// name.
pub proof fn found_files_can_be_told_apart(
    sent: SearchResultWire,
    page: SearchPage,
    a: int,
    b: int,
)
    requires
        shows_search(sent, page),
        0 <= a < page.items@.len(),
        0 <= b < page.items@.len(),
        page.items@[a].relative_path@ != page.items@[b].relative_path@,
    ensures
        sent.items@[a].relative_path@ != sent.items@[b].relative_path@,
{
    found_files_arrive(sent, page);
    assert(same_file(sent.items@[a], page.items@[a]));
    assert(same_file(sent.items@[b], page.items@[b]));
}

/// Every match goes over the wire in the order of the page, with its place in its file, its
/// line, the parts of the line that match, and all that is known of the file it lies in.
pub proof fn found_matches_arrive(sent: GrepResultWire, page: GrepPage, k: int)
    requires
        page.wf(),
        shows_grep(sent, page),
        0 <= k < page.matches@.len(),
    ensures
        ({
            let found = page.matches@[k];
            let file = page.files@[found.file_index as int];
            let item = sent.items@[k];
            &&& sent.items@.len() == page.matches@.len()
            &&& item.line_number == found.line_number
            &&& item.col == found.col
            &&& item.byte_offset == found.byte_offset
            &&& item.line_content@ == found.line_content@
            &&& item.match_ranges@.len() == found.match_byte_offsets@.len()
            &&& forall|j: int|
                0 <= j < found.match_byte_offsets@.len() ==> (#[trigger] item.match_ranges@[j]).0
                    == found.match_byte_offsets@[j].0 && item.match_ranges@[j].1
                    == found.match_byte_offsets@[j].1
            &&& item.fuzzy_score == found.fuzzy_score
            &&& item.relative_path@ == file.relative_path@
            &&& item.name@ == file.name@
            &&& item.size == file.size
            &&& item.modified == file.modified
            &&& item.access_frecency_score == file.access_frecency_score
            &&& item.modification_frecency_score == file.modification_frecency_score
            &&& item.total_frecency_score == file.total_frecency_score
            &&& item.git_status@ == file.git_status@
            &&& item.is_binary == file.is_binary
        }),
{
    assert(crate::convert::shows_match(
        sent.items@[k],
        page.matches@[k],
        page.files@[page.matches@[k].file_index as int],
    ));
}

/// The counts of a content search go over the wire as the search engine gives them, and the
/// number of matches is the number of those that are sent.
pub proof fn grep_counts_arrive(sent: GrepResultWire, page: GrepPage)
    requires
        shows_grep(sent, page),
    ensures
        sent.total_matched == sent.items@.len(),
        sent.items@.len() == page.matches@.len(),
        sent.total_files_searched == page.total_files_searched,
        sent.total_files == page.total_files,
        sent.filtered_file_count == page.filtered_file_count,
        sent.next_file_offset == page.next_file_offset,
        sent.regex_fallback_error is Some <==> page.regex_fallback_error is Some,
        page.regex_fallback_error is Some ==> sent.regex_fallback_error->0@
            == page.regex_fallback_error->0@,
{
}

} // verus!
