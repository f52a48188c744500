//! From what the search engine finds to what goes over the wire.

use crate::protocol::{
    FileItemWire, GrepMatchWire, GrepResultWire, LocationWire, ScoreWire, SearchResultWire,
};
use vstd::prelude::*;
use vstd::string::*;

verus! {

/// A file as the search engine describes it.
#[derive(Debug)]
pub struct FileItem {
    /// The path below the indexed directory.
    pub relative_path: String,
    /// The last component of the path.
    pub name: String,
    pub size: u64,
    pub modified: u64,
    pub access_frecency_score: i16,
    pub modification_frecency_score: i16,
    pub total_frecency_score: i32,
    /// The state of the file in version control, in words.
    pub git_status: String,
    pub is_binary: bool,
}

/// A line that matches, in one of the files that were searched.
#[derive(Debug)]
pub struct GrepMatch {
    /// Which of the files it is.
    pub file_index: usize,
    pub line_number: u64,
    pub col: usize,
    pub byte_offset: u64,
    pub line_content: String,
    /// The parts of the line that match, each by the bytes where it starts and ends.
    pub match_byte_offsets: Vec<(u32, u32)>,
    pub fuzzy_score: Option<u16>,
}

/// How the score of a file came about.
#[derive(Debug)]
pub struct Score {
    pub total: i32,
    pub base_score: i32,
    pub filename_bonus: i32,
    pub special_filename_bonus: i32,
    pub frecency_boost: i32,
    pub git_status_boost: i32,
    pub distance_penalty: i32,
    pub current_file_penalty: i32,
    pub combo_match_boost: i32,
    pub path_alignment_bonus: i32,
    pub exact_match: bool,
    pub match_type: String,
}

/// The place in a file that a query names.
#[derive(Debug, Clone, Copy)]
pub enum Location {
    Line(i32),
    Position { line: i32, col: i32 },
    Range { start: (i32, i32), end: (i32, i32) },
}

/// One page of what a file search found.
#[derive(Debug)]
pub struct SearchPage {
    pub items: Vec<FileItem>,
    pub scores: Vec<Score>,
    pub total_matched: usize,
    pub total_files: usize,
    pub location: Option<Location>,
}

/// One page of what a content search found.
#[derive(Debug)]
pub struct GrepPage {
    pub matches: Vec<GrepMatch>,
    pub files: Vec<FileItem>,
    pub total_files_searched: usize,
    pub total_files: usize,
    pub filtered_file_count: usize,
    pub next_file_offset: usize,
    pub regex_fallback_error: Option<String>,
}

impl GrepPage {
    /// Every match lies in one of the files.
    pub open spec fn wf(self) -> bool {
        forall|k: int|
            0 <= k < self.matches@.len() ==> (#[trigger] self.matches@[k]).file_index
                < self.files@.len()
    }
}

/// A file on the wire.
pub open spec fn file_wire(file: FileItem) -> FileItemWire {
    FileItemWire {
        relative_path: file.relative_path,
        name: file.name,
        size: file.size,
        modified: file.modified,
        access_frecency_score: file.access_frecency_score,
        modification_frecency_score: file.modification_frecency_score,
        total_frecency_score: file.total_frecency_score,
        git_status: file.git_status,
        is_binary: file.is_binary,
    }
}

/// A score on the wire.
pub open spec fn score_wire(score: Score) -> ScoreWire {
    ScoreWire {
        total: score.total,
        base_score: score.base_score,
        filename_bonus: score.filename_bonus,
        special_filename_bonus: score.special_filename_bonus,
        frecency_boost: score.frecency_boost,
        git_status_boost: score.git_status_boost,
        distance_penalty: score.distance_penalty,
        current_file_penalty: score.current_file_penalty,
        combo_match_boost: score.combo_match_boost,
        path_alignment_bonus: score.path_alignment_bonus,
        exact_match: score.exact_match,
        match_type: score.match_type,
    }
}

/// A location on the wire.
pub open spec fn location_wire(location: Location) -> LocationWire {
    match location {
        Location::Line(line) => LocationWire::Line(line),
        Location::Position { line, col } => LocationWire::Position { line, col },
        Location::Range { start, end } => LocationWire::Range { start, end },
    }
}

/// `wire` is what goes over the wire for a match in `file`.
pub open spec fn shows_match(wire: GrepMatchWire, found: GrepMatch, file: FileItem) -> bool {
    &&& wire.relative_path == file.relative_path
    &&& wire.name == file.name
    &&& wire.is_binary == file.is_binary
    &&& wire.git_status == file.git_status
    &&& wire.size == file.size
    &&& wire.modified == file.modified
    &&& wire.total_frecency_score == file.total_frecency_score
    &&& wire.access_frecency_score == file.access_frecency_score
    &&& wire.modification_frecency_score == file.modification_frecency_score
    &&& wire.line_number == found.line_number
    &&& wire.col == found.col
    &&& wire.byte_offset == found.byte_offset
    &&& wire.line_content == found.line_content
    &&& wire.match_ranges@ == found.match_byte_offsets@
    &&& wire.fuzzy_score == found.fuzzy_score
}

/// `wire` is what goes over the wire for a page of files.
pub open spec fn shows_search(wire: SearchResultWire, page: SearchPage) -> bool {
    &&& wire.items@ == page.items@.map_values(|file: FileItem| file_wire(file))
    &&& wire.scores@ == page.scores@.map_values(|score: Score| score_wire(score))
    &&& wire.total_matched == page.total_matched
    &&& wire.total_files == page.total_files
    &&& wire.location == match page.location {
        Some(location) => Some(location_wire(location)),
        None => None,
    }
}

/// `wire` is what goes over the wire for a page of matches.
pub open spec fn shows_grep(wire: GrepResultWire, page: GrepPage) -> bool {
    &&& wire.items@.len() == page.matches@.len()
    &&& forall|k: int|
        0 <= k < wire.items@.len() ==> shows_match(
            #[trigger] wire.items@[k],
            page.matches@[k],
            page.files@[page.matches@[k].file_index as int],
        )
    &&& wire.total_matched == page.matches@.len()
    &&& wire.total_files_searched == page.total_files_searched
    &&& wire.total_files == page.total_files
    &&& wire.filtered_file_count == page.filtered_file_count
    &&& wire.next_file_offset == page.next_file_offset
    &&& wire.regex_fallback_error == page.regex_fallback_error
}

/// Puts a file on the wire.
pub fn file_item_to_wire(file: &FileItem) -> (res: FileItemWire)
    ensures
        res == file_wire(*file),
        crate::laws::pages::same_file(res, *file),
{
    FileItemWire {
        relative_path: file.relative_path.clone(),
        name: file.name.clone(),
        size: file.size,
        modified: file.modified,
        access_frecency_score: file.access_frecency_score,
        modification_frecency_score: file.modification_frecency_score,
        total_frecency_score: file.total_frecency_score,
        git_status: file.git_status.clone(),
        is_binary: file.is_binary,
    }
}

/// Puts a score on the wire.
pub fn score_to_wire(score: &Score) -> (res: ScoreWire)
    ensures
        res == score_wire(*score),
        crate::laws::pages::same_score(res, *score),
{
    ScoreWire {
        total: score.total,
        base_score: score.base_score,
        filename_bonus: score.filename_bonus,
        special_filename_bonus: score.special_filename_bonus,
        frecency_boost: score.frecency_boost,
        git_status_boost: score.git_status_boost,
        distance_penalty: score.distance_penalty,
        current_file_penalty: score.current_file_penalty,
        combo_match_boost: score.combo_match_boost,
        path_alignment_bonus: score.path_alignment_bonus,
        exact_match: score.exact_match,
        match_type: score.match_type.clone(),
    }
}

/// Puts a location on the wire.
pub fn location_to_wire(location: Location) -> (res: LocationWire)
    ensures
        res == location_wire(location),
        crate::laws::pages::same_place(res, location),
{
    match location {
        Location::Line(line) => LocationWire::Line(line),
        Location::Position { line, col } => LocationWire::Position { line, col },
        Location::Range { start, end } => LocationWire::Range { start, end },
    }
}

/// Puts a match on the wire, with what is known of its file.
pub fn grep_match_to_wire(found: &GrepMatch, file: &FileItem) -> (res: GrepMatchWire)
    ensures
        shows_match(res, *found, *file),
{
    let mut match_ranges: Vec<(u32, u32)> = Vec::new();
    let mut i: usize = 0;
    while i < found.match_byte_offsets.len()
        invariant
            i <= found.match_byte_offsets@.len(),
            match_ranges@ == found.match_byte_offsets@.take(i as int),
        decreases found.match_byte_offsets@.len() - i,
    {
        match_ranges.push(found.match_byte_offsets[i]);
        proof {
            assert(match_ranges@ =~= found.match_byte_offsets@.take(i + 1));
        }
        i += 1;
    }
    assert(match_ranges@ =~= found.match_byte_offsets@);
    GrepMatchWire {
        relative_path: file.relative_path.clone(),
        name: file.name.clone(),
        is_binary: file.is_binary,
        git_status: file.git_status.clone(),
        size: file.size,
        modified: file.modified,
        total_frecency_score: file.total_frecency_score,
        access_frecency_score: file.access_frecency_score,
        modification_frecency_score: file.modification_frecency_score,
        line_number: found.line_number,
        col: found.col,
        byte_offset: found.byte_offset,
        line_content: found.line_content.clone(),
        match_ranges,
        fuzzy_score: found.fuzzy_score,
    }
}

/// Puts a page of files on the wire.
pub fn search_page_to_wire(page: &SearchPage) -> (res: SearchResultWire)
    ensures
        shows_search(res, *page),
        res.items@.len() == page.items@.len(),
        forall|k: int|
            0 <= k < page.items@.len() ==> crate::laws::pages::same_file(
                #[trigger] res.items@[k],
                page.items@[k],
            ),
{
    let mut items: Vec<FileItemWire> = Vec::new();
    let mut i: usize = 0;
    while i < page.items.len()
        invariant
            i <= page.items@.len(),
            items@.len() == i,
            forall|k: int| 0 <= k < i ==> items@[k] == file_wire(page.items@[k]),
        decreases page.items@.len() - i,
    {
        items.push(file_item_to_wire(&page.items[i]));
        i += 1;
    }
    let mut scores: Vec<ScoreWire> = Vec::new();
    let mut j: usize = 0;
    while j < page.scores.len()
        invariant
            j <= page.scores@.len(),
            scores@.len() == j,
            forall|k: int| 0 <= k < j ==> scores@[k] == score_wire(page.scores@[k]),
        decreases page.scores@.len() - j,
    {
        scores.push(score_to_wire(&page.scores[j]));
        j += 1;
    }
    let location = match page.location {
        Some(location) => Some(location_to_wire(location)),
        None => None,
    };
    assert(items@ =~= page.items@.map_values(|file: FileItem| file_wire(file)));
    assert(scores@ =~= page.scores@.map_values(|score: Score| score_wire(score)));
    SearchResultWire {
        items,
        scores,
        total_matched: page.total_matched,
        total_files: page.total_files,
        location,
    }
}

/// Puts a page of matches on the wire.
pub fn grep_page_to_wire(page: &GrepPage) -> (res: GrepResultWire)
    requires
        page.wf(),
    ensures
        shows_grep(res, *page),
{
    let mut items: Vec<GrepMatchWire> = Vec::new();
    let mut i: usize = 0;
    while i < page.matches.len()
        invariant
            page.wf(),
            i <= page.matches@.len(),
            items@.len() == i,
            forall|k: int|
                0 <= k < i ==> shows_match(
                    #[trigger] items@[k],
                    page.matches@[k],
                    page.files@[page.matches@[k].file_index as int],
                ),
        decreases page.matches@.len() - i,
    {
        let found = &page.matches[i];
        items.push(grep_match_to_wire(found, &page.files[found.file_index]));
        i += 1;
    }
    let regex_fallback_error = match &page.regex_fallback_error {
        Some(error) => Some(error.clone()),
        None => None,
    };
    GrepResultWire {
        items,
        total_matched: page.matches.len(),
        total_files_searched: page.total_files_searched,
        total_files: page.total_files,
        filtered_file_count: page.filtered_file_count,
        next_file_offset: page.next_file_offset,
        regex_fallback_error,
    }
}

} // verus!
