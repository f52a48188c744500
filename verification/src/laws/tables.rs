//! What a script reads from the tables that it is given: which value stands under which
//! name, and that nothing else stands there.

use crate::protocol::{
    DirectoryInfoWire, FileItemWire, GrepMatchWire, GrepResultWire, HealthCheckWire, LocationWire,
    ScanProgressWire, ScoreWire, SearchResultWire,
};
use crate::table::{
    directory_list, directory_table, file_table, grep_table, health_table,
    location_table, match_table, parsed_query_table, progress_table, score_table, search_table,
    KeyModel, ValueModel,
};
use vstd::prelude::*;
use vstd::string::*;

verus! {

/// The table has this value under this name.
pub open spec fn has(table: ValueModel, name: Seq<char>, value: ValueModel) -> bool {
    table matches ValueModel::Table(fields) && fields.contains((KeyModel::Name(name), value))
}

/// How many fields the table has.
pub open spec fn width(table: ValueModel) -> nat {
    match table {
        ValueModel::Table(fields) => fields.len(),
        _ => 0,
    }
}

/// The table is a list, with this value as its item `k`, counted from zero. Scripts count from
/// one.
pub open spec fn item_is(table: ValueModel, k: int, value: ValueModel) -> bool {
    table matches ValueModel::Table(fields) && 0 <= k < fields.len() && fields[k] == (
        KeyModel::Number((k + 1) as nat),
        value,
    )
}

/// Item `k` of the list is a list of two numbers, in this order.
pub open spec fn pair_is(table: ValueModel, k: int, pair: (u32, u32)) -> bool {
    exists|item: ValueModel| #[trigger]
        item_is(table, k, item) && width(item) == 2 && item_is(
            item,
            0,
            ValueModel::Number(pair.0 as int),
        ) && item_is(item, 1, ValueModel::Number(pair.1 as int))
}

/// The number under this name is no other than this one.
pub open spec fn number_under(table: ValueModel, name: Seq<char>, number: int) -> bool {
    has(table, name, ValueModel::Number(number))
}

/// The table of a file has every property of the file under its own name, and nothing else.
pub proof fn files_show_their_fields(file: FileItemWire)
    ensures
        has(file_table(file), "relative_path"@, ValueModel::Text(file.relative_path@)),
        has(file_table(file), "name"@, ValueModel::Text(file.name@)),
        has(file_table(file), "size"@, ValueModel::Number(file.size as int)),
        has(file_table(file), "modified"@, ValueModel::Number(file.modified as int)),
        has(
            file_table(file),
            "access_frecency_score"@,
            ValueModel::Number(file.access_frecency_score as int),
        ),
        has(
            file_table(file),
            "modification_frecency_score"@,
            ValueModel::Number(file.modification_frecency_score as int),
        ),
        has(
            file_table(file),
            "total_frecency_score"@,
            ValueModel::Number(file.total_frecency_score as int),
        ),
        has(file_table(file), "git_status"@, ValueModel::Text(file.git_status@)),
        has(file_table(file), "is_binary"@, ValueModel::Bool(file.is_binary)),
        width(file_table(file)) == 9,
{
    let fields = file_table(file)->Table_0;
    assert(fields[0] == (KeyModel::Name("relative_path"@), ValueModel::Text(file.relative_path@)));
    assert(fields[1] == (KeyModel::Name("name"@), ValueModel::Text(file.name@)));
    assert(fields[2] == (KeyModel::Name("size"@), ValueModel::Number(file.size as int)));
    assert(fields[3] == (KeyModel::Name("modified"@), ValueModel::Number(file.modified as int)));
    assert(fields[4] == (
        KeyModel::Name("access_frecency_score"@),
        ValueModel::Number(file.access_frecency_score as int),
    ));
    assert(fields[5] == (
        KeyModel::Name("modification_frecency_score"@),
        ValueModel::Number(file.modification_frecency_score as int),
    ));
    assert(fields[6] == (
        KeyModel::Name("total_frecency_score"@),
        ValueModel::Number(file.total_frecency_score as int),
    ));
    assert(fields[7] == (KeyModel::Name("git_status"@), ValueModel::Text(file.git_status@)));
    assert(fields[8] == (KeyModel::Name("is_binary"@), ValueModel::Bool(file.is_binary)));
}

/// The table of a score has every part of the score under its own name, and nothing else.
pub proof fn scores_show_their_parts(score: ScoreWire)
    ensures
        has(score_table(score), "total"@, ValueModel::Number(score.total as int)),
        has(score_table(score), "base_score"@, ValueModel::Number(score.base_score as int)),
        has(score_table(score), "filename_bonus"@, ValueModel::Number(score.filename_bonus as int)),
        has(
            score_table(score),
            "special_filename_bonus"@,
            ValueModel::Number(score.special_filename_bonus as int),
        ),
        has(score_table(score), "frecency_boost"@, ValueModel::Number(score.frecency_boost as int)),
        has(
            score_table(score),
            "git_status_boost"@,
            ValueModel::Number(score.git_status_boost as int),
        ),
        has(
            score_table(score),
            "distance_penalty"@,
            ValueModel::Number(score.distance_penalty as int),
        ),
        has(
            score_table(score),
            "current_file_penalty"@,
            ValueModel::Number(score.current_file_penalty as int),
        ),
        has(
            score_table(score),
            "combo_match_boost"@,
            ValueModel::Number(score.combo_match_boost as int),
        ),
        has(
            score_table(score),
            "path_alignment_bonus"@,
            ValueModel::Number(score.path_alignment_bonus as int),
        ),
        has(score_table(score), "exact_match"@, ValueModel::Bool(score.exact_match)),
        has(score_table(score), "match_type"@, ValueModel::Text(score.match_type@)),
        width(score_table(score)) == 12,
{
    let fields = score_table(score)->Table_0;
    assert(fields[0] == (KeyModel::Name("total"@), ValueModel::Number(score.total as int)));
    assert(fields[1] == (
        KeyModel::Name("base_score"@),
        ValueModel::Number(score.base_score as int),
    ));
    assert(fields[2] == (
        KeyModel::Name("filename_bonus"@),
        ValueModel::Number(score.filename_bonus as int),
    ));
    assert(fields[3] == (
        KeyModel::Name("special_filename_bonus"@),
        ValueModel::Number(score.special_filename_bonus as int),
    ));
    assert(fields[4] == (
        KeyModel::Name("frecency_boost"@),
        ValueModel::Number(score.frecency_boost as int),
    ));
    assert(fields[5] == (
        KeyModel::Name("git_status_boost"@),
        ValueModel::Number(score.git_status_boost as int),
    ));
    assert(fields[6] == (
        KeyModel::Name("distance_penalty"@),
        ValueModel::Number(score.distance_penalty as int),
    ));
    assert(fields[7] == (
        KeyModel::Name("current_file_penalty"@),
        ValueModel::Number(score.current_file_penalty as int),
    ));
    assert(fields[8] == (
        KeyModel::Name("combo_match_boost"@),
        ValueModel::Number(score.combo_match_boost as int),
    ));
    assert(fields[9] == (
        KeyModel::Name("path_alignment_bonus"@),
        ValueModel::Number(score.path_alignment_bonus as int),
    ));
    assert(fields[10] == (KeyModel::Name("exact_match"@), ValueModel::Bool(score.exact_match)));
    assert(fields[11] == (KeyModel::Name("match_type"@), ValueModel::Text(score.match_type@)));
}

/// The table of a scan has the number of files and whether the scan goes on.
pub proof fn progress_shows_both_parts(progress: ScanProgressWire)
    ensures
        has(
            progress_table(progress),
            "scanned_files_count"@,
            ValueModel::Number(progress.scanned_files_count as int),
        ),
        has(progress_table(progress), "is_scanning"@, ValueModel::Bool(progress.is_scanning)),
        width(progress_table(progress)) == 2,
{
    let fields = progress_table(progress)->Table_0;
    assert(fields[0] == (
        KeyModel::Name("scanned_files_count"@),
        ValueModel::Number(progress.scanned_files_count as int),
    ));
    assert(fields[1] == (KeyModel::Name("is_scanning"@), ValueModel::Bool(progress.is_scanning)));
}

/// The table of a match has every property of the match under its own name, the parts of the
/// line that match as pairs of start and end, and a fuzzy score exactly where there is one.
pub proof fn matches_show_their_fields(found: GrepMatchWire)
    ensures
        has(match_table(found), "relative_path"@, ValueModel::Text(found.relative_path@)),
        has(match_table(found), "name"@, ValueModel::Text(found.name@)),
        has(match_table(found), "is_binary"@, ValueModel::Bool(found.is_binary)),
        has(match_table(found), "git_status"@, ValueModel::Text(found.git_status@)),
        has(match_table(found), "size"@, ValueModel::Number(found.size as int)),
        has(match_table(found), "modified"@, ValueModel::Number(found.modified as int)),
        has(
            match_table(found),
            "total_frecency_score"@,
            ValueModel::Number(found.total_frecency_score as int),
        ),
        has(
            match_table(found),
            "access_frecency_score"@,
            ValueModel::Number(found.access_frecency_score as int),
        ),
        has(
            match_table(found),
            "modification_frecency_score"@,
            ValueModel::Number(found.modification_frecency_score as int),
        ),
        has(match_table(found), "line_number"@, ValueModel::Number(found.line_number as int)),
        has(match_table(found), "col"@, ValueModel::Number(found.col as int)),
        has(match_table(found), "byte_offset"@, ValueModel::Number(found.byte_offset as int)),
        has(match_table(found), "line_content"@, ValueModel::Text(found.line_content@)),
        exists|ranges: ValueModel| #[trigger]
            has(match_table(found), "match_ranges"@, ranges) && width(ranges)
                == found.match_ranges@.len() && forall|k: int|
                0 <= k < found.match_ranges@.len() ==> pair_is(
                    ranges,
                    k,
                    #[trigger] found.match_ranges@[k],
                ),
        match found.fuzzy_score {
            Some(score) => has(
                match_table(found),
                "fuzzy_score"@,
                ValueModel::Number(score as int),
            ) && width(match_table(found)) == 15,
            None => width(match_table(found)) == 14,
        },
{
    let fields = match_table(found)->Table_0;
    assert(fields[0] == (KeyModel::Name("relative_path"@), ValueModel::Text(found.relative_path@)));
    assert(fields[1] == (KeyModel::Name("name"@), ValueModel::Text(found.name@)));
    assert(fields[2] == (KeyModel::Name("is_binary"@), ValueModel::Bool(found.is_binary)));
    assert(fields[3] == (KeyModel::Name("git_status"@), ValueModel::Text(found.git_status@)));
    assert(fields[4] == (KeyModel::Name("size"@), ValueModel::Number(found.size as int)));
    assert(fields[5] == (KeyModel::Name("modified"@), ValueModel::Number(found.modified as int)));
    assert(fields[6] == (
        KeyModel::Name("total_frecency_score"@),
        ValueModel::Number(found.total_frecency_score as int),
    ));
    assert(fields[7] == (
        KeyModel::Name("access_frecency_score"@),
        ValueModel::Number(found.access_frecency_score as int),
    ));
    assert(fields[8] == (
        KeyModel::Name("modification_frecency_score"@),
        ValueModel::Number(found.modification_frecency_score as int),
    ));
    assert(fields[9] == (
        KeyModel::Name("line_number"@),
        ValueModel::Number(found.line_number as int),
    ));
    assert(fields[10] == (KeyModel::Name("col"@), ValueModel::Number(found.col as int)));
    assert(fields[11] == (
        KeyModel::Name("byte_offset"@),
        ValueModel::Number(found.byte_offset as int),
    ));
    assert(fields[12] == (KeyModel::Name("line_content"@), ValueModel::Text(found.line_content@)));
    let ranges = fields[13].1;
    assert(fields[13] == (KeyModel::Name("match_ranges"@), ranges));
    assert(has(match_table(found), "match_ranges"@, ranges));
    assert forall|k: int| 0 <= k < found.match_ranges@.len() implies pair_is(
        ranges,
        k,
        #[trigger] found.match_ranges@[k],
    ) by {
        assert(item_is(ranges, k, ranges->Table_0[k].1));
    }
    if found.fuzzy_score is Some {
        assert(fields[14] == (
            KeyModel::Name("fuzzy_score"@),
            ValueModel::Number(found.fuzzy_score->0 as int),
        ));
    }
}

/// The table of a line has the line, and nothing else.
pub proof fn line_shows_the_line(line: i32)
    ensures
        has(location_table(LocationWire::Line(line)), "line"@, ValueModel::Number(line as int)),
        width(location_table(LocationWire::Line(line))) == 1,
{
    let fields = location_table(LocationWire::Line(line))->Table_0;
    assert(fields[0] == (KeyModel::Name("line"@), ValueModel::Number(line as int)));
}

/// The table of a position has the line under `line` and the column under `col`, and nothing
/// else.
pub proof fn position_shows_line_and_column(line: i32, col: i32)
    ensures
        ({
            let table = location_table(LocationWire::Position { line, col });
            &&& has(table, "line"@, ValueModel::Number(line as int))
            &&& has(table, "col"@, ValueModel::Number(col as int))
            &&& width(table) == 2
        }),
{
    let fields = location_table(LocationWire::Position { line, col })->Table_0;
    assert(fields[0] == (KeyModel::Name("line"@), ValueModel::Number(line as int)));
    assert(fields[1] == (KeyModel::Name("col"@), ValueModel::Number(col as int)));
}

/// The ends of a range look like positions: the table of a range has under `start` what the
/// position where it starts looks like, under `end` the one where it ends, and nothing else.
pub proof fn range_shows_two_positions(first: (i32, i32), last: (i32, i32))
    ensures
        ({
            let table = location_table(LocationWire::Range { start: first, end: last });
            let from = location_table(LocationWire::Position { line: first.0, col: first.1 });
            let to = location_table(LocationWire::Position { line: last.0, col: last.1 });
            &&& has(table, "start"@, from)
            &&& has(table, "end"@, to)
            &&& width(table) == 2
        }),
{
    let fields = location_table(LocationWire::Range { start: first, end: last })->Table_0;
    let from = location_table(LocationWire::Position { line: first.0, col: first.1 });
    let to = location_table(LocationWire::Position { line: last.0, col: last.1 });
    assert(fields[0] == (KeyModel::Name("start"@), from));
    assert(fields[1] == (KeyModel::Name("end"@), to));
}

/// Different places look different to a script.
pub proof fn places_can_be_told_apart(a: LocationWire, b: LocationWire)
    requires
        location_table(a) == location_table(b),
    ensures
        match (a, b) {
            (LocationWire::Line(m), LocationWire::Line(n)) => m == n,
            (
                LocationWire::Position { line: la, col: ca },
                LocationWire::Position { line: lb, col: cb },
            ) => la == lb && ca == cb,
            (
                LocationWire::Range { start: sa, end: ea },
                LocationWire::Range { start: sb, end: eb },
            ) => sa == sb && ea == eb,
            _ => false,
        },
{
    let x = location_table(a)->Table_0;
    let y = location_table(b)->Table_0;
    reveal_strlit("line");
    reveal_strlit("start");
    assert("line"@.len() == 4);
    assert("start"@.len() == 5);
    assert(x[0] == y[0]);
    if x.len() == 2 {
        assert(x[1] == y[1]);
        if a is Range && b is Range {
            let p = x[0].1->Table_0;
            let q = x[1].1->Table_0;
            assert(p[0] == y[0].1->Table_0[0]);
            assert(p[1] == y[0].1->Table_0[1]);
            assert(q[0] == y[1].1->Table_0[0]);
            assert(q[1] == y[1].1->Table_0[1]);
        }
    }
}

/// The table of a page of files has the files under `items` and the scores under `scores`, in
/// the order of the page, the two totals, and a location exactly where there is one.
pub proof fn found_files_are_listed(page: SearchResultWire)
    ensures
        ({
            let table = search_table(page);
            &&& exists|items: ValueModel| #[trigger]
                has(table, "items"@, items) && width(items) == page.items@.len() && forall|k: int|
                    0 <= k < page.items@.len() ==> item_is(
                        items,
                        k,
                        file_table(#[trigger] page.items@[k]),
                    )
            &&& exists|scores: ValueModel| #[trigger]
                has(table, "scores"@, scores) && width(scores) == page.scores@.len() && forall|
                    k: int,
                |
                    0 <= k < page.scores@.len() ==> item_is(
                        scores,
                        k,
                        score_table(#[trigger] page.scores@[k]),
                    )
            &&& number_under(table, "total_matched"@, page.total_matched as int)
            &&& number_under(table, "total_files"@, page.total_files as int)
            &&& match page.location {
                Some(location) => has(table, "location"@, location_table(location)) && width(table)
                    == 5,
                None => width(table) == 4,
            }
        }),
{
    let fields = search_table(page)->Table_0;
    assert(fields[0].0 == KeyModel::Name("items"@));
    assert(fields[1].0 == KeyModel::Name("scores"@));
    assert(has(search_table(page), "items"@, fields[0].1)) by {
        assert(fields[0] == (KeyModel::Name("items"@), fields[0].1));
    }
    assert(has(search_table(page), "scores"@, fields[1].1)) by {
        assert(fields[1] == (KeyModel::Name("scores"@), fields[1].1));
    }
    assert(fields[2] == (
        KeyModel::Name("total_matched"@),
        ValueModel::Number(page.total_matched as int),
    ));
    assert(fields[3] == (
        KeyModel::Name("total_files"@),
        ValueModel::Number(page.total_files as int),
    ));
    if page.location is Some {
        assert(fields[4] == (KeyModel::Name("location"@), location_table(page.location->0)));
    }
}

/// The table of a page of matches has the matches under `items`, in the order of the page, every
/// count under its own name, and the error of a failed pattern exactly where there is one.
pub proof fn found_matches_are_listed(page: GrepResultWire)
    ensures
        ({
            let table = grep_table(page);
            &&& exists|items: ValueModel| #[trigger]
                has(table, "items"@, items) && width(items) == page.items@.len() && forall|k: int|
                    0 <= k < page.items@.len() ==> item_is(
                        items,
                        k,
                        match_table(#[trigger] page.items@[k]),
                    )
            &&& number_under(table, "total_matched"@, page.total_matched as int)
            &&& number_under(table, "total_files_searched"@, page.total_files_searched as int)
            &&& number_under(table, "total_files"@, page.total_files as int)
            &&& number_under(table, "filtered_file_count"@, page.filtered_file_count as int)
            &&& number_under(table, "next_file_offset"@, page.next_file_offset as int)
            &&& match page.regex_fallback_error {
                Some(error) => has(table, "regex_fallback_error"@, ValueModel::Text(error@))
                    && width(table) == 7,
                None => width(table) == 6,
            }
        }),
{
    let fields = grep_table(page)->Table_0;
    assert(fields[0].0 == KeyModel::Name("items"@));
    assert(has(grep_table(page), "items"@, fields[0].1)) by {
        assert(fields[0] == (KeyModel::Name("items"@), fields[0].1));
    }
    assert(fields[1] == (
        KeyModel::Name("total_matched"@),
        ValueModel::Number(page.total_matched as int),
    ));
    assert(fields[2] == (
        KeyModel::Name("total_files_searched"@),
        ValueModel::Number(page.total_files_searched as int),
    ));
    assert(fields[3] == (
        KeyModel::Name("total_files"@),
        ValueModel::Number(page.total_files as int),
    ));
    assert(fields[4] == (
        KeyModel::Name("filtered_file_count"@),
        ValueModel::Number(page.filtered_file_count as int),
    ));
    assert(fields[5] == (
        KeyModel::Name("next_file_offset"@),
        ValueModel::Number(page.next_file_offset as int),
    ));
    if page.regex_fallback_error is Some {
        assert(fields[6] == (
            KeyModel::Name("regex_fallback_error"@),
            ValueModel::Text(page.regex_fallback_error->0@),
        ));
    }
}

/// The table of a health check has the version, what is known of version control under `git`
/// and of the index under `file_picker`, each with its own properties under their own names,
/// and those that are not known left out.
pub proof fn health_shows_its_parts(health: HealthCheckWire)
    ensures
        ({
            let table = health_table(health);
            &&& has(table, "version"@, ValueModel::Text(health.version@))
            &&& width(table) == 5
            &&& exists|git: ValueModel| #[trigger]
                has(table, "git"@, git) && {
                    &&& has(git, "available"@, ValueModel::Bool(health.git_available))
                    &&& has(git, "repository_found"@, ValueModel::Bool(health.git_repository_found))
                    &&& has(
                        git,
                        "libgit2_version"@,
                        ValueModel::Text(health.git_libgit2_version@),
                    )
                    &&& match health.git_workdir {
                        Some(dir) => has(git, "workdir"@, ValueModel::Text(dir@)) && width(git)
                            == 4,
                        None => width(git) == 3,
                    }
                }
            &&& exists|picker: ValueModel| #[trigger]
                has(table, "file_picker"@, picker) && {
                    &&& has(picker, "initialized"@, ValueModel::Bool(health.file_picker_initialized))
                    &&& health.file_picker_base_path matches Some(path) ==> has(
                        picker,
                        "base_path"@,
                        ValueModel::Text(path@),
                    )
                    &&& health.file_picker_is_scanning matches Some(scanning) ==> has(
                        picker,
                        "is_scanning"@,
                        ValueModel::Bool(scanning),
                    )
                    &&& health.file_picker_indexed_files matches Some(files) ==> has(
                        picker,
                        "indexed_files"@,
                        ValueModel::Number(files as int),
                    )
                    &&& width(picker) == 1 + (if health.file_picker_base_path is Some {
                        1int
                    } else {
                        0
                    }) + (if health.file_picker_is_scanning is Some {
                        1int
                    } else {
                        0
                    }) + (if health.file_picker_indexed_files is Some {
                        1int
                    } else {
                        0
                    })
                }
            &&& exists|part: ValueModel| #[trigger]
                has(table, "frecency"@, part) && width(part) == 1 && has(
                    part,
                    "initialized"@,
                    ValueModel::Bool(true),
                )
            &&& exists|part: ValueModel| #[trigger]
                has(table, "query_tracker"@, part) && width(part) == 1 && has(
                    part,
                    "initialized"@,
                    ValueModel::Bool(true),
                )
        }),
{
    let table = health_table(health);
    let fields = table->Table_0;
    assert(fields[0] == (KeyModel::Name("version"@), ValueModel::Text(health.version@)));
    let git = fields[1].1;
    assert(fields[1] == (KeyModel::Name("git"@), git));
    assert(has(table, "git"@, git));
    let g = git->Table_0;
    assert(g[0] == (KeyModel::Name("available"@), ValueModel::Bool(health.git_available)));
    assert(g[1] == (
        KeyModel::Name("repository_found"@),
        ValueModel::Bool(health.git_repository_found),
    ));
    assert(g[2] == (
        KeyModel::Name("libgit2_version"@),
        ValueModel::Text(health.git_libgit2_version@),
    ));
    if health.git_workdir is Some {
        assert(g[3] == (KeyModel::Name("workdir"@), ValueModel::Text(health.git_workdir->0@)));
    }
    let picker = fields[2].1;
    assert(fields[2] == (KeyModel::Name("file_picker"@), picker));
    assert(has(table, "file_picker"@, picker));
    let p = picker->Table_0;
    assert(p[0] == (
        KeyModel::Name("initialized"@),
        ValueModel::Bool(health.file_picker_initialized),
    ));
    let at_scan = if health.file_picker_base_path is Some {
        2int
    } else {
        1
    };
    let at_files = if health.file_picker_is_scanning is Some {
        at_scan + 1
    } else {
        at_scan
    };
    if health.file_picker_base_path is Some {
        assert(p[1] == (
            KeyModel::Name("base_path"@),
            ValueModel::Text(health.file_picker_base_path->0@),
        ));
    }
    if health.file_picker_is_scanning is Some {
        assert(p[at_scan] == (
            KeyModel::Name("is_scanning"@),
            ValueModel::Bool(health.file_picker_is_scanning->0),
        ));
    }
    if health.file_picker_indexed_files is Some {
        assert(p[at_files] == (
            KeyModel::Name("indexed_files"@),
            ValueModel::Number(health.file_picker_indexed_files->0 as int),
        ));
    }
    assert(fields[3] == (KeyModel::Name("frecency"@), fields[3].1));
    assert(has(table, "frecency"@, fields[3].1));
    assert(fields[3].1->Table_0[0] == (KeyModel::Name("initialized"@), ValueModel::Bool(true)));
    assert(fields[4] == (KeyModel::Name("query_tracker"@), fields[4].1));
    assert(has(table, "query_tracker"@, fields[4].1));
    assert(fields[4].1->Table_0[0] == (KeyModel::Name("initialized"@), ValueModel::Bool(true)));
}

/// The table of the indexed directories lists them in order. Each has its path, its scan, its
/// counts and the process ids of its clients under their own names, and nothing else.
pub proof fn directories_are_listed(infos: Seq<DirectoryInfoWire>, k: int)
    requires
        0 <= k < infos.len(),
    ensures
        width(directory_list(infos)) == infos.len(),
        exists|entry: ValueModel| #[trigger]
            item_is(directory_list(infos), k, entry) && {
                &&& has(entry, "path"@, ValueModel::Text(crate::path::lossy_text(infos[k].path@)))
                &&& has(entry, "is_scanning"@, ValueModel::Bool(infos[k].is_scanning))
                &&& number_under(entry, "file_count"@, infos[k].file_count as int)
                &&& number_under(entry, "client_count"@, infos[k].client_count as int)
                &&& width(entry) == 5
                &&& exists|pids: ValueModel| #[trigger]
                    has(entry, "client_pids"@, pids) && width(pids) == infos[k].client_pids@.len()
                        && forall|j: int|
                        0 <= j < infos[k].client_pids@.len() ==> item_is(
                            pids,
                            j,
                            ValueModel::Number(#[trigger] infos[k].client_pids@[j] as int),
                        )
            },
{
    let list = directory_list(infos);
    let entry = list->Table_0[k].1;
    assert(item_is(list, k, entry));
    assert(entry == directory_table(infos[k]));
    let fields = entry->Table_0;
    assert(fields[0] == (
        KeyModel::Name("path"@),
        ValueModel::Text(crate::path::lossy_text(infos[k].path@)),
    ));
    assert(fields[1] == (KeyModel::Name("is_scanning"@), ValueModel::Bool(infos[k].is_scanning)));
    assert(fields[2] == (
        KeyModel::Name("file_count"@),
        ValueModel::Number(infos[k].file_count as int),
    ));
    assert(fields[3] == (
        KeyModel::Name("client_count"@),
        ValueModel::Number(infos[k].client_count as int),
    ));
    assert(fields[4] == (KeyModel::Name("client_pids"@), fields[4].1));
    assert(has(entry, "client_pids"@, fields[4].1));
}

/// The table of a parsed content query has its text, and nothing else.
pub proof fn parsed_query_shows_its_text(grep_text: Seq<char>)
    ensures
        has(parsed_query_table(grep_text), "grep_text"@, ValueModel::Text(grep_text)),
        width(parsed_query_table(grep_text)) == 1,
{
    let fields = parsed_query_table(grep_text)->Table_0;
    assert(fields[0] == (KeyModel::Name("grep_text"@), ValueModel::Text(grep_text)));
}

} // verus!
