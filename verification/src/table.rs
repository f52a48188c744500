//! Tables as scripts see them: named or numbered fields, whose values may be tables.

use crate::protocol::{
    DirectoryInfoWire, FileItemWire, GrepMatchWire, GrepResultWire, HealthCheckWire, LocationWire,
    ScanProgressWire, ScoreWire, SearchResultWire,
};
use vstd::prelude::*;
use vstd::string::*;

verus! {

/// What names a field of a table.
#[derive(Debug)]
pub enum Key {
    Name(&'static str),
    /// Numbers start at one.
    Number(usize),
}

/// A value that a script can have.
#[derive(Debug)]
pub enum Value {
    Bool(bool),
    Signed(i32),
    Unsigned(u64),
    Text(String),
    Table(Vec<Field>),
}

/// A field of a table.
#[derive(Debug)]
pub struct Field {
    pub key: Key,
    pub value: Value,
}

/// What names a field.
pub enum KeyModel {
    Name(Seq<char>),
    Number(nat),
}

/// What a value holds.
pub enum ValueModel {
    Bool(bool),
    Number(int),
    Text(Seq<char>),
    Table(Seq<(KeyModel, ValueModel)>),
}

impl View for Key {
    type V = KeyModel;

    open spec fn view(&self) -> KeyModel {
        match self {
            Key::Name(name) => KeyModel::Name(name@),
            Key::Number(number) => KeyModel::Number(*number as nat),
        }
    }
}

/// What the value holds.
pub open spec fn held(value: Value) -> ValueModel
    decreases value,
{
    match value {
        Value::Bool(b) => ValueModel::Bool(b),
        Value::Signed(n) => ValueModel::Number(n as int),
        Value::Unsigned(n) => ValueModel::Number(n as int),
        Value::Text(text) => ValueModel::Text(text@),
        Value::Table(fields) => ValueModel::Table(
            Seq::new(
                fields@.len(),
                |i: int|
                    if 0 <= i < fields@.len() {
                        (fields@[i].key@, held(fields@[i].value))
                    } else {
                        (KeyModel::Number(0), ValueModel::Bool(false))
                    },
            ),
        ),
    }
}

/// What the fields of a table hold.
pub open spec fn fields_held(fields: Seq<Field>) -> Seq<(KeyModel, ValueModel)> {
    fields.map_values(|field: Field| (field.key@, held(field.value)))
}

/// A field with this name.
pub open spec fn named(name: Seq<char>, value: ValueModel) -> (KeyModel, ValueModel) {
    (KeyModel::Name(name), value)
}

/// A list: its items under the numbers from one on.
pub open spec fn listed(items: Seq<ValueModel>) -> ValueModel {
    ValueModel::Table(Seq::new(items.len(), |i: int| (KeyModel::Number((i + 1) as nat), items[i])))
}

/// A value for a flag.
fn flag(b: bool) -> (res: Value)
    ensures
        held(res) == ValueModel::Bool(b),
{
    Value::Bool(b)
}

/// A value for a signed number.
fn signed(n: i32) -> (res: Value)
    ensures
        held(res) == ValueModel::Number(n as int),
{
    Value::Signed(n)
}

/// A value for an unsigned number.
fn unsigned(n: u64) -> (res: Value)
    ensures
        held(res) == ValueModel::Number(n as int),
{
    Value::Unsigned(n)
}

/// A value for a text.
fn text(t: &String) -> (res: Value)
    ensures
        held(res) == ValueModel::Text(t@),
{
    Value::Text(t.clone())
}

/// A value for a table.
fn table(fields: Vec<Field>) -> (res: Value)
    ensures
        held(res) == ValueModel::Table(fields_held(fields@)),
{
    let ghost model = fields_held(fields@);
    let res = Value::Table(fields);
    assert(held(res)->Table_0 =~= model);
    res
}

/// Adds a field under a name.
fn put(fields: &mut Vec<Field>, name: &'static str, value: Value)
    ensures
        fields_held(final(fields)@) == fields_held(old(fields)@).push(named(name@, held(value))),
{
    let ghost before = fields_held(fields@);
    let ghost model = held(value);
    fields.push(Field { key: Key::Name(name), value });
    assert(fields_held(fields@) =~= before.push(named(name@, model)));
}

/// Adds a field under a number.
fn put_at(fields: &mut Vec<Field>, number: usize, value: Value)
    ensures
        fields_held(final(fields)@) == fields_held(old(fields)@).push(
            (KeyModel::Number(number as nat), held(value)),
        ),
{
    let ghost before = fields_held(fields@);
    let ghost model = held(value);
    fields.push(Field { key: Key::Number(number), value });
    assert(fields_held(fields@) =~= before.push((KeyModel::Number(number as nat), model)));
}

/// A table without fields.
fn no_fields() -> (res: Vec<Field>)
    ensures
        fields_held(res@) == Seq::<(KeyModel, ValueModel)>::empty(),
{
    let res: Vec<Field> = Vec::new();
    assert(fields_held(res@) =~= Seq::<(KeyModel, ValueModel)>::empty());
    res
}

/// A file as a table.
pub open spec fn file_table(item: FileItemWire) -> ValueModel {
    ValueModel::Table(
        seq![
            named("relative_path"@, ValueModel::Text(item.relative_path@)),
            named("name"@, ValueModel::Text(item.name@)),
            named("size"@, ValueModel::Number(item.size as int)),
            named("modified"@, ValueModel::Number(item.modified as int)),
            named("access_frecency_score"@, ValueModel::Number(item.access_frecency_score as int)),
            named("modification_frecency_score"@, ValueModel::Number(item.modification_frecency_score as int)),
            named("total_frecency_score"@, ValueModel::Number(item.total_frecency_score as int)),
            named("git_status"@, ValueModel::Text(item.git_status@)),
            named("is_binary"@, ValueModel::Bool(item.is_binary)),
        ],
    )
}

fn file_to_lua(item: &FileItemWire) -> (res: Value)
    ensures
        held(res) == file_table(*item),
{
    let mut fields = no_fields();
    put(&mut fields, "relative_path", text(&item.relative_path));
    put(&mut fields, "name", text(&item.name));
    put(&mut fields, "size", unsigned(item.size));
    put(&mut fields, "modified", unsigned(item.modified));
    put(&mut fields, "access_frecency_score", signed(item.access_frecency_score as i32));
    put(&mut fields, "modification_frecency_score", signed(item.modification_frecency_score as i32));
    put(&mut fields, "total_frecency_score", signed(item.total_frecency_score));
    put(&mut fields, "git_status", text(&item.git_status));
    put(&mut fields, "is_binary", flag(item.is_binary));
    assert(fields_held(fields@) =~= file_table(*item)->Table_0);
    table(fields)
}

/// A score as a table.
pub open spec fn score_table(score: ScoreWire) -> ValueModel {
    ValueModel::Table(
        seq![
            named("total"@, ValueModel::Number(score.total as int)),
            named("base_score"@, ValueModel::Number(score.base_score as int)),
            named("filename_bonus"@, ValueModel::Number(score.filename_bonus as int)),
            named("special_filename_bonus"@, ValueModel::Number(score.special_filename_bonus as int)),
            named("frecency_boost"@, ValueModel::Number(score.frecency_boost as int)),
            named("git_status_boost"@, ValueModel::Number(score.git_status_boost as int)),
            named("distance_penalty"@, ValueModel::Number(score.distance_penalty as int)),
            named("current_file_penalty"@, ValueModel::Number(score.current_file_penalty as int)),
            named("combo_match_boost"@, ValueModel::Number(score.combo_match_boost as int)),
            named("path_alignment_bonus"@, ValueModel::Number(score.path_alignment_bonus as int)),
            named("exact_match"@, ValueModel::Bool(score.exact_match)),
            named("match_type"@, ValueModel::Text(score.match_type@)),
        ],
    )
}

fn score_to_lua(score: &ScoreWire) -> (res: Value)
    ensures
        held(res) == score_table(*score),
{
    let mut fields = no_fields();
    put(&mut fields, "total", signed(score.total));
    put(&mut fields, "base_score", signed(score.base_score));
    put(&mut fields, "filename_bonus", signed(score.filename_bonus));
    put(&mut fields, "special_filename_bonus", signed(score.special_filename_bonus));
    put(&mut fields, "frecency_boost", signed(score.frecency_boost));
    put(&mut fields, "git_status_boost", signed(score.git_status_boost));
    put(&mut fields, "distance_penalty", signed(score.distance_penalty));
    put(&mut fields, "current_file_penalty", signed(score.current_file_penalty));
    put(&mut fields, "combo_match_boost", signed(score.combo_match_boost));
    put(&mut fields, "path_alignment_bonus", signed(score.path_alignment_bonus));
    put(&mut fields, "exact_match", flag(score.exact_match));
    put(&mut fields, "match_type", text(&score.match_type));
    assert(fields_held(fields@) =~= score_table(*score)->Table_0);
    table(fields)
}

/// The progress of a scan as a table.
pub open spec fn progress_table(progress: ScanProgressWire) -> ValueModel {
    ValueModel::Table(
        seq![
            named("scanned_files_count"@, ValueModel::Number(progress.scanned_files_count as int)),
            named("is_scanning"@, ValueModel::Bool(progress.is_scanning)),
        ],
    )
}

/// Makes a table of the progress of a scan.
pub fn scan_progress_to_lua(progress: &ScanProgressWire) -> (res: Value)
    ensures
        held(res) == progress_table(*progress),
{
    let mut fields = no_fields();
    put(&mut fields, "scanned_files_count", unsigned(progress.scanned_files_count as u64));
    put(&mut fields, "is_scanning", flag(progress.is_scanning));
    assert(fields_held(fields@) =~= progress_table(*progress)->Table_0);
    table(fields)
}

/// A place in a file as a table.
pub open spec fn place_table(place: (i32, i32)) -> ValueModel {
    ValueModel::Table(
        seq![
            named("line"@, ValueModel::Number(place.0 as int)),
            named("col"@, ValueModel::Number(place.1 as int)),
        ],
    )
}

/// A location as a table.
pub open spec fn location_table(location: LocationWire) -> ValueModel {
    match location {
        LocationWire::Line(line) => ValueModel::Table(
            seq![named("line"@, ValueModel::Number(line as int))],
        ),
        LocationWire::Position { line, col } => place_table((line, col)),
        LocationWire::Range { start, end } => ValueModel::Table(
            seq![named("start"@, place_table(start)), named("end"@, place_table(end))],
        ),
    }
}

fn place_to_lua(place: (i32, i32)) -> (res: Value)
    ensures
        held(res) == place_table(place),
{
    let mut fields = no_fields();
    put(&mut fields, "line", signed(place.0));
    put(&mut fields, "col", signed(place.1));
    assert(fields_held(fields@) =~= place_table(place)->Table_0);
    table(fields)
}

fn location_to_lua(location: LocationWire) -> (res: Value)
    ensures
        held(res) == location_table(location),
        location matches LocationWire::Position { line, col } ==> {
            &&& crate::laws::tables::number_under(held(res), "line"@, line as int)
            &&& crate::laws::tables::number_under(held(res), "col"@, col as int)
        },
{
    proof {
        if let LocationWire::Position { line, col } = location {
            crate::laws::tables::position_shows_line_and_column(line, col);
        }
    }
    match location {
        LocationWire::Line(line) => {
            let mut fields = no_fields();
            put(&mut fields, "line", signed(line));
            assert(fields_held(fields@) =~= location_table(location)->Table_0);
            table(fields)
        },
        LocationWire::Position { line, col } => place_to_lua((line, col)),
        LocationWire::Range { start, end } => {
            let mut fields = no_fields();
            put(&mut fields, "start", place_to_lua(start));
            put(&mut fields, "end", place_to_lua(end));
            assert(fields_held(fields@) =~= location_table(location)->Table_0);
            table(fields)
        },
    }
}

/// A list of files.
fn files_to_lua(items: &Vec<FileItemWire>) -> (res: Value)
    ensures
        held(res) == listed(items@.map_values(|item: FileItemWire| file_table(item))),
{
    let ghost models = items@.map_values(|item: FileItemWire| file_table(item));
    let mut fields = no_fields();
    let mut i: usize = 0;
    while i < items.len()
        invariant
            i <= items@.len(),
            models == items@.map_values(|item: FileItemWire| file_table(item)),
            fields_held(fields@) == Seq::new(
                i as nat,
                |k: int| (KeyModel::Number((k + 1) as nat), models[k]),
            ),
        decreases items@.len() - i,
    {
        put_at(&mut fields, i + 1, file_to_lua(&items[i]));
        i += 1;
        assert(fields_held(fields@) =~= Seq::new(
            i as nat,
            |k: int| (KeyModel::Number((k + 1) as nat), models[k]),
        ));
    }
    let res = table(fields);
    assert(held(res)->Table_0 =~= listed(models)->Table_0);
    res
}

/// A list of scores.
fn scores_to_lua(items: &Vec<ScoreWire>) -> (res: Value)
    ensures
        held(res) == listed(items@.map_values(|item: ScoreWire| score_table(item))),
{
    let ghost models = items@.map_values(|item: ScoreWire| score_table(item));
    let mut fields = no_fields();
    let mut i: usize = 0;
    while i < items.len()
        invariant
            i <= items@.len(),
            models == items@.map_values(|item: ScoreWire| score_table(item)),
            fields_held(fields@) == Seq::new(
                i as nat,
                |k: int| (KeyModel::Number((k + 1) as nat), models[k]),
            ),
        decreases items@.len() - i,
    {
        put_at(&mut fields, i + 1, score_to_lua(&items[i]));
        i += 1;
        assert(fields_held(fields@) =~= Seq::new(
            i as nat,
            |k: int| (KeyModel::Number((k + 1) as nat), models[k]),
        ));
    }
    let res = table(fields);
    assert(held(res)->Table_0 =~= listed(models)->Table_0);
    res
}

/// The field for a location, where there is one.
pub open spec fn location_field(location: Option<LocationWire>) -> Seq<(KeyModel, ValueModel)> {
    match location {
        Some(location) => seq![named("location"@, location_table(location))],
        None => seq![],
    }
}

/// A page of files as a table.
pub open spec fn search_table(result: SearchResultWire) -> ValueModel {
    ValueModel::Table(
        seq![
            named("items"@, listed(result.items@.map_values(|item: FileItemWire| file_table(item)))),
            named("scores"@, listed(result.scores@.map_values(|item: ScoreWire| score_table(item)))),
            named("total_matched"@, ValueModel::Number(result.total_matched as int)),
            named("total_files"@, ValueModel::Number(result.total_files as int)),
        ] + location_field(result.location),
    )
}

/// Makes a table of a page of files.
pub fn search_result_wire_to_lua(result: &SearchResultWire) -> (res: Value)
    ensures
        held(res) == search_table(*result),
{
    let mut fields = no_fields();
    put(&mut fields, "items", files_to_lua(&result.items));
    put(&mut fields, "scores", scores_to_lua(&result.scores));
    put(&mut fields, "total_matched", unsigned(result.total_matched as u64));
    put(&mut fields, "total_files", unsigned(result.total_files as u64));
    let ghost before = fields_held(fields@);
    if let Some(location) = result.location {
        put(&mut fields, "location", location_to_lua(location));
    }
    assert(fields_held(fields@) =~= before + location_field(result.location));
    assert(fields_held(fields@) =~= search_table(*result)->Table_0);
    table(fields)
}

/// A part of a line as a table.
pub open spec fn range_table(range: (u32, u32)) -> ValueModel {
    ValueModel::Table(
        seq![
            (KeyModel::Number(1), ValueModel::Number(range.0 as int)),
            (KeyModel::Number(2), ValueModel::Number(range.1 as int)),
        ],
    )
}

fn range_to_lua(range: (u32, u32)) -> (res: Value)
    ensures
        held(res) == range_table(range),
{
    let mut fields = no_fields();
    put_at(&mut fields, 1, unsigned(range.0 as u64));
    put_at(&mut fields, 2, unsigned(range.1 as u64));
    assert(fields_held(fields@) =~= range_table(range)->Table_0);
    table(fields)
}

/// A list of parts of a line.
fn ranges_to_lua(items: &Vec<(u32, u32)>) -> (res: Value)
    ensures
        held(res) == listed(items@.map_values(|item: (u32, u32)| range_table(item))),
{
    let ghost models = items@.map_values(|item: (u32, u32)| range_table(item));
    let mut fields = no_fields();
    let mut i: usize = 0;
    while i < items.len()
        invariant
            i <= items@.len(),
            models == items@.map_values(|item: (u32, u32)| range_table(item)),
            fields_held(fields@) == Seq::new(
                i as nat,
                |k: int| (KeyModel::Number((k + 1) as nat), models[k]),
            ),
        decreases items@.len() - i,
    {
        put_at(&mut fields, i + 1, range_to_lua(items[i]));
        i += 1;
        assert(fields_held(fields@) =~= Seq::new(
            i as nat,
            |k: int| (KeyModel::Number((k + 1) as nat), models[k]),
        ));
    }
    let res = table(fields);
    assert(held(res)->Table_0 =~= listed(models)->Table_0);
    res
}

/// The field for a fuzzy score, where there is one.
pub open spec fn fuzzy_field(score: Option<u16>) -> Seq<(KeyModel, ValueModel)> {
    match score {
        Some(score) => seq![named("fuzzy_score"@, ValueModel::Number(score as int))],
        None => seq![],
    }
}

/// A match as a table.
pub open spec fn match_table(item: GrepMatchWire) -> ValueModel {
    ValueModel::Table(
        seq![
            named("relative_path"@, ValueModel::Text(item.relative_path@)),
            named("name"@, ValueModel::Text(item.name@)),
            named("is_binary"@, ValueModel::Bool(item.is_binary)),
            named("git_status"@, ValueModel::Text(item.git_status@)),
            named("size"@, ValueModel::Number(item.size as int)),
            named("modified"@, ValueModel::Number(item.modified as int)),
            named("total_frecency_score"@, ValueModel::Number(item.total_frecency_score as int)),
            named("access_frecency_score"@, ValueModel::Number(item.access_frecency_score as int)),
            named("modification_frecency_score"@, ValueModel::Number(item.modification_frecency_score as int)),
            named("line_number"@, ValueModel::Number(item.line_number as int)),
            named("col"@, ValueModel::Number(item.col as int)),
            named("byte_offset"@, ValueModel::Number(item.byte_offset as int)),
            named("line_content"@, ValueModel::Text(item.line_content@)),
            named(
                "match_ranges"@,
                listed(item.match_ranges@.map_values(|item: (u32, u32)| range_table(item))),
            ),
        ] + fuzzy_field(item.fuzzy_score),
    )
}

fn match_to_lua(item: &GrepMatchWire) -> (res: Value)
    ensures
        held(res) == match_table(*item),
{
    let mut fields = no_fields();
    put(&mut fields, "relative_path", text(&item.relative_path));
    put(&mut fields, "name", text(&item.name));
    put(&mut fields, "is_binary", flag(item.is_binary));
    put(&mut fields, "git_status", text(&item.git_status));
    put(&mut fields, "size", unsigned(item.size));
    put(&mut fields, "modified", unsigned(item.modified));
    put(&mut fields, "total_frecency_score", signed(item.total_frecency_score));
    put(&mut fields, "access_frecency_score", signed(item.access_frecency_score as i32));
    put(&mut fields, "modification_frecency_score", signed(item.modification_frecency_score as i32));
    put(&mut fields, "line_number", unsigned(item.line_number));
    put(&mut fields, "col", unsigned(item.col as u64));
    put(&mut fields, "byte_offset", unsigned(item.byte_offset));
    put(&mut fields, "line_content", text(&item.line_content));
    put(&mut fields, "match_ranges", ranges_to_lua(&item.match_ranges));
    let ghost before = fields_held(fields@);
    if let Some(score) = item.fuzzy_score {
        put(&mut fields, "fuzzy_score", unsigned(score as u64));
    }
    assert(fields_held(fields@) =~= before + fuzzy_field(item.fuzzy_score));
    assert(fields_held(fields@) =~= match_table(*item)->Table_0);
    table(fields)
}

/// A list of matches.
fn matches_to_lua(items: &Vec<GrepMatchWire>) -> (res: Value)
    ensures
        held(res) == listed(items@.map_values(|item: GrepMatchWire| match_table(item))),
{
    let ghost models = items@.map_values(|item: GrepMatchWire| match_table(item));
    let mut fields = no_fields();
    let mut i: usize = 0;
    while i < items.len()
        invariant
            i <= items@.len(),
            models == items@.map_values(|item: GrepMatchWire| match_table(item)),
            fields_held(fields@) == Seq::new(
                i as nat,
                |k: int| (KeyModel::Number((k + 1) as nat), models[k]),
            ),
        decreases items@.len() - i,
    {
        put_at(&mut fields, i + 1, match_to_lua(&items[i]));
        i += 1;
        assert(fields_held(fields@) =~= Seq::new(
            i as nat,
            |k: int| (KeyModel::Number((k + 1) as nat), models[k]),
        ));
    }
    let res = table(fields);
    assert(held(res)->Table_0 =~= listed(models)->Table_0);
    res
}

/// The field for a text, where there is one.
pub open spec fn text_field(name: Seq<char>, text: Option<String>) -> Seq<(KeyModel, ValueModel)> {
    match text {
        Some(text) => seq![named(name, ValueModel::Text(text@))],
        None => seq![],
    }
}

/// Adds a field for a text, where there is one.
fn put_text(fields: &mut Vec<Field>, name: &'static str, content: &Option<String>)
    ensures
        fields_held(final(fields)@) == fields_held(old(fields)@) + text_field(name@, *content),
{
    let ghost before = fields_held(fields@);
    if let Some(content) = content {
        put(fields, name, text(content));
    }
    assert(fields_held(fields@) =~= before + text_field(name@, *content));
}

/// A page of matches as a table.
pub open spec fn grep_table(result: GrepResultWire) -> ValueModel {
    ValueModel::Table(
        seq![
            named(
                "items"@,
                listed(result.items@.map_values(|item: GrepMatchWire| match_table(item))),
            ),
            named("total_matched"@, ValueModel::Number(result.total_matched as int)),
            named("total_files_searched"@, ValueModel::Number(result.total_files_searched as int)),
            named("total_files"@, ValueModel::Number(result.total_files as int)),
            named("filtered_file_count"@, ValueModel::Number(result.filtered_file_count as int)),
            named("next_file_offset"@, ValueModel::Number(result.next_file_offset as int)),
        ] + text_field("regex_fallback_error"@, result.regex_fallback_error),
    )
}

/// Makes a table of a page of matches.
pub fn grep_result_wire_to_lua(result: &GrepResultWire) -> (res: Value)
    ensures
        held(res) == grep_table(*result),
{
    let mut fields = no_fields();
    put(&mut fields, "items", matches_to_lua(&result.items));
    put(&mut fields, "total_matched", unsigned(result.total_matched as u64));
    put(&mut fields, "total_files_searched", unsigned(result.total_files_searched as u64));
    put(&mut fields, "total_files", unsigned(result.total_files as u64));
    put(&mut fields, "filtered_file_count", unsigned(result.filtered_file_count as u64));
    put(&mut fields, "next_file_offset", unsigned(result.next_file_offset as u64));
    put_text(&mut fields, "regex_fallback_error", &result.regex_fallback_error);
    assert(fields_held(fields@) =~= grep_table(*result)->Table_0);
    table(fields)
}

/// What the daemon knows of version control as a table.
pub open spec fn git_table(health: HealthCheckWire) -> ValueModel {
    ValueModel::Table(
        seq![
            named("available"@, ValueModel::Bool(health.git_available)),
            named("repository_found"@, ValueModel::Bool(health.git_repository_found)),
            named("libgit2_version"@, ValueModel::Text(health.git_libgit2_version@)),
        ] + text_field("workdir"@, health.git_workdir),
    )
}

/// What the daemon knows of the index of a directory as a table.
pub open spec fn picker_table(health: HealthCheckWire) -> ValueModel {
    ValueModel::Table(
        seq![named("initialized"@, ValueModel::Bool(health.file_picker_initialized))] + text_field(
            "base_path"@,
            health.file_picker_base_path,
        ) + (match health.file_picker_is_scanning {
            Some(scanning) => seq![named("is_scanning"@, ValueModel::Bool(scanning))],
            None => seq![],
        }) + (match health.file_picker_indexed_files {
            Some(files) => seq![named("indexed_files"@, ValueModel::Number(files as int))],
            None => seq![],
        }),
    )
}

/// A part of the daemon that is always there, as a table.
pub open spec fn present_table() -> ValueModel {
    ValueModel::Table(seq![named("initialized"@, ValueModel::Bool(true))])
}

/// What the daemon knows of itself and of a directory as a table.
pub open spec fn health_table(health: HealthCheckWire) -> ValueModel {
    ValueModel::Table(
        seq![
            named("version"@, ValueModel::Text(health.version@)),
            named("git"@, git_table(health)),
            named("file_picker"@, picker_table(health)),
            named("frecency"@, present_table()),
            named("query_tracker"@, present_table()),
        ],
    )
}

fn present_to_lua() -> (res: Value)
    ensures
        held(res) == present_table(),
{
    let mut fields = no_fields();
    put(&mut fields, "initialized", flag(true));
    assert(fields_held(fields@) =~= present_table()->Table_0);
    table(fields)
}

/// Makes a table of what the daemon knows of itself and of a directory.
pub fn health_to_lua(health: &HealthCheckWire) -> (res: Value)
    ensures
        held(res) == health_table(*health),
{
    let mut git = no_fields();
    put(&mut git, "available", flag(health.git_available));
    put(&mut git, "repository_found", flag(health.git_repository_found));
    put(&mut git, "libgit2_version", text(&health.git_libgit2_version));
    put_text(&mut git, "workdir", &health.git_workdir);
    let mut picker = no_fields();
    put(&mut picker, "initialized", flag(health.file_picker_initialized));
    put_text(&mut picker, "base_path", &health.file_picker_base_path);
    if let Some(scanning) = health.file_picker_is_scanning {
        put(&mut picker, "is_scanning", flag(scanning));
    }
    if let Some(files) = health.file_picker_indexed_files {
        put(&mut picker, "indexed_files", unsigned(files as u64));
    }
    assert(fields_held(git@) =~= git_table(*health)->Table_0);
    assert(fields_held(picker@) =~= picker_table(*health)->Table_0);
    let mut fields = no_fields();
    put(&mut fields, "version", text(&health.version));
    put(&mut fields, "git", table(git));
    put(&mut fields, "file_picker", table(picker));
    put(&mut fields, "frecency", present_to_lua());
    put(&mut fields, "query_tracker", present_to_lua());
    assert(fields_held(fields@) =~= health_table(*health)->Table_0);
    table(fields)
}

/// A process id as a value.
pub open spec fn pid_value(pid: u32) -> ValueModel {
    ValueModel::Number(pid as int)
}

/// A list of process ids.
fn pids_to_lua(items: &Vec<u32>) -> (res: Value)
    ensures
        held(res) == listed(items@.map_values(|item: u32| pid_value(item))),
{
    let ghost models = items@.map_values(|item: u32| pid_value(item));
    let mut fields = no_fields();
    let mut i: usize = 0;
    while i < items.len()
        invariant
            i <= items@.len(),
            models == items@.map_values(|item: u32| pid_value(item)),
            fields_held(fields@) == Seq::new(
                i as nat,
                |k: int| (KeyModel::Number((k + 1) as nat), models[k]),
            ),
        decreases items@.len() - i,
    {
        put_at(&mut fields, i + 1, unsigned(items[i] as u64));
        i += 1;
        assert(fields_held(fields@) =~= Seq::new(
            i as nat,
            |k: int| (KeyModel::Number((k + 1) as nat), models[k]),
        ));
    }
    let res = table(fields);
    assert(held(res)->Table_0 =~= listed(models)->Table_0);
    res
}

/// An indexed directory as a table.
pub open spec fn directory_table(info: DirectoryInfoWire) -> ValueModel {
    ValueModel::Table(
        seq![
            named("path"@, ValueModel::Text(crate::path::lossy_text(info.path@))),
            named("is_scanning"@, ValueModel::Bool(info.is_scanning)),
            named("file_count"@, ValueModel::Number(info.file_count as int)),
            named("client_count"@, ValueModel::Number(info.client_count as int)),
            named(
                "client_pids"@,
                listed(info.client_pids@.map_values(|item: u32| pid_value(item))),
            ),
        ],
    )
}

/// The indexed directories as a table.
pub open spec fn directory_list(infos: Seq<DirectoryInfoWire>) -> ValueModel {
    listed(infos.map_values(|item: DirectoryInfoWire| directory_table(item)))
}

fn directory_to_lua(info: &DirectoryInfoWire) -> (res: Value)
    ensures
        held(res) == directory_table(*info),
{
    let path = info.path.display();
    let mut fields = no_fields();
    put(&mut fields, "path", text(&path));
    put(&mut fields, "is_scanning", flag(info.is_scanning));
    put(&mut fields, "file_count", unsigned(info.file_count as u64));
    put(&mut fields, "client_count", unsigned(info.client_count as u64));
    put(&mut fields, "client_pids", pids_to_lua(&info.client_pids));
    assert(fields_held(fields@) =~= directory_table(*info)->Table_0);
    table(fields)
}

/// Makes a table of the indexed directories.
pub fn directories_to_lua(items: &Vec<DirectoryInfoWire>) -> (res: Value)
    ensures
        held(res) == directory_list(items@),
{
    let ghost models = items@.map_values(|item: DirectoryInfoWire| directory_table(item));
    let mut fields = no_fields();
    let mut i: usize = 0;
    while i < items.len()
        invariant
            i <= items@.len(),
            models == items@.map_values(|item: DirectoryInfoWire| directory_table(item)),
            fields_held(fields@) == Seq::new(
                i as nat,
                |k: int| (KeyModel::Number((k + 1) as nat), models[k]),
            ),
        decreases items@.len() - i,
    {
        put_at(&mut fields, i + 1, directory_to_lua(&items[i]));
        i += 1;
        assert(fields_held(fields@) =~= Seq::new(
            i as nat,
            |k: int| (KeyModel::Number((k + 1) as nat), models[k]),
        ));
    }
    let res = table(fields);
    assert(held(res)->Table_0 =~= listed(models)->Table_0);
    res
}

/// The text of a parsed content query as a table.
pub open spec fn parsed_query_table(grep_text: Seq<char>) -> ValueModel {
    ValueModel::Table(seq![named("grep_text"@, ValueModel::Text(grep_text))])
}

/// Makes a table of the text of a parsed content query.
pub fn parsed_query_to_lua(grep_text: &String) -> (res: Value)
    ensures
        held(res) == parsed_query_table(grep_text@),
{
    let mut fields = no_fields();
    put(&mut fields, "grep_text", text(grep_text));
    assert(fields_held(fields@) =~= parsed_query_table(grep_text@)->Table_0);
    table(fields)
}

} // verus!
