//! The messages that a client and the daemon exchange.

use crate::path::FsPath;
use vstd::prelude::*;

verus! {

/// The name of the daemon's program.
pub const DAEMON_BIN_NAME: &'static str = "fff-daemon";

/// The version of this protocol.
pub const PROTOCOL_VERSION: u32 = 1;

/// One file that a search found.
#[derive(Debug, Clone)]
pub struct FileItemWire {
    pub relative_path: String,
    pub name: String,
    pub size: u64,
    pub modified: u64,
    pub access_frecency_score: i16,
    pub modification_frecency_score: i16,
    pub total_frecency_score: i32,
    pub git_status: String,
    pub is_binary: bool,
}

/// How the score of a file came about.
#[derive(Debug, Clone)]
pub struct ScoreWire {
    pub total: i32,
    pub base_score: i32,
    pub filename_bonus: i32,
    pub special_filename_bonus: i32,
    pub frecency_boost: i32,
    pub git_status_boost: i32,
    pub distance_penalty: i32,
    pub current_file_penalty: i32,
    pub combo_match_boost: i32,
    pub path_alignment_bonus: i32,
    pub exact_match: bool,
    pub match_type: String,
}

/// The place in a file that a query names.
#[derive(Debug, Clone, Copy)]
pub enum LocationWire {
    Line(i32),
    Position { line: i32, col: i32 },
    Range { start: (i32, i32), end: (i32, i32) },
}

/// One page of what a file search found.
#[derive(Debug, Clone)]
pub struct SearchResultWire {
    pub items: Vec<FileItemWire>,
    pub scores: Vec<ScoreWire>,
    pub total_matched: usize,
    pub total_files: usize,
    pub location: Option<LocationWire>,
}

/// One line that a content search found.
#[derive(Debug, Clone)]
pub struct GrepMatchWire {
    pub relative_path: String,
    pub name: String,
    pub is_binary: bool,
    pub git_status: String,
    pub size: u64,
    pub modified: u64,
    pub total_frecency_score: i32,
    pub access_frecency_score: i16,
    pub modification_frecency_score: i16,
    pub line_number: u64,
    pub col: usize,
    pub byte_offset: u64,
    pub line_content: String,
    pub match_ranges: Vec<(u32, u32)>,
    pub fuzzy_score: Option<u16>,
}

/// One page of what a content search found.
#[derive(Debug, Clone)]
pub struct GrepResultWire {
    pub items: Vec<GrepMatchWire>,
    pub total_matched: usize,
    pub total_files_searched: usize,
    pub total_files: usize,
    pub filtered_file_count: usize,
    pub next_file_offset: usize,
    pub regex_fallback_error: Option<String>,
}

/// How far the scan of a directory has come.
#[derive(Debug, Clone)]
pub struct ScanProgressWire {
    pub scanned_files_count: usize,
    pub is_scanning: bool,
}

/// What the daemon knows of itself and of one directory.
#[derive(Debug, Clone)]
pub struct HealthCheckWire {
    pub version: String,
    pub git_available: bool,
    pub git_repository_found: bool,
    pub git_libgit2_version: String,
    pub git_workdir: Option<String>,
    pub file_picker_initialized: bool,
    pub file_picker_base_path: Option<String>,
    pub file_picker_is_scanning: Option<bool>,
    pub file_picker_indexed_files: Option<usize>,
}

/// How a content search reads its query.
#[derive(Debug, Clone, Copy, PartialEq, Eq, Structural)]
pub enum GrepModeWire {
    PlainText,
    Regex,
    Fuzzy,
}

impl Default for GrepModeWire {
    fn default() -> (res: GrepModeWire)
        ensures
            res == GrepModeWire::PlainText,
    {
        GrepModeWire::PlainText
    }
}

/// What a client asks of the daemon.
#[derive(Debug, Clone)]
pub enum Request {
    Ping,
    Shutdown,

    // Directory management.
    IndexDirectory {
        path: FsPath,
        watch_git_events: bool,
    },
    DropDirectory {
        path: FsPath,
    },
    ListDirectories,
    WaitForScan {
        path: FsPath,
        timeout_ms: u64,
    },
    GetScanProgress {
        path: FsPath,
    },
    IsScanning {
        path: FsPath,
    },

    // Database.
    InitDb {
        frecency_db_path: String,
        history_db_path: String,
        use_unsafe_no_lock: bool,
    },

    // Search.
    FuzzySearch {
        path: FsPath,
        query: String,
        max_threads: usize,
        current_file: Option<String>,
        combo_boost_score_multiplier: i32,
        min_combo_count: u32,
        page_index: usize,
        page_size: usize,
    },
    GrepSearch {
        path: FsPath,
        query: String,
        file_offset: usize,
        page_size: usize,
        max_file_size: u64,
        max_matches_per_file: usize,
        smart_case: bool,
        grep_mode: GrepModeWire,
        time_budget_ms: u64,
        trim_whitespace: bool,
    },

    // Frecency.
    TrackAccess {
        path: FsPath,
        file_path: String,
    },
    UpdateSingleFileFrecency {
        path: FsPath,
        file_path: String,
    },

    // Query tracking.
    TrackQueryCompletion {
        path: FsPath,
        query: String,
        file_path: String,
    },
    TrackGrepQuery {
        path: FsPath,
        query: String,
    },
    GetHistoricalQuery {
        path: FsPath,
        offset: usize,
    },
    GetHistoricalGrepQuery {
        path: FsPath,
        offset: usize,
    },

    // Git.
    RefreshGitStatus {
        path: FsPath,
    },
    GetGitRoot {
        path: FsPath,
    },
    GetBasePath {
        path: FsPath,
    },

    // Lifecycle.
    TriggerRescan {
        path: FsPath,
    },
    RestartIndex {
        path: FsPath,
        new_path: FsPath,
    },
    StopBackgroundMonitor {
        path: FsPath,
    },
    CleanupFilePicker {
        path: FsPath,
    },
    DestroyFrecencyDb,
    DestroyQueryDb,

    // Utility.
    ParseGrepQuery {
        query: String,
    },
    HealthCheck {
        path: FsPath,
    },
}

/// What the daemon answers.
#[derive(Debug, Clone)]
pub enum Response {
    Pong,
    Done,
    Bool(bool),
    Error(String),

    SearchResult(SearchResultWire),
    GrepResult(GrepResultWire),
    ScanProgress(ScanProgressWire),
    HealthCheck(HealthCheckWire),
    Directories(Vec<DirectoryInfoWire>),
    OptionalString(Option<String>),
    Usize(usize),
    ParsedGrepQuery { grep_text: String },
}

/// One indexed directory.
#[derive(Debug, Clone)]
pub struct DirectoryInfoWire {
    pub path: FsPath,
    pub is_scanning: bool,
    pub file_count: usize,
    pub client_count: usize,
    pub client_pids: Vec<u32>,
}

} // verus!
