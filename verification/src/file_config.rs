//! The TOML configuration file of KoShelf, as the values it holds.
//!
//! Reading the file and parsing TOML happen at the edge of the program; the
//! sections below are what the rest of the library works with.

use vstd::prelude::*;
use crate::args::{opt_str, strs};

verus! {

/// The whole configuration file.
#[derive(Debug, Default, Clone, PartialEq, Eq)]
pub struct FileConfig {
    pub library: Option<LibrarySection>,
    pub koshelf: Option<KoshelfSection>,
    pub server: Option<ServerSection>,
    pub output: Option<OutputSection>,
    pub statistics: Option<StatisticsSection>,
}

/// `[library]`
#[derive(Debug, Default, Clone, PartialEq, Eq)]
pub struct LibrarySection {
    pub paths: Option<Vec<String>>,
    pub docsettings_path: Option<String>,
    pub hashdocsettings_path: Option<String>,
    /// One path or several.
    pub statistics_db: Option<Vec<String>>,
    pub kobo_db: Option<String>,
    pub include_unread: Option<bool>,
    pub retain_missing: Option<bool>,
}

/// `[koshelf]`
#[derive(Debug, Default, Clone, PartialEq, Eq)]
pub struct KoshelfSection {
    pub title: Option<String>,
    pub language: Option<String>,
    pub timezone: Option<String>,
    pub data_path: Option<String>,
}

/// `[server]`
#[derive(Debug, Default, Clone, PartialEq, Eq)]
pub struct ServerSection {
    pub port: Option<u16>,
    pub enable_auth: Option<bool>,
    pub enable_writeback: Option<bool>,
    pub trusted_proxies: Option<Vec<String>>,
}

/// `[output]`
#[derive(Debug, Default, Clone, PartialEq, Eq)]
pub struct OutputSection {
    pub path: Option<String>,
    pub include_files: Option<bool>,
    pub watch: Option<bool>,
}

/// `[statistics]`
#[derive(Debug, Default, Clone, PartialEq, Eq)]
pub struct StatisticsSection {
    pub heatmap_scale_max: Option<String>,
    pub day_start_time: Option<String>,
    pub min_pages_per_day: Option<u32>,
    pub min_time_per_day: Option<String>,
    pub include_all_stats: Option<bool>,
    pub ignore_stable_page_metadata: Option<bool>,
}

/// A setting written either as one path or as a list of paths.
#[derive(Debug, Clone, PartialEq, Eq)]
pub enum PathList {
    One(String),
    Many(Vec<String>),
}

pub open spec fn opt_strs(o: Option<Vec<String>>) -> Option<Seq<Seq<char>>> {
    match o {
        Some(v) => Some(strs(v@)),
        None => None,
    }
}

pub open spec fn path_list_paths(p: PathList) -> Seq<Seq<char>> {
    match p {
        PathList::One(s) => seq![s@],
        PathList::Many(v) => strs(v@),
    }
}

/// The paths of an optional one-or-many setting: one path becomes a list of one.
pub fn one_or_many_paths(v: Option<PathList>) -> (r: Option<Vec<String>>)
    ensures
        opt_strs(r) == match v {
            Some(p) => Some(path_list_paths(p)),
            None => None::<Seq<Seq<char>>>,
        },
{
    match v {
        None => None,
        Some(PathList::One(path)) => {
            let r = vec![path];
            assert(strs(r@) =~= seq![r@[0]@]);
            Some(r)
        },
        Some(PathList::Many(paths)) => Some(paths),
    }
}

pub struct LibraryView {
    pub paths: Option<Seq<Seq<char>>>,
    pub docsettings_path: Option<Seq<char>>,
    pub hashdocsettings_path: Option<Seq<char>>,
    pub statistics_db: Option<Seq<Seq<char>>>,
    pub kobo_db: Option<Seq<char>>,
    pub include_unread: Option<bool>,
    pub retain_missing: Option<bool>,
}

impl View for LibrarySection {
    type V = LibraryView;

    open spec fn view(&self) -> LibraryView {
        LibraryView {
            paths: opt_strs(self.paths),
            docsettings_path: opt_str(self.docsettings_path),
            hashdocsettings_path: opt_str(self.hashdocsettings_path),
            statistics_db: opt_strs(self.statistics_db),
            kobo_db: opt_str(self.kobo_db),
            include_unread: self.include_unread,
            retain_missing: self.retain_missing,
        }
    }
}

pub struct KoshelfView {
    pub title: Option<Seq<char>>,
    pub language: Option<Seq<char>>,
    pub timezone: Option<Seq<char>>,
    pub data_path: Option<Seq<char>>,
}

impl View for KoshelfSection {
    type V = KoshelfView;

    open spec fn view(&self) -> KoshelfView {
        KoshelfView {
            title: opt_str(self.title),
            language: opt_str(self.language),
            timezone: opt_str(self.timezone),
            data_path: opt_str(self.data_path),
        }
    }
}

pub struct ServerView {
    pub port: Option<u16>,
    pub enable_auth: Option<bool>,
    pub enable_writeback: Option<bool>,
    pub trusted_proxies: Option<Seq<Seq<char>>>,
}

impl View for ServerSection {
    type V = ServerView;

    open spec fn view(&self) -> ServerView {
        ServerView {
            port: self.port,
            enable_auth: self.enable_auth,
            enable_writeback: self.enable_writeback,
            trusted_proxies: opt_strs(self.trusted_proxies),
        }
    }
}

pub struct OutputView {
    pub path: Option<Seq<char>>,
    pub include_files: Option<bool>,
    pub watch: Option<bool>,
}

impl View for OutputSection {
    type V = OutputView;

    open spec fn view(&self) -> OutputView {
        OutputView { path: opt_str(self.path), include_files: self.include_files, watch: self.watch }
    }
}

pub struct StatisticsView {
    pub heatmap_scale_max: Option<Seq<char>>,
    pub day_start_time: Option<Seq<char>>,
    pub min_pages_per_day: Option<u32>,
    pub min_time_per_day: Option<Seq<char>>,
    pub include_all_stats: Option<bool>,
    pub ignore_stable_page_metadata: Option<bool>,
}

impl View for StatisticsSection {
    type V = StatisticsView;

    open spec fn view(&self) -> StatisticsView {
        StatisticsView {
            heatmap_scale_max: opt_str(self.heatmap_scale_max),
            day_start_time: opt_str(self.day_start_time),
            min_pages_per_day: self.min_pages_per_day,
            min_time_per_day: opt_str(self.min_time_per_day),
            include_all_stats: self.include_all_stats,
            ignore_stable_page_metadata: self.ignore_stable_page_metadata,
        }
    }
}

pub struct FileConfigView {
    pub library: Option<LibraryView>,
    pub koshelf: Option<KoshelfView>,
    pub server: Option<ServerView>,
    pub output: Option<OutputView>,
    pub statistics: Option<StatisticsView>,
}

impl View for FileConfig {
    type V = FileConfigView;

    open spec fn view(&self) -> FileConfigView {
        FileConfigView {
            library: match self.library {
                Some(s) => Some(s@),
                None => None,
            },
            koshelf: match self.koshelf {
                Some(s) => Some(s@),
                None => None,
            },
            server: match self.server {
                Some(s) => Some(s@),
                None => None,
            },
            output: match self.output {
                Some(s) => Some(s@),
                None => None,
            },
            statistics: match self.statistics {
                Some(s) => Some(s@),
                None => None,
            },
        }
    }
}

} // verus!
