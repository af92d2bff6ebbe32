//! Checking the arguments of `serve` and `export` before anything runs.
//!
//! What the file system says of each path is handed in as plain facts: the
//! checks themselves, and their order, are proved here.

use vstd::prelude::*;
use crate::args::{opt_str, strs};
use crate::cli::{CommonArgs, CommonView, ExportArgs, ServeArgs};
use crate::duration::{parse_time_to_seconds, time_outcome, TimeParseError};
use crate::proxies::{parse_trusted_proxy_nets, first_rejected_proxy};
use crate::text::str_eq;

verus! {

/// What the file system says of one path.
#[derive(Debug, Clone, PartialEq, Eq)]
pub struct PathStatus {
    pub exists: bool,
    pub is_dir: bool,
    /// The canonical form of the path, where it could be resolved.
    pub canonical: Option<String>,
}

pub struct PathStatusView {
    pub exists: bool,
    pub is_dir: bool,
    pub canonical: Option<Seq<char>>,
}

impl View for PathStatus {
    type V = PathStatusView;

    open spec fn view(&self) -> PathStatusView {
        PathStatusView { exists: self.exists, is_dir: self.is_dir, canonical: opt_str(self.canonical) }
    }
}

/// The facts known of each path, by path.
pub open spec fn fs_view(fs: Seq<(String, PathStatus)>) -> Seq<(Seq<char>, PathStatusView)> {
    fs.map_values(|e: (String, PathStatus)| (e.0@, e.1@))
}

/// A path of which nothing is known: it does not exist.
pub open spec fn unknown_path() -> PathStatusView {
    PathStatusView { exists: false, is_dir: false, canonical: None }
}

/// The facts of the first entry for `p`, from index `from` on.
pub open spec fn status_from(fs: Seq<(Seq<char>, PathStatusView)>, p: Seq<char>, from: int) -> PathStatusView
    decreases fs.len() - from,
{
    if from < 0 || from >= fs.len() {
        unknown_path()
    } else if fs[from].0 == p {
        fs[from].1
    } else {
        status_from(fs, p, from + 1)
    }
}

pub open spec fn status_of(fs: Seq<(Seq<char>, PathStatusView)>, p: Seq<char>) -> PathStatusView {
    status_from(fs, p, 0)
}

/// Why the arguments were refused.
#[derive(Debug, Clone, Copy, PartialEq, Eq, Structural)]
pub enum ConfigError {
    /// Neither a library path nor a statistics database was given.
    NoLibraryOrStatistics,
    /// The library path at this index does not exist.
    LibraryPathMissing(usize),
    /// The library path at this index is not a directory.
    LibraryPathNotDirectory(usize),
    /// `--include-unread` was given without a library path.
    IncludeUnreadWithoutLibrary,
    /// Both `--docsettings-path` and `--hashdocsettings-path` were given.
    DocsettingsConflict,
    /// `--docsettings-path` was given without a library path.
    DocsettingsWithoutLibrary,
    /// `--hashdocsettings-path` was given without a library path.
    HashdocsettingsWithoutLibrary,
    /// `--kobo-db` was given without a library path.
    KoboDbWithoutLibrary,
    DocsettingsMissing,
    DocsettingsNotDirectory,
    HashdocsettingsMissing,
    HashdocsettingsNotDirectory,
    /// The statistics database at this index does not exist.
    StatisticsDbMissing(usize),
    /// The statistics database at this index names one given before it.
    StatisticsDbDuplicate(usize),
    KoboDbMissing,
    /// The data path exists and is not a directory.
    DataPathNotDirectory,
    /// `--heatmap-scale-max` is not a duration.
    InvalidHeatmapScaleMax(TimeParseError),
    /// `--min-time-per-day` is not a duration.
    InvalidMinTimePerDay(TimeParseError),
    /// `serve` needs `--data-path`.
    DataPathRequired,
    /// The trusted proxy at this index is not an IP address or network.
    InvalidTrustedProxy(usize),
    /// `export` needs an output directory.
    OutputRequired,
}

/// The message that tells a user what was refused.
pub open spec fn config_error_text(e: ConfigError) -> Seq<char> {
    match e {
        ConfigError::NoLibraryOrStatistics => "Either --library-path or --statistics-db (or both) must be provided"@,
        ConfigError::LibraryPathMissing(_) => "Library path does not exist"@,
        ConfigError::LibraryPathNotDirectory(_) => "Library path is not a directory"@,
        ConfigError::IncludeUnreadWithoutLibrary => "--include-unread can only be used when --library-path is provided"@,
        ConfigError::DocsettingsConflict => "--docsettings-path and --hashdocsettings-path are mutually exclusive. Please use only one."@,
        ConfigError::DocsettingsWithoutLibrary => "--docsettings-path requires --library-path to be provided"@,
        ConfigError::HashdocsettingsWithoutLibrary => "--hashdocsettings-path requires --library-path to be provided"@,
        ConfigError::KoboDbWithoutLibrary => "--kobo-db requires --library-path to be provided"@,
        ConfigError::DocsettingsMissing => "Docsettings path does not exist"@,
        ConfigError::DocsettingsNotDirectory => "Docsettings path is not a directory"@,
        ConfigError::HashdocsettingsMissing => "Hashdocsettings path does not exist"@,
        ConfigError::HashdocsettingsNotDirectory => "Hashdocsettings path is not a directory"@,
        ConfigError::StatisticsDbMissing(_) => "Statistics database does not exist"@,
        ConfigError::StatisticsDbDuplicate(_) => "Statistics database supplied twice"@,
        ConfigError::KoboDbMissing => "Kobo database does not exist"@,
        ConfigError::DataPathNotDirectory => "Data directory path is not a directory"@,
        ConfigError::InvalidHeatmapScaleMax(_) => "Invalid heatmap-scale-max format"@,
        ConfigError::InvalidMinTimePerDay(_) => "Invalid min-time-per-day format"@,
        ConfigError::DataPathRequired => "--data-path is required in serve mode for persistent data storage. Provide a directory path where KoShelf can store its database and cache files."@,
        ConfigError::InvalidTrustedProxy(_) => "Invalid trusted proxy entry. Expected IP or CIDR, for example 127.0.0.1/32"@,
        ConfigError::OutputRequired => "Output directory is required. Provide it as a positional argument, via KOSHELF_OUTPUT env var, or as [output].path in your config file."@,
    }
}

impl ConfigError {
    /// The message that tells a user what was refused.
    pub fn message(&self) -> (r: &'static str)
        ensures
            r@ == config_error_text(*self),
    {
        match self {
            ConfigError::NoLibraryOrStatistics => "Either --library-path or --statistics-db (or both) must be provided",
            ConfigError::LibraryPathMissing(_) => "Library path does not exist",
            ConfigError::LibraryPathNotDirectory(_) => "Library path is not a directory",
            ConfigError::IncludeUnreadWithoutLibrary => "--include-unread can only be used when --library-path is provided",
            ConfigError::DocsettingsConflict => "--docsettings-path and --hashdocsettings-path are mutually exclusive. Please use only one.",
            ConfigError::DocsettingsWithoutLibrary => "--docsettings-path requires --library-path to be provided",
            ConfigError::HashdocsettingsWithoutLibrary => "--hashdocsettings-path requires --library-path to be provided",
            ConfigError::KoboDbWithoutLibrary => "--kobo-db requires --library-path to be provided",
            ConfigError::DocsettingsMissing => "Docsettings path does not exist",
            ConfigError::DocsettingsNotDirectory => "Docsettings path is not a directory",
            ConfigError::HashdocsettingsMissing => "Hashdocsettings path does not exist",
            ConfigError::HashdocsettingsNotDirectory => "Hashdocsettings path is not a directory",
            ConfigError::StatisticsDbMissing(_) => "Statistics database does not exist",
            ConfigError::StatisticsDbDuplicate(_) => "Statistics database supplied twice",
            ConfigError::KoboDbMissing => "Kobo database does not exist",
            ConfigError::DataPathNotDirectory => "Data directory path is not a directory",
            ConfigError::InvalidHeatmapScaleMax(_) => "Invalid heatmap-scale-max format",
            ConfigError::InvalidMinTimePerDay(_) => "Invalid min-time-per-day format",
            ConfigError::DataPathRequired => "--data-path is required in serve mode for persistent data storage. Provide a directory path where KoShelf can store its database and cache files.",
            ConfigError::InvalidTrustedProxy(_) => "Invalid trusted proxy entry. Expected IP or CIDR, for example 127.0.0.1/32",
            ConfigError::OutputRequired => "Output directory is required. Provide it as a positional argument, via KOSHELF_OUTPUT env var, or as [output].path in your config file.",
        }
    }
}

/// The first library path, from index `i` on, that does not exist or is not a directory.
pub open spec fn library_path_error(paths: Seq<Seq<char>>, fs: Seq<(Seq<char>, PathStatusView)>, i: int) -> Option<ConfigError>
    decreases paths.len() - i,
{
    if i < 0 || i >= paths.len() {
        None
    } else if !status_of(fs, paths[i]).exists {
        Some(ConfigError::LibraryPathMissing(i as usize))
    } else if !status_of(fs, paths[i]).is_dir {
        Some(ConfigError::LibraryPathNotDirectory(i as usize))
    } else {
        library_path_error(paths, fs, i + 1)
    }
}

/// The key under which a statistics database is recognised: its canonical
/// form where it has one, else the path as given.
pub open spec fn db_key(fs: Seq<(Seq<char>, PathStatusView)>, p: Seq<char>) -> Seq<char> {
    match status_of(fs, p).canonical {
        Some(c) => c,
        None => p,
    }
}

/// The first statistics database, from index `i` on, that does not exist or
/// has the key of one before it.
pub open spec fn statistics_db_error(dbs: Seq<Seq<char>>, fs: Seq<(Seq<char>, PathStatusView)>, i: int) -> Option<ConfigError>
    decreases dbs.len() - i,
{
    if i < 0 || i >= dbs.len() {
        None
    } else if !status_of(fs, dbs[i]).exists {
        Some(ConfigError::StatisticsDbMissing(i as usize))
    } else if exists|j: int| 0 <= j < i && db_key(fs, dbs[j]) == db_key(fs, dbs[i]) {
        Some(ConfigError::StatisticsDbDuplicate(i as usize))
    } else {
        statistics_db_error(dbs, fs, i + 1)
    }
}

/// The checks on paths and on how the flags combine, in the order in which
/// they are made.
pub open spec fn path_checks(c: CommonView, fs: Seq<(Seq<char>, PathStatusView)>) -> Option<ConfigError> {
    if c.library_path.len() == 0 && c.statistics_db.len() == 0 {
        Some(ConfigError::NoLibraryOrStatistics)
    } else if library_path_error(c.library_path, fs, 0) is Some {
        library_path_error(c.library_path, fs, 0)
    } else if c.include_unread && c.library_path.len() == 0 {
        Some(ConfigError::IncludeUnreadWithoutLibrary)
    } else if c.docsettings_path is Some && c.hashdocsettings_path is Some {
        Some(ConfigError::DocsettingsConflict)
    } else if c.docsettings_path is Some && c.library_path.len() == 0 {
        Some(ConfigError::DocsettingsWithoutLibrary)
    } else if c.hashdocsettings_path is Some && c.library_path.len() == 0 {
        Some(ConfigError::HashdocsettingsWithoutLibrary)
    } else if c.kobo_db is Some && c.library_path.len() == 0 {
        Some(ConfigError::KoboDbWithoutLibrary)
    } else if c.docsettings_path matches Some(d) && !status_of(fs, d).exists {
        Some(ConfigError::DocsettingsMissing)
    } else if c.docsettings_path matches Some(d) && !status_of(fs, d).is_dir {
        Some(ConfigError::DocsettingsNotDirectory)
    } else if c.hashdocsettings_path matches Some(d) && !status_of(fs, d).exists {
        Some(ConfigError::HashdocsettingsMissing)
    } else if c.hashdocsettings_path matches Some(d) && !status_of(fs, d).is_dir {
        Some(ConfigError::HashdocsettingsNotDirectory)
    } else if statistics_db_error(c.statistics_db, fs, 0) is Some {
        statistics_db_error(c.statistics_db, fs, 0)
    } else if c.kobo_db matches Some(k) && !status_of(fs, k).exists {
        Some(ConfigError::KoboDbMissing)
    } else if c.data_path matches Some(d) && status_of(fs, d).exists && !status_of(fs, d).is_dir {
        Some(ConfigError::DataPathNotDirectory)
    } else {
        None
    }
}

/// The outcome of checking the shared flags.
pub open spec fn common_check(c: CommonView, fs: Seq<(Seq<char>, PathStatusView)>) -> Result<(), ConfigError> {
    match path_checks(c, fs) {
        Some(e) => Err(e),
        None => match time_outcome(c.heatmap_scale_max) {
            Err(e) => Err(ConfigError::InvalidHeatmapScaleMax(e)),
            Ok(_) => match c.min_time_per_day {
                Some(m) => match time_outcome(m) {
                    Err(e) => Err(ConfigError::InvalidMinTimePerDay(e)),
                    Ok(_) => Ok(()),
                },
                None => Ok(()),
            },
        },
    }
}

/// The facts known of `p`, as `status_of` states.
pub fn status_exec(fs: &Vec<(String, PathStatus)>, p: &str) -> (r: PathStatus)
    ensures
        r@ == status_of(fs_view(fs@), p@),
{
    let ghost fv = fs_view(fs@);
    let mut i: usize = 0;
    while i < fs.len()
        invariant
            fv == fs_view(fs@),
            i <= fs@.len(),
            status_from(fv, p@, 0) == status_from(fv, p@, i as int),
        decreases fs@.len() - i,
    {
        assert(fv[i as int] == (fs@[i as int].0@, fs@[i as int].1@));
        if str_eq(fs[i].0.as_str(), p) {
            let s = &fs[i].1;
            return PathStatus { exists: s.exists, is_dir: s.is_dir, canonical: s.canonical.clone() };
        }
        i = i + 1;
    }
    PathStatus { exists: false, is_dir: false, canonical: None }
}

fn library_path_error_exec(paths: &Vec<String>, fs: &Vec<(String, PathStatus)>) -> (r: Option<ConfigError>)
    ensures
        r == library_path_error(strs(paths@), fs_view(fs@), 0),
{
    let ghost pv = strs(paths@);
    let ghost fv = fs_view(fs@);
    let mut i: usize = 0;
    while i < paths.len()
        invariant
            pv == strs(paths@),
            fv == fs_view(fs@),
            i <= paths@.len(),
            library_path_error(pv, fv, 0) == library_path_error(pv, fv, i as int),
        decreases paths@.len() - i,
    {
        let st = status_exec(fs, paths[i].as_str());
        assert(pv[i as int] == paths@[i as int]@);
        if !st.exists {
            return Some(ConfigError::LibraryPathMissing(i));
        }
        if !st.is_dir {
            return Some(ConfigError::LibraryPathNotDirectory(i));
        }
        i = i + 1;
    }
    None
}

/// The key of a statistics database, as `db_key` states.
fn db_key_exec(fs: &Vec<(String, PathStatus)>, p: &String) -> (r: String)
    ensures
        r@ == db_key(fs_view(fs@), p@),
{
    let st = status_exec(fs, p.as_str());
    match st.canonical {
        Some(c) => c,
        None => p.clone(),
    }
}

fn statistics_db_error_exec(dbs: &Vec<String>, fs: &Vec<(String, PathStatus)>) -> (r: Option<ConfigError>)
    ensures
        r == statistics_db_error(strs(dbs@), fs_view(fs@), 0),
{
    let ghost dv = strs(dbs@);
    let ghost fv = fs_view(fs@);
    let mut seen: Vec<String> = Vec::new();
    let mut i: usize = 0;
    while i < dbs.len()
        invariant
            dv == strs(dbs@),
            fv == fs_view(fs@),
            i <= dbs@.len(),
            seen@.len() == i,
            forall|j: int| 0 <= j < i ==> #[trigger] seen@[j]@ == db_key(fv, dv[j]),
            statistics_db_error(dv, fv, 0) == statistics_db_error(dv, fv, i as int),
        decreases dbs@.len() - i,
    {
        assert(dv[i as int] == dbs@[i as int]@);
        let st = status_exec(fs, dbs[i].as_str());
        if !st.exists {
            return Some(ConfigError::StatisticsDbMissing(i));
        }
        let key = db_key_exec(fs, &dbs[i]);
        let mut j: usize = 0;
        #[verifier::loop_isolation(false)]
        while j < seen.len()
            invariant
                seen@.len() == i,
                i < dv.len(),
                key@ == db_key(fv, dv[i as int]),
                j <= i,
                forall|k: int| 0 <= k < i ==> #[trigger] seen@[k]@ == db_key(fv, dv[k]),
                forall|k: int| 0 <= k < j ==> db_key(fv, dv[k]) != db_key(fv, dv[i as int]),
            decreases i - j,
        {
            if str_eq(seen[j].as_str(), key.as_str()) {
                assert(db_key(fv, dv[j as int]) == db_key(fv, dv[i as int]));
                return Some(ConfigError::StatisticsDbDuplicate(i));
            }
            j = j + 1;
        }
        seen.push(key);
        i = i + 1;
    }
    None
}

impl CommonArgs {
    /// Checks the shared flags against each other and against the file
    /// system facts `fs`: what `common_check` states.
    pub fn validate(&self, fs: &Vec<(String, PathStatus)>) -> (r: Result<(), ConfigError>)
        ensures
            r == common_check(self@, fs_view(fs@)),
    {
        let ghost fv = fs_view(fs@);
        let ghost c = self@;
        if self.library_path.len() == 0 && self.statistics_db.len() == 0 {
            return Err(ConfigError::NoLibraryOrStatistics);
        }
        if let Some(e) = library_path_error_exec(&self.library_path, fs) {
            return Err(e);
        }
        let no_library = self.library_path.len() == 0;
        if self.include_unread && no_library {
            return Err(ConfigError::IncludeUnreadWithoutLibrary);
        }
        if self.docsettings_path.is_some() && self.hashdocsettings_path.is_some() {
            return Err(ConfigError::DocsettingsConflict);
        }
        if self.docsettings_path.is_some() && no_library {
            return Err(ConfigError::DocsettingsWithoutLibrary);
        }
        if self.hashdocsettings_path.is_some() && no_library {
            return Err(ConfigError::HashdocsettingsWithoutLibrary);
        }
        if self.kobo_db.is_some() && no_library {
            return Err(ConfigError::KoboDbWithoutLibrary);
        }
        if let Some(d) = &self.docsettings_path {
            let st = status_exec(fs, d.as_str());
            if !st.exists {
                return Err(ConfigError::DocsettingsMissing);
            }
            if !st.is_dir {
                return Err(ConfigError::DocsettingsNotDirectory);
            }
        }
        if let Some(d) = &self.hashdocsettings_path {
            let st = status_exec(fs, d.as_str());
            if !st.exists {
                return Err(ConfigError::HashdocsettingsMissing);
            }
            if !st.is_dir {
                return Err(ConfigError::HashdocsettingsNotDirectory);
            }
        }
        if let Some(e) = statistics_db_error_exec(&self.statistics_db, fs) {
            return Err(e);
        }
        if let Some(k) = &self.kobo_db {
            let st = status_exec(fs, k.as_str());
            if !st.exists {
                return Err(ConfigError::KoboDbMissing);
            }
        }
        if let Some(d) = &self.data_path {
            let st = status_exec(fs, d.as_str());
            if st.exists && !st.is_dir {
                return Err(ConfigError::DataPathNotDirectory);
            }
        }
        assert(path_checks(c, fv) is None);
        if let Err(e) = parse_time_to_seconds(self.heatmap_scale_max.as_str()) {
            return Err(ConfigError::InvalidHeatmapScaleMax(e));
        }
        if let Some(m) = &self.min_time_per_day {
            if let Err(e) = parse_time_to_seconds(m.as_str()) {
                return Err(ConfigError::InvalidMinTimePerDay(e));
            }
        }
        Ok(())
    }
}

/// The outcome of checking the arguments of `serve`.
pub open spec fn serve_check(c: CommonView, data_path_given: bool, proxies: Seq<Seq<char>>, fs: Seq<(Seq<char>, PathStatusView)>) -> Result<(), ConfigError> {
    match common_check(c, fs) {
        Err(e) => Err(e),
        Ok(_) => if !data_path_given {
            Err(ConfigError::DataPathRequired)
        } else {
            match first_rejected_proxy(proxies, 0) {
                Some(i) => Err(ConfigError::InvalidTrustedProxy(i as usize)),
                None => Ok(()),
            }
        },
    }
}

impl ServeArgs {
    /// Checks the arguments of `serve`: the shared flags, then that a data
    /// path is given, then that each trusted proxy is an IP address or network.
    pub fn validate(&self, fs: &Vec<(String, PathStatus)>) -> (r: Result<(), ConfigError>)
        ensures
            r == serve_check(self.common@, self.common.data_path is Some, strs(self.trusted_proxies@), fs_view(fs@)),
    {
        self.common.validate(fs)?;
        if self.common.data_path.is_none() {
            return Err(ConfigError::DataPathRequired);
        }
        match parse_trusted_proxy_nets(&self.trusted_proxies) {
            Ok(_) => Ok(()),
            Err(e) => Err(e),
        }
    }
}

/// The outcome of checking the arguments of `export`.
pub open spec fn export_check(c: CommonView, output_given: bool, fs: Seq<(Seq<char>, PathStatusView)>) -> Result<(), ConfigError> {
    match common_check(c, fs) {
        Err(e) => Err(e),
        Ok(_) => if !output_given {
            Err(ConfigError::OutputRequired)
        } else {
            Ok(())
        },
    }
}

impl ExportArgs {
    /// Checks the arguments of `export`: the shared flags, then that an
    /// output directory is given.
    pub fn validate(&self, fs: &Vec<(String, PathStatus)>) -> (r: Result<(), ConfigError>)
        ensures
            r == export_check(self.common@, self.output is Some, fs_view(fs@)),
    {
        self.common.validate(fs)?;
        if self.output.is_none() {
            return Err(ConfigError::OutputRequired);
        }
        Ok(())
    }
}


// ── The law of the shared checks ──────────────────────────────────────

/// What the shared flags must be for the checks to accept them: something
/// to read; every library path a directory; `--include-unread`,
/// `--docsettings-path`, `--hashdocsettings-path` and `--kobo-db` only with
/// a library; not both docsettings folders, and each given one a directory;
/// every statistics database existing and none named twice (by canonical
/// path); a given Kobo database existing; a data path that exists being a
/// directory; and both durations readable.
pub open spec fn common_args_acceptable(c: CommonView, fs: Seq<(Seq<char>, PathStatusView)>) -> bool {
    let libs = c.library_path;
    let dbs = c.statistics_db;
    &&& libs.len() > 0 || dbs.len() > 0
    &&& forall|i: int| 0 <= i < libs.len() ==> #[trigger] status_of(fs, libs[i]).exists && status_of(fs, libs[i]).is_dir
    &&& !(c.include_unread && libs.len() == 0)
    &&& !(c.docsettings_path is Some && c.hashdocsettings_path is Some)
    &&& (c.docsettings_path is Some || c.hashdocsettings_path is Some || c.kobo_db is Some) ==> libs.len() > 0
    &&& (c.docsettings_path matches Some(d) ==> status_of(fs, d).exists && status_of(fs, d).is_dir)
    &&& (c.hashdocsettings_path matches Some(h) ==> status_of(fs, h).exists && status_of(fs, h).is_dir)
    &&& forall|i: int| 0 <= i < dbs.len() ==> #[trigger] status_of(fs, dbs[i]).exists
    &&& forall|i: int, j: int| 0 <= i < j < dbs.len() ==> #[trigger] db_key(fs, dbs[i]) != #[trigger] db_key(fs, dbs[j])
    &&& (c.kobo_db matches Some(k) ==> status_of(fs, k).exists)
    &&& (c.data_path matches Some(d) ==> (status_of(fs, d).exists ==> status_of(fs, d).is_dir))
    &&& time_outcome(c.heatmap_scale_max) is Ok
    &&& (c.min_time_per_day matches Some(m) ==> time_outcome(m) is Ok)
}

proof fn lemma_library_paths_ok(paths: Seq<Seq<char>>, fs: Seq<(Seq<char>, PathStatusView)>, i: int)
    requires
        0 <= i <= paths.len(),
    ensures
        library_path_error(paths, fs, i) is None <==> forall|j: int|
            i <= j < paths.len() ==> #[trigger] status_of(fs, paths[j]).exists && status_of(fs, paths[j]).is_dir,
    decreases paths.len() - i,
{
    if i < paths.len() {
        lemma_library_paths_ok(paths, fs, i + 1);
    }
}

proof fn lemma_statistics_dbs_ok(dbs: Seq<Seq<char>>, fs: Seq<(Seq<char>, PathStatusView)>, i: int)
    requires
        0 <= i <= dbs.len(),
    ensures
        statistics_db_error(dbs, fs, i) is None <==> {
            &&& forall|j: int| i <= j < dbs.len() ==> #[trigger] status_of(fs, dbs[j]).exists
            &&& forall|k: int, j: int| 0 <= k < j && i <= j < dbs.len() ==> #[trigger] db_key(fs, dbs[k]) != #[trigger] db_key(fs, dbs[j])
        },
    decreases dbs.len() - i,
{
    if i < dbs.len() {
        lemma_statistics_dbs_ok(dbs, fs, i + 1);
        if status_of(fs, dbs[i]).exists && exists|k: int| 0 <= k < i && db_key(fs, dbs[k]) == db_key(fs, dbs[i]) {
            let k = choose|k: int| 0 <= k < i && db_key(fs, dbs[k]) == db_key(fs, dbs[i]);
            assert(db_key(fs, dbs[k]) == db_key(fs, dbs[i]));
        }
    }
}

/// The shared checks accept the flags exactly when `common_args_acceptable` holds.
pub proof fn shared_checks_accept_exactly(c: CommonView, fs: Seq<(Seq<char>, PathStatusView)>)
    ensures
        common_check(c, fs) is Ok <==> common_args_acceptable(c, fs),
{
    lemma_library_paths_ok(c.library_path, fs, 0);
    lemma_statistics_dbs_ok(c.statistics_db, fs, 0);
}

} // verus!
