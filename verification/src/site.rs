//! The configuration that site generation and file watching run with, built
//! from the checked arguments of `serve` or `export`.

use vstd::prelude::*;
use crate::args::{clone_strings, opt_str, strs};
use crate::cli::{CommonArgs, CommonView};
use crate::duration::{parse_time_to_seconds, time_outcome, TimeParseError};

verus! {

// ── Where KOReader keeps its metadata ─────────────────────────────────

/// Where to look for KOReader's metadata of each book.
#[derive(Debug, Clone, PartialEq, Eq)]
pub enum MetadataLocation {
    /// In a `<book>.sdr` folder beside each book.
    InBookFolder,
    /// Under KOReader's docsettings folder, mirroring the book's path.
    DocSettings(String),
    /// Under KOReader's hashdocsettings folder, by the hash of the book.
    HashDocSettings(String),
}

pub enum MetadataLocationView {
    InBookFolder,
    DocSettings(Seq<char>),
    HashDocSettings(Seq<char>),
}

impl View for MetadataLocation {
    type V = MetadataLocationView;

    open spec fn view(&self) -> MetadataLocationView {
        match self {
            MetadataLocation::InBookFolder => MetadataLocationView::InBookFolder,
            MetadataLocation::DocSettings(p) => MetadataLocationView::DocSettings(p@),
            MetadataLocation::HashDocSettings(p) => MetadataLocationView::HashDocSettings(p@),
        }
    }
}

/// The docsettings folder where one is given, else the hashdocsettings
/// folder where one is given, else beside each book.
pub open spec fn metadata_location_of(c: CommonView) -> MetadataLocationView {
    match c.docsettings_path {
        Some(p) => MetadataLocationView::DocSettings(p),
        None => match c.hashdocsettings_path {
            Some(p) => MetadataLocationView::HashDocSettings(p),
            None => MetadataLocationView::InBookFolder,
        },
    }
}

/// Where KOReader's metadata is read from, as the arguments say.
pub fn metadata_location(common: &CommonArgs) -> (r: MetadataLocation)
    ensures
        r@ == metadata_location_of(common@),
{
    if let Some(p) = &common.docsettings_path {
        MetadataLocation::DocSettings(p.clone())
    } else if let Some(p) = &common.hashdocsettings_path {
        MetadataLocation::HashDocSettings(p.clone())
    } else {
        MetadataLocation::InBookFolder
    }
}

// ── Where runtime data lives ──────────────────────────────────────────

/// What the runtime data policy is resolved from.
#[derive(Debug, Clone, PartialEq, Eq, Default)]
pub struct RuntimeDataPathOptions {
    pub data_path: Option<String>,
}

/// Where runtime data such as the library database is kept: in a given
/// directory that outlives the run, or in a temporary one.
#[derive(Debug, Clone, PartialEq, Eq)]
pub struct RuntimeDataPolicy {
    /// Whether the directory was given and outlives the run.
    pub persistent: bool,
    /// The directory, once known.
    pub data_dir: Option<String>,
}

pub struct RuntimeDataPolicyView {
    pub persistent: bool,
    pub data_dir: Option<Seq<char>>,
}

impl View for RuntimeDataPolicy {
    type V = RuntimeDataPolicyView;

    open spec fn view(&self) -> RuntimeDataPolicyView {
        RuntimeDataPolicyView { persistent: self.persistent, data_dir: opt_str(self.data_dir) }
    }
}

/// A given data path is kept for good; without one the data is temporary
/// and its directory is set once it has been made.
pub fn resolve_runtime_data_policy(options: &RuntimeDataPathOptions) -> (r: RuntimeDataPolicy)
    ensures
        r.persistent == options.data_path is Some,
        r@.data_dir == opt_str(options.data_path),
{
    match &options.data_path {
        Some(p) => RuntimeDataPolicy { persistent: true, data_dir: Some(p.clone()) },
        None => RuntimeDataPolicy { persistent: false, data_dir: None },
    }
}

/// The runtime data policy of the arguments: persistent exactly when a data path is given.
pub fn resolve_data_policy(common: &CommonArgs) -> (r: RuntimeDataPolicy)
    ensures
        r.persistent == common.data_path is Some,
        r@.data_dir == opt_str(common.data_path),
{
    resolve_runtime_data_policy(&RuntimeDataPathOptions { data_path: common.data_path.clone() })
}

impl RuntimeDataPolicy {
    /// Whether the data outlives the run.
    pub fn is_persistent(&self) -> (r: bool)
        ensures
            r == self.persistent,
    {
        self.persistent
    }

    /// The directory that outlives the run, where there is one.
    pub fn persistent_data_dir(&self) -> (r: Option<&String>)
        ensures
            match r {
                Some(d) => self.persistent && self.data_dir == Some(*d),
                None => !self.persistent || self.data_dir is None,
            },
    {
        if self.persistent {
            match &self.data_dir {
                Some(d) => Some(d),
                None => None,
            }
        } else {
            None
        }
    }

    /// Records the directory that was made for the data.
    pub fn set_resolved_data_dir(&mut self, dir: String)
        ensures
            final(self).persistent == old(self).persistent,
            final(self)@.data_dir == Some(dir@),
    {
        self.data_dir = Some(dir);
    }
}

// ── The site configuration ────────────────────────────────────────────

/// Configuration for site generation and file watching. `T` is the time
/// zone configuration, made from `--timezone` and `--day-start-time`.
#[derive(Clone)]
pub struct SiteConfig<T> {
    /// Output directory of the generated site.
    pub output_dir: String,
    pub site_title: String,
    pub include_unread: bool,
    /// Whether an item whose file has gone is kept, with its annotations.
    pub retain_missing: bool,
    pub library_paths: Vec<String>,
    pub metadata_location: MetadataLocation,
    /// Statistics databases (none, one, or several that are merged).
    pub statistics_db_paths: Vec<String>,
    pub kobo_db_path: Option<String>,
    /// Upper end of the heatmap scale in seconds; `None` for automatic.
    pub heatmap_scale_max: Option<u32>,
    pub time_config: T,
    pub min_pages_per_day: Option<u32>,
    /// Minimum reading time per day in seconds; `None` for no minimum.
    pub min_time_per_day: Option<u32>,
    pub include_all_stats: bool,
    /// Whether the internal web server runs (and takes runtime updates).
    pub is_internal_server: bool,
    pub language: String,
    /// Whether KOReader's stable page numbers are used for page totals.
    pub use_stable_page_metadata: bool,
    pub auth_enabled: bool,
    pub writeback_enabled: bool,
    /// Whether the static export carries the item files.
    pub include_files: bool,
    pub runtime_data_policy: RuntimeDataPolicy,
}

pub struct SiteConfigView<T> {
    pub output_dir: Seq<char>,
    pub site_title: Seq<char>,
    pub include_unread: bool,
    pub retain_missing: bool,
    pub library_paths: Seq<Seq<char>>,
    pub metadata_location: MetadataLocationView,
    pub statistics_db_paths: Seq<Seq<char>>,
    pub kobo_db_path: Option<Seq<char>>,
    pub heatmap_scale_max: Option<u32>,
    pub time_config: T,
    pub min_pages_per_day: Option<u32>,
    pub min_time_per_day: Option<u32>,
    pub include_all_stats: bool,
    pub is_internal_server: bool,
    pub language: Seq<char>,
    pub use_stable_page_metadata: bool,
    pub auth_enabled: bool,
    pub writeback_enabled: bool,
    pub include_files: bool,
    pub runtime_data_policy: RuntimeDataPolicyView,
}

impl<T> View for SiteConfig<T> {
    type V = SiteConfigView<T>;

    open spec fn view(&self) -> SiteConfigView<T> {
        SiteConfigView {
            output_dir: self.output_dir@,
            site_title: self.site_title@,
            include_unread: self.include_unread,
            retain_missing: self.retain_missing,
            library_paths: strs(self.library_paths@),
            metadata_location: self.metadata_location@,
            statistics_db_paths: strs(self.statistics_db_paths@),
            kobo_db_path: opt_str(self.kobo_db_path),
            heatmap_scale_max: self.heatmap_scale_max,
            time_config: self.time_config,
            min_pages_per_day: self.min_pages_per_day,
            min_time_per_day: self.min_time_per_day,
            include_all_stats: self.include_all_stats,
            is_internal_server: self.is_internal_server,
            language: self.language@,
            use_stable_page_metadata: self.use_stable_page_metadata,
            auth_enabled: self.auth_enabled,
            writeback_enabled: self.writeback_enabled,
            include_files: self.include_files,
            runtime_data_policy: self.runtime_data_policy@,
        }
    }
}

/// Why no site configuration could be built.
#[derive(Debug, Clone, PartialEq, Eq)]
pub enum SiteConfigError<E> {
    /// `--heatmap-scale-max` is not a duration.
    InvalidHeatmapScaleMax(TimeParseError),
    /// `--min-time-per-day` is not a duration.
    InvalidMinTimePerDay(TimeParseError),
    /// The time zone configuration was refused.
    TimeConfig(E),
}

/// What `--min-time-per-day` reads as: no minimum when it is absent.
pub open spec fn min_time_outcome(m: Option<Seq<char>>) -> Result<Option<u32>, TimeParseError> {
    match m {
        Some(s) => time_outcome(s),
        None => Ok(None),
    }
}

/// The site configuration of the arguments `c`, or the first refusal: the
/// heatmap scale, then the minimum time per day, then the time zone
/// configuration `time_config`.
pub open spec fn site_config_outcome<T, E>(
    c: CommonView,
    output_dir: Seq<char>,
    is_internal_server: bool,
    auth_enabled: bool,
    writeback_enabled: bool,
    include_files: bool,
    policy: RuntimeDataPolicyView,
    time_config: Result<T, E>,
) -> Result<SiteConfigView<T>, SiteConfigError<E>> {
    match time_outcome(c.heatmap_scale_max) {
        Err(e) => Err(SiteConfigError::InvalidHeatmapScaleMax(e)),
        Ok(heatmap) => match min_time_outcome(c.min_time_per_day) {
            Err(e) => Err(SiteConfigError::InvalidMinTimePerDay(e)),
            Ok(min_time) => match time_config {
                Err(e) => Err(SiteConfigError::TimeConfig(e)),
                Ok(tc) => Ok(
                    SiteConfigView {
                        output_dir,
                        site_title: c.title,
                        include_unread: c.include_unread,
                        retain_missing: c.retain_missing,
                        library_paths: c.library_path,
                        metadata_location: metadata_location_of(c),
                        statistics_db_paths: c.statistics_db,
                        kobo_db_path: c.kobo_db,
                        heatmap_scale_max: heatmap,
                        time_config: tc,
                        min_pages_per_day: c.min_pages_per_day,
                        min_time_per_day: min_time,
                        include_all_stats: c.include_all_stats,
                        is_internal_server,
                        language: c.language,
                        use_stable_page_metadata: !c.ignore_stable_page_metadata,
                        auth_enabled,
                        writeback_enabled,
                        include_files,
                        runtime_data_policy: policy,
                    },
                ),
            },
        },
    }
}

/// Builds the site configuration from checked arguments. `time_config` is
/// the time zone configuration made from `--timezone` and `--day-start-time`,
/// or why it was refused.
pub fn build_site_config<T, E>(
    common: &CommonArgs,
    output_dir: String,
    is_internal_server: bool,
    auth_enabled: bool,
    writeback_enabled: bool,
    include_files: bool,
    runtime_data_policy: RuntimeDataPolicy,
    time_config: Result<T, E>,
) -> (r: Result<SiteConfig<T>, SiteConfigError<E>>)
    ensures
        match r {
            Ok(s) => site_config_outcome(
                common@,
                output_dir@,
                is_internal_server,
                auth_enabled,
                writeback_enabled,
                include_files,
                runtime_data_policy@,
                time_config,
            ) == Ok::<SiteConfigView<T>, SiteConfigError<E>>(s@),
            Err(e) => site_config_outcome(
                common@,
                output_dir@,
                is_internal_server,
                auth_enabled,
                writeback_enabled,
                include_files,
                runtime_data_policy@,
                time_config,
            ) == Err::<SiteConfigView<T>, SiteConfigError<E>>(e),
        },
{
    let heatmap_scale_max = match parse_time_to_seconds(common.heatmap_scale_max.as_str()) {
        Ok(v) => v,
        Err(e) => return Err(SiteConfigError::InvalidHeatmapScaleMax(e)),
    };
    let min_time_per_day = match &common.min_time_per_day {
        Some(m) => match parse_time_to_seconds(m.as_str()) {
            Ok(v) => v,
            Err(e) => return Err(SiteConfigError::InvalidMinTimePerDay(e)),
        },
        None => None,
    };
    let time_config = match time_config {
        Ok(tc) => tc,
        Err(e) => return Err(SiteConfigError::TimeConfig(e)),
    };
    Ok(
        SiteConfig {
            output_dir,
            site_title: common.title.clone(),
            include_unread: common.include_unread,
            retain_missing: common.retain_missing,
            library_paths: clone_strings(&common.library_path),
            metadata_location: metadata_location(common),
            statistics_db_paths: clone_strings(&common.statistics_db),
            kobo_db_path: common.kobo_db.clone(),
            heatmap_scale_max,
            time_config,
            min_pages_per_day: common.min_pages_per_day,
            min_time_per_day,
            include_all_stats: common.include_all_stats,
            is_internal_server,
            language: common.language.clone(),
            use_stable_page_metadata: !common.ignore_stable_page_metadata,
            auth_enabled,
            writeback_enabled,
            include_files,
            runtime_data_policy,
        },
    )
}

// ── What the site tells its clients ───────────────────────────────────

/// What the site can offer, as its clients are told.
#[derive(Debug, Clone, Copy, PartialEq, Eq)]
pub struct SiteCapabilities {
    pub has_books: bool,
    pub has_comics: bool,
    pub has_reading_data: bool,
    /// Item files are served or exported.
    pub has_files: bool,
    pub has_writeback: bool,
}

/// The capabilities of a site: files are offered by the internal server or
/// when the export carries them; writeback where it is enabled.
pub fn site_capabilities<T>(config: &SiteConfig<T>, has_books: bool, has_comics: bool, has_reading_data: bool) -> (r: SiteCapabilities)
    ensures
        r.has_books == has_books,
        r.has_comics == has_comics,
        r.has_reading_data == has_reading_data,
        r.has_files == (config.is_internal_server || config.include_files),
        r.has_writeback == config.writeback_enabled,
{
    SiteCapabilities {
        has_books,
        has_comics,
        has_reading_data,
        has_files: config.is_internal_server || config.include_files,
        has_writeback: config.writeback_enabled,
    }
}


// ── Starting the pipeline ─────────────────────────────────────────────

/// Why the pipeline cannot start.
#[derive(Debug, Clone, Copy, PartialEq, Eq, Structural)]
pub enum StartupError {
    /// The internal server keeps its data for good, so it needs `--data-path`.
    DataPathRequired,
}

/// What starting the pipeline takes, decided from its configuration before
/// any of it is done.
#[derive(Debug, Clone, PartialEq, Eq)]
pub struct PipelinePlan {
    /// Make a temporary directory for the runtime data (none was given).
    pub make_temp_data_dir: bool,
    /// The data directory to create before the library database is opened.
    pub create_data_dir: Option<String>,
    /// Bring the library database in line with the library folders.
    pub sync_library: bool,
    /// After the sync, remove cover files of items that are gone.
    pub clean_stale_covers: bool,
    /// After the sync, remove file links of items that are gone.
    pub clean_stale_files: bool,
    /// Tell clients that a password is needed.
    pub offer_auth: bool,
}

/// What starting the pipeline with `config` takes: a temporary data
/// directory unless the data is persistent; for the internal server, the
/// persistent data directory, which must exist; a library sync when there
/// are library folders, followed by removing the covers of items that are
/// gone, and the file links of such items only where the server
/// offers files; and authentication where it is enabled.
pub fn pipeline_plan<T>(config: &SiteConfig<T>) -> (r: Result<PipelinePlan, StartupError>)
    ensures
        match r {
            Ok(p) => {
                &&& p.make_temp_data_dir == !config.runtime_data_policy.persistent
                &&& (config.is_internal_server ==> config.runtime_data_policy.persistent
                    && config.runtime_data_policy.data_dir is Some
                    && opt_str(p.create_data_dir) == opt_str(config.runtime_data_policy.data_dir))
                &&& (!config.is_internal_server ==> p.create_data_dir is None)
                &&& p.sync_library == (config.library_paths@.len() > 0)
                &&& p.clean_stale_covers == (config.library_paths@.len() > 0)
                &&& p.clean_stale_files == (config.library_paths@.len() > 0 && config.is_internal_server)
                &&& p.offer_auth == config.auth_enabled
            },
            Err(e) => {
                &&& e == StartupError::DataPathRequired
                &&& config.is_internal_server
                &&& !(config.runtime_data_policy.persistent && config.runtime_data_policy.data_dir is Some)
            },
        },
{
    let create_data_dir = if config.is_internal_server {
        match config.runtime_data_policy.persistent_data_dir() {
            Some(d) => Some(d.clone()),
            None => return Err(StartupError::DataPathRequired),
        }
    } else {
        None
    };
    let sync_library = config.library_paths.len() > 0;
    Ok(
        PipelinePlan {
            make_temp_data_dir: !config.runtime_data_policy.is_persistent(),
            create_data_dir,
            sync_library,
            clean_stale_covers: sync_library,
            clean_stale_files: sync_library && config.is_internal_server,
            offer_auth: config.auth_enabled,
        },
    )
}


/// How long a password must be, as clients are told.
#[derive(Debug, Clone, Copy, PartialEq, Eq, Structural)]
pub struct PasswordPolicy {
    pub min_chars: u32,
}

/// Authentication as clients are told of it.
#[derive(Debug, Clone, Copy, PartialEq, Eq, Structural)]
pub struct SiteAuth {
    pub authenticated: bool,
    pub password_policy: PasswordPolicy,
}

/// What clients are told of the site.
#[derive(Debug, Clone, PartialEq, Eq)]
pub struct SiteData {
    pub title: String,
    pub language: String,
    pub capabilities: SiteCapabilities,
    pub auth: Option<SiteAuth>,
}

/// Whether there is reading data to show: statistics were loaded
/// (`page_stats`, the number of page statistics, is `Some`) and hold a page.
pub fn has_reading_data(page_stats: Option<usize>) -> (r: bool)
    ensures
        r == (page_stats matches Some(n) && n > 0),
{
    match page_stats {
        Some(n) => n > 0,
        None => false,
    }
}

/// What clients are told of the site: its title and language, its
/// capabilities, and, where `offer_auth` and authentication is enabled, that
/// a password of at least `min_password_chars` characters is needed and the
/// client is not yet signed in.
pub fn site_data<T>(config: &SiteConfig<T>, capabilities: SiteCapabilities, offer_auth: bool, min_password_chars: u32) -> (r: SiteData)
    ensures
        r.title@ == config.site_title@,
        r.language@ == config.language@,
        r.capabilities == capabilities,
        r.auth == if offer_auth && config.auth_enabled {
            Some(SiteAuth { authenticated: false, password_policy: PasswordPolicy { min_chars: min_password_chars } })
        } else {
            None::<SiteAuth>
        },
{
    let auth = if offer_auth && config.auth_enabled {
        Some(SiteAuth { authenticated: false, password_policy: PasswordPolicy { min_chars: min_password_chars } })
    } else {
        None
    };
    SiteData { title: config.site_title.clone(), language: config.language.clone(), capabilities, auth }
}


/// The site configuration takes each setting from the argument of the same
/// meaning: it is built exactly when both durations read and the time
/// configuration was made, and then every field copies its argument (the
/// durations in seconds, the stable page setting negated).
pub proof fn site_config_copies_the_arguments<T, E>(
    c: CommonView,
    output_dir: Seq<char>,
    is_internal_server: bool,
    auth_enabled: bool,
    writeback_enabled: bool,
    include_files: bool,
    policy: RuntimeDataPolicyView,
    time_config: Result<T, E>,
)
    ensures
        site_config_outcome(c, output_dir, is_internal_server, auth_enabled, writeback_enabled, include_files, policy, time_config) is Ok
            <==> (time_outcome(c.heatmap_scale_max) is Ok && (c.min_time_per_day matches Some(m) ==> time_outcome(m) is Ok)
            && time_config is Ok),
        site_config_outcome(c, output_dir, is_internal_server, auth_enabled, writeback_enabled, include_files, policy, time_config) matches Ok(s) ==> {
            &&& s.output_dir == output_dir
            &&& s.site_title == c.title
            &&& s.include_unread == c.include_unread
            &&& s.retain_missing == c.retain_missing
            &&& s.library_paths == c.library_path
            &&& s.statistics_db_paths == c.statistics_db
            &&& s.kobo_db_path == c.kobo_db
            &&& Ok::<Option<u32>, TimeParseError>(s.heatmap_scale_max) == time_outcome(c.heatmap_scale_max)
            &&& Ok::<T, E>(s.time_config) == time_config
            &&& s.min_pages_per_day == c.min_pages_per_day
            &&& (c.min_time_per_day matches Some(m) ==> Ok::<Option<u32>, TimeParseError>(s.min_time_per_day) == time_outcome(m))
            &&& (c.min_time_per_day is None ==> s.min_time_per_day is None)
            &&& s.include_all_stats == c.include_all_stats
            &&& s.is_internal_server == is_internal_server
            &&& s.language == c.language
            &&& s.use_stable_page_metadata == !c.ignore_stable_page_metadata
            &&& s.auth_enabled == auth_enabled
            &&& s.writeback_enabled == writeback_enabled
            &&& s.include_files == include_files
            &&& s.runtime_data_policy == policy
            &&& (c.docsettings_path matches Some(d) ==> s.metadata_location == MetadataLocationView::DocSettings(d))
            &&& (c.docsettings_path is None ==> (c.hashdocsettings_path matches Some(h) ==> s.metadata_location
                == MetadataLocationView::HashDocSettings(h)))
            &&& (c.docsettings_path is None && c.hashdocsettings_path is None ==> s.metadata_location
                == MetadataLocationView::InBookFolder)
        },
{
}

} // verus!
