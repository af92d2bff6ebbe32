//! The decisions of a targeted rebuild: which changed paths force a full
//! library sync, which book a KOReader sidecar belongs to, whether the
//! statistics must be reloaded and whether clients must hear of a change.

use vstd::prelude::*;
use crate::args::{opt_str, strs};
use crate::formats::{all_formats, fb2_suffix, format_extension, is_metadata_file, path_format, sidecar_book_filename, LibraryItemFormat};
use crate::ingest::{IngestStats, LibrarySyncResult};
use crate::paths::{
    concat, extension, file_name, join, parent, path_extension, path_file_name, path_join, path_parent,
    strip_suffix, strip_suffix_of,
};
use crate::site::{MetadataLocation, MetadataLocationView, SiteConfig};
use crate::text::{chars_of, ends_with_ignore_ascii_case, ends_with_ignore_ascii_case_spec, str_eq};
use crate::validate::{fs_view, status_exec, status_of, PathStatus, PathStatusView};

verus! {

// ── SQLite files ──────────────────────────────────────────────────────

/// The suffixes SQLite gives the files it keeps beside a database.
pub open spec fn companion_suffixes() -> Seq<Seq<char>> {
    seq![seq!['-', 'w', 'a', 'l'], seq!['-', 's', 'h', 'm'], seq!['-', 'j', 'o', 'u', 'r', 'n', 'a', 'l']]
}

/// `path` is the database `db` or one of the files SQLite keeps beside it.
pub open spec fn is_db_or_companion(path: Seq<char>, db: Seq<char>) -> bool {
    path == db || exists|i: int| 0 <= i < 3 && path == db + #[trigger] companion_suffixes()[i]
}

/// Whether `path` is the database `db_path`, or its write-ahead log, shared
/// memory or rollback journal.
pub fn is_sqlite_db_or_companion(path: &str, db_path: &str) -> (r: bool)
    ensures
        r == is_db_or_companion(path@, db_path@),
{
    proof {
        reveal_strlit("-wal");
        reveal_strlit("-shm");
        reveal_strlit("-journal");
    }
    assert("-wal"@ =~= companion_suffixes()[0]);
    assert("-shm"@ =~= companion_suffixes()[1]);
    assert("-journal"@ =~= companion_suffixes()[2]);
    if str_eq(path, db_path) {
        return true;
    }
    let wal = concat(db_path, "-wal");
    let shm = concat(db_path, "-shm");
    let journal = concat(db_path, "-journal");
    str_eq(path, wal.as_str()) || str_eq(path, shm.as_str()) || str_eq(path, journal.as_str())
}

// ── Which changes force a full library sync ───────────────────────────

/// Whether the path has no extension, as `std::path::Path::extension` sees it.
pub fn is_extensionless_path(path: &str) -> (r: bool)
    ensures
        r == (path_extension(path@) is None),
{
    extension(path).is_none()
}

/// Some changed path touches the Kobo database, or has no extension (Kobo
/// keeps its kepub books without one); only when a Kobo database is used.
pub open spec fn full_sync_required(paths: Seq<Seq<char>>, kobo_db: Option<Seq<char>>) -> bool {
    match kobo_db {
        Some(db) => exists|i: int|
            0 <= i < paths.len() && (is_db_or_companion(#[trigger] paths[i], db) || path_extension(paths[i]) is None),
        None => false,
    }
}

/// Whether the changed paths need a full library sync rather than a
/// targeted one.
pub fn requires_full_library_sync<T>(accumulated_paths: &Vec<String>, config: &SiteConfig<T>) -> (r: bool)
    ensures
        r == full_sync_required(strs(accumulated_paths@), opt_str(config.kobo_db_path)),
{
    let ghost ps = strs(accumulated_paths@);
    match &config.kobo_db_path {
        None => false,
        Some(db) => {
            let mut i: usize = 0;
            while i < accumulated_paths.len()
                invariant
                    ps == strs(accumulated_paths@),
                    opt_str(config.kobo_db_path) == Some(db@),
                    i <= accumulated_paths@.len(),
                    forall|j: int|
                        0 <= j < i ==> !(is_db_or_companion(#[trigger] ps[j], db@) || path_extension(ps[j]) is None),
                decreases accumulated_paths@.len() - i,
            {
                let p = accumulated_paths[i].as_str();
                if is_sqlite_db_or_companion(p, db.as_str()) || is_extensionless_path(p) {
                    assert(ps[i as int] == p@);
                    assert(is_db_or_companion(ps[i as int], db@) || path_extension(ps[i as int]) is None);
                    return true;
                }
                i = i + 1;
            }
            false
        },
    }
}

/// Some changed path touches one of the statistics databases.
pub open spec fn statistics_touched(paths: Seq<Seq<char>>, dbs: Seq<Seq<char>>) -> bool {
    exists|i: int, j: int| 0 <= i < dbs.len() && 0 <= j < paths.len() && is_db_or_companion(#[trigger] paths[j], #[trigger] dbs[i])
}

fn touches_db(paths: &Vec<String>, db: &str) -> (r: bool)
    ensures
        r == exists|j: int| 0 <= j < paths@.len() && is_db_or_companion(#[trigger] strs(paths@)[j], db@),
{
    let ghost ps = strs(paths@);
    let mut j: usize = 0;
    while j < paths.len()
        invariant
            ps == strs(paths@),
            j <= paths@.len(),
            forall|k: int| 0 <= k < j ==> !is_db_or_companion(#[trigger] ps[k], db@),
        decreases paths@.len() - j,
    {
        if is_sqlite_db_or_companion(paths[j].as_str(), db) {
            assert(ps[j as int] == paths@[j as int]@);
            return true;
        }
        j = j + 1;
    }
    false
}

/// Whether a changed path touches one of the statistics databases.
pub fn statistics_changed<T>(accumulated_paths: &Vec<String>, config: &SiteConfig<T>) -> (r: bool)
    ensures
        r == statistics_touched(strs(accumulated_paths@), strs(config.statistics_db_paths@)),
{
    let ghost ps = strs(accumulated_paths@);
    let ghost ds = strs(config.statistics_db_paths@);
    let mut i: usize = 0;
    while i < config.statistics_db_paths.len()
        invariant
            ps == strs(accumulated_paths@),
            ds == strs(config.statistics_db_paths@),
            i <= ds.len(),
            forall|a: int, b: int| 0 <= a < i && 0 <= b < ps.len() ==> !is_db_or_companion(#[trigger] ps[b], #[trigger] ds[a]),
        decreases ds.len() - i,
    {
        let db = config.statistics_db_paths[i].as_str();
        assert(ds[i as int] == db@);
        if touches_db(accumulated_paths, db) {
            return true;
        }
        i = i + 1;
    }
    false
}

// ── Which book a sidecar belongs to ───────────────────────────────────

pub open spec fn sdr_suffix() -> Seq<char> {
    seq!['.', 's', 'd', 'r']
}

/// The paths where the book of a `<stem>.sdr` folder may be, in the order
/// in which they are tried: for a stem ending in `.fb2`, a compressed FB2
/// book first (KOReader strips only the last suffix); then one per format.
pub open spec fn sdr_book_candidates(sdr: Seq<char>) -> Option<Seq<Seq<char>>> {
    match path_file_name(sdr) {
        None => None,
        Some(name) => match strip_suffix(name, sdr_suffix()) {
            None => None,
            Some(stem) => match path_parent(sdr) {
                None => None,
                Some(dir) => {
                    let zipped = if ends_with_ignore_ascii_case_spec(stem, fb2_suffix()) {
                        seq![path_join(dir, stem + seq!['.', 'z', 'i', 'p'])]
                    } else {
                        Seq::empty()
                    };
                    Some(
                        zipped + seq![
                            path_join(dir, stem + seq!['.', 'e', 'p', 'u', 'b']),
                            path_join(dir, stem + seq!['.', 'f', 'b', '2']),
                            path_join(dir, stem + seq!['.', 'm', 'o', 'b', 'i']),
                            path_join(dir, stem + seq!['.', 'c', 'b', 'z']),
                            path_join(dir, stem + seq!['.', 'c', 'b', 'r']),
                        ],
                    )
                },
            },
        },
    }
}

/// The first of `cands`, from index `i` on, that exists.
pub open spec fn first_existing(cands: Seq<Seq<char>>, fs: Seq<(Seq<char>, PathStatusView)>, i: int) -> Option<Seq<char>>
    decreases cands.len() - i,
{
    if i < 0 || i >= cands.len() {
        None
    } else if status_of(fs, cands[i]).exists {
        Some(cands[i])
    } else {
        first_existing(cands, fs, i + 1)
    }
}

/// The book of the sidecar folder `sdr`: the first candidate that exists.
pub open spec fn sdr_book_path(sdr: Seq<char>, fs: Seq<(Seq<char>, PathStatusView)>) -> Option<Seq<char>> {
    match sdr_book_candidates(sdr) {
        Some(c) => first_existing(c, fs, 0),
        None => None,
    }
}

/// The paths where the book of the sidecar folder `sdr_path` may be, in the
/// order in which they are tried; `None` where the path names no sidecar folder.
pub fn sdr_book_candidates_of(sdr_path: &str) -> (r: Option<Vec<String>>)
    ensures
        match sdr_book_candidates(sdr_path@) {
            Some(c) => r matches Some(v) && strs(v@) == c,
            None => r is None,
        },
{
    proof {
        reveal_strlit(".sdr");
        reveal_strlit(".fb2");
        reveal_strlit(".zip");
        reveal_strlit(".");
    }
    assert(".sdr"@ =~= sdr_suffix());
    assert(".zip"@ =~= seq!['.', 'z', 'i', 'p']);
    let name = match file_name(sdr_path) {
        Some(n) => n,
        None => return None,
    };
    let stem = match strip_suffix_of(name.as_str(), ".sdr") {
        Some(s) => s,
        None => return None,
    };
    let dir = match parent(sdr_path) {
        Some(d) => d,
        None => return None,
    };
    let mut cands: Vec<String> = Vec::new();
    let sc = chars_of(stem.as_str());
    let fb2 = chars_of(".fb2");
    assert(fb2@ =~= fb2_suffix());
    if ends_with_ignore_ascii_case(sc.as_slice(), fb2.as_slice()) {
        let zipped = concat(stem.as_str(), ".zip");
        cands.push(join(dir.as_str(), zipped.as_str()));
    }
    let ghost zipped_part = strs(cands@);
    let with_dot = concat(stem.as_str(), ".");
    let formats = [
        LibraryItemFormat::Epub,
        LibraryItemFormat::Fb2,
        LibraryItemFormat::Mobi,
        LibraryItemFormat::Cbz,
        LibraryItemFormat::Cbr,
    ];
    let mut i: usize = 0;
    while i < 5
        invariant
            formats@ == seq![
                LibraryItemFormat::Epub,
                LibraryItemFormat::Fb2,
                LibraryItemFormat::Mobi,
                LibraryItemFormat::Cbz,
                LibraryItemFormat::Cbr,
            ],
            with_dot@ == stem@ + seq!['.'],
            i <= 5,
            strs(cands@) == zipped_part + Seq::new(
                i as nat,
                |k: int| path_join(dir@, stem@ + seq!['.'] + crate::formats::format_extension(formats@[k])),
            ),
        decreases 5 - i,
    {
        let file = concat(with_dot.as_str(), formats[i].extension());
        let ghost before = strs(cands@);
        cands.push(join(dir.as_str(), file.as_str()));
        assert(strs(cands@) =~= before.push(path_join(dir@, file@)));
        assert(strs(cands@) =~= zipped_part + Seq::new(
            (i + 1) as nat,
            |k: int| path_join(dir@, stem@ + seq!['.'] + crate::formats::format_extension(formats@[k])),
        ));
        i = i + 1;
    }
    assert(stem@ + seq!['.'] + seq!['e', 'p', 'u', 'b'] =~= stem@ + seq!['.', 'e', 'p', 'u', 'b']);
    assert(stem@ + seq!['.'] + seq!['f', 'b', '2'] =~= stem@ + seq!['.', 'f', 'b', '2']);
    assert(stem@ + seq!['.'] + seq!['m', 'o', 'b', 'i'] =~= stem@ + seq!['.', 'm', 'o', 'b', 'i']);
    assert(stem@ + seq!['.'] + seq!['c', 'b', 'z'] =~= stem@ + seq!['.', 'c', 'b', 'z']);
    assert(stem@ + seq!['.'] + seq!['c', 'b', 'r'] =~= stem@ + seq!['.', 'c', 'b', 'r']);
    assert(strs(cands@) =~= sdr_book_candidates(sdr_path@).unwrap());
    Some(cands)
}

/// The book of the KOReader sidecar folder `sdr_path` (`<stem>.sdr`): the
/// first book beside it, named after its stem, that exists according to
/// `fs`.
pub fn derive_book_path_from_sdr_path(sdr_path: &str, fs: &Vec<(String, PathStatus)>) -> (r: Option<String>)
    ensures
        opt_str(r) == sdr_book_path(sdr_path@, fs_view(fs@)),
{
    let cands = match sdr_book_candidates_of(sdr_path) {
        Some(c) => c,
        None => return None,
    };
    let ghost cs = strs(cands@);
    let ghost fv = fs_view(fs@);
    let mut i: usize = 0;
    while i < cands.len()
        invariant
            cs == strs(cands@),
            fv == fs_view(fs@),
            cs == sdr_book_candidates(sdr_path@).unwrap(),
            sdr_book_candidates(sdr_path@) is Some,
            i <= cands@.len(),
            first_existing(cs, fv, 0) == first_existing(cs, fv, i as int),
        decreases cands@.len() - i,
    {
        assert(cs[i as int] == cands@[i as int]@);
        if status_exec(fs, cands[i].as_str()).exists {
            return Some(cands[i].clone());
        }
        i = i + 1;
    }
    None
}

/// The book that the metadata file at `metadata` belongs to, where KOReader
/// keeps it beside the book: `<dir>/<stem>.sdr/metadata.<ext>.lua` belongs
/// to `<dir>/<stem>.<ext>`.
pub open spec fn book_beside_metadata(metadata: Seq<char>) -> Option<Seq<char>> {
    match (path_file_name(metadata), path_parent(metadata)) {
        (Some(name), Some(sdr_dir)) => match path_file_name(sdr_dir) {
            Some(sdr_name) => match strip_suffix(sdr_name, sdr_suffix()) {
                Some(stem) => match sidecar_book_filename(stem, name) {
                    Some(book) => match path_parent(sdr_dir) {
                        Some(dir) => Some(path_join(dir, book)),
                        None => None,
                    },
                    None => None,
                },
                None => None,
            },
            None => None,
        },
        _ => None,
    }
}

/// The book of the metadata file at `metadata_path`. Beside the book it is
/// found from the path alone; under a docsettings folder it is the book that
/// the library database records for that metadata file, `recorded_book_path`.
pub fn derive_book_path_from_metadata_path(
    metadata_path: &str,
    metadata_location: &MetadataLocation,
    recorded_book_path: Option<String>,
) -> (r: Option<String>)
    ensures
        opt_str(r) == match metadata_location {
            MetadataLocation::InBookFolder => book_beside_metadata(metadata_path@),
            _ => opt_str(recorded_book_path),
        },
{
    proof {
        reveal_strlit(".sdr");
    }
    assert(".sdr"@ =~= sdr_suffix());
    match metadata_location {
        MetadataLocation::InBookFolder => {
            let name = match file_name(metadata_path) {
                Some(n) => n,
                None => return None,
            };
            let sdr_dir = match parent(metadata_path) {
                Some(d) => d,
                None => return None,
            };
            let sdr_name = match file_name(sdr_dir.as_str()) {
                Some(n) => n,
                None => return None,
            };
            let stem = match strip_suffix_of(sdr_name.as_str(), ".sdr") {
                Some(s) => s,
                None => return None,
            };
            let book = match LibraryItemFormat::book_filename_from_sidecar(stem.as_str(), name.as_str()) {
                Some(b) => b,
                None => return None,
            };
            match parent(sdr_dir.as_str()) {
                Some(dir) => Some(join(dir.as_str(), book.as_str())),
                None => None,
            }
        },
        _ => recorded_book_path,
    }
}

// ── Fingerprints ──────────────────────────────────────────────────────

/// What the library database records of a book's metadata file.
#[derive(Debug, Clone, PartialEq, Eq)]
pub struct StoredFingerprint {
    pub metadata_path: Option<String>,
    pub metadata_size_bytes: Option<i64>,
    pub metadata_modified_unix_ms: Option<i64>,
}

/// What the file system says of a file now.
#[derive(Debug, Clone, Copy, PartialEq, Eq, Structural)]
pub struct FileFingerprint {
    pub size_bytes: u64,
    pub modified_unix_ms: u64,
}

/// The recorded size and modification time of the metadata file equal
/// those on disk (each read as a signed 64-bit number, as recorded).
pub open spec fn fingerprint_matches(stored: StoredFingerprint, disk: Option<FileFingerprint>) -> bool {
    match (stored.metadata_path, stored.metadata_size_bytes, stored.metadata_modified_unix_ms, disk) {
        (Some(_), Some(size), Some(modified), Some(d)) => d.size_bytes as i64 == size && d.modified_unix_ms as i64
            == modified,
        _ => false,
    }
}

/// Whether the metadata file recorded in `stored` is unchanged on disk,
/// `disk` being what the file system gives for its path (`None` where it
/// could not be read). A change already taken in need not be ingested again.
pub fn metadata_fingerprint_matches(stored: &StoredFingerprint, disk: Option<FileFingerprint>) -> (r: bool)
    ensures
        r == fingerprint_matches(*stored, disk),
{
    match (&stored.metadata_path, stored.metadata_size_bytes, stored.metadata_modified_unix_ms, disk) {
        (Some(_), Some(size), Some(modified), Some(d)) => d.size_bytes as i64 == size && d.modified_unix_ms as i64
            == modified,
        _ => false,
    }
}

// ── After the rebuild ─────────────────────────────────────────────────

/// The statistics must be reloaded when a statistics database changed, the
/// ingest invalidated statistics, an item was deleted, or a full sync
/// invalidated statistics or removed items.
pub open spec fn stats_reload_needed(
    stats_changed: bool,
    ingest: IngestStats,
    deleted_count: u64,
    library_update: Option<LibrarySyncResult>,
) -> bool {
    ||| stats_changed
    ||| ingest.stats_invalidated > 0
    ||| deleted_count > 0
    ||| (library_update matches Some(u) && u.ingest_stats matches Some(s) && s.stats_invalidated > 0)
    ||| (library_update matches Some(u) && u.removed > 0)
}

/// Whether the rebuild must reload the statistics.
pub fn needs_stats_reload(
    stats_changed: bool,
    ingest: &IngestStats,
    deleted_count: u64,
    library_update: &Option<LibrarySyncResult>,
) -> (r: bool)
    ensures
        r == stats_reload_needed(stats_changed, *ingest, deleted_count, *library_update),
{
    let sync_invalidated = match library_update {
        Some(u) => match u.ingest_stats {
            Some(s) => s.stats_invalidated > 0,
            None => false,
        },
        None => false,
    };
    let sync_removed = match library_update {
        Some(u) => u.removed > 0,
        None => false,
    };
    stats_changed || ingest.stats_invalidated > 0 || deleted_count > 0 || sync_invalidated || sync_removed
}

/// Clients hear of a change when an item was upserted or deleted, the
/// statistics were reloaded, or a full sync removed items or upserted or
/// invalidated anything.
pub open spec fn data_change_seen(
    ingest: IngestStats,
    deleted_count: u64,
    stats_reloaded: bool,
    library_update: Option<LibrarySyncResult>,
) -> bool {
    ||| ingest.upserted > 0
    ||| deleted_count > 0
    ||| stats_reloaded
    ||| (library_update matches Some(u) && (u.removed > 0 || (u.ingest_stats matches Some(s) && (s.upserted > 0
        || s.stats_invalidated > 0))))
}

/// Whether the rebuild changed anything that clients must be told of.
pub fn data_changed(
    ingest: &IngestStats,
    deleted_count: u64,
    stats_reloaded: bool,
    library_update: &Option<LibrarySyncResult>,
) -> (r: bool)
    ensures
        r == data_change_seen(*ingest, deleted_count, stats_reloaded, *library_update),
{
    let sync_changed = match library_update {
        Some(u) => u.removed > 0 || match u.ingest_stats {
            Some(s) => s.upserted > 0 || s.stats_invalidated > 0,
            None => false,
        },
        None => false,
    };
    ingest.upserted > 0 || deleted_count > 0 || stats_reloaded || sync_changed
}


// ── What each changed path asks of a targeted rebuild ────────────────

/// What a changed path asks of the rebuild, or what must be learnt first.
#[derive(Debug, Clone, PartialEq, Eq)]
pub enum PathStep {
    /// Ingest the book at this path, in this format.
    Ingest(String, LibraryItemFormat),
    /// Remove the item of the book that was at this path.
    Delete(String),
    /// Ask the library database which book this metadata file belongs to.
    LookUpBook,
    /// Compare the metadata fingerprint of this book with the database's;
    /// the book is ingested again only when they differ.
    CheckFingerprint(String),
    /// Nothing to do.
    Ignore,
}

pub enum PathStepView {
    Ingest(Seq<char>, LibraryItemFormat),
    Delete(Seq<char>),
    LookUpBook,
    CheckFingerprint(Seq<char>),
    Ignore,
}

impl View for PathStep {
    type V = PathStepView;

    open spec fn view(&self) -> PathStepView {
        match self {
            PathStep::Ingest(p, f) => PathStepView::Ingest(p@, *f),
            PathStep::Delete(p) => PathStepView::Delete(p@),
            PathStep::LookUpBook => PathStepView::LookUpBook,
            PathStep::CheckFingerprint(p) => PathStepView::CheckFingerprint(p@),
            PathStep::Ignore => PathStepView::Ignore,
        }
    }
}

/// A book found from a metadata file or a sidecar folder: its fingerprint
/// is checked where the book exists.
pub open spec fn book_step(book: Option<Seq<char>>, fs: Seq<(Seq<char>, PathStatusView)>) -> PathStepView {
    match book {
        Some(b) => if status_of(fs, b).exists {
            PathStepView::CheckFingerprint(b)
        } else {
            PathStepView::Ignore
        },
        None => PathStepView::Ignore,
    }
}

/// What the changed path `p` asks: a book is ingested where it exists and
/// removed where it has gone; a metadata file or a sidecar folder leads to
/// its book (beside it, or as the database records it under a docsettings
/// folder); anything else is ignored.
pub open spec fn changed_path_step(
    p: Seq<char>,
    exists: bool,
    location: MetadataLocationView,
    fs: Seq<(Seq<char>, PathStatusView)>,
) -> PathStepView {
    match path_format(p) {
        Some(f) => if exists {
            PathStepView::Ingest(p, f)
        } else {
            PathStepView::Delete(p)
        },
        None => match path_file_name(p) {
            None => PathStepView::Ignore,
            Some(name) => if is_metadata_file(p) {
                match location {
                    MetadataLocationView::InBookFolder => book_step(book_beside_metadata(p), fs),
                    _ => PathStepView::LookUpBook,
                }
            } else if strip_suffix(name, sdr_suffix()) is Some {
                book_step(sdr_book_path(p, fs), fs)
            } else {
                PathStepView::Ignore
            },
        },
    }
}

fn book_step_exec(book: Option<String>, fs: &Vec<(String, PathStatus)>) -> (r: PathStep)
    ensures
        r@ == book_step(opt_str(book), fs_view(fs@)),
{
    match book {
        Some(b) => if status_exec(fs, b.as_str()).exists {
            PathStep::CheckFingerprint(b)
        } else {
            PathStep::Ignore
        },
        None => PathStep::Ignore,
    }
}

/// What the changed path `path` asks of a targeted rebuild. `exists` is
/// whether the path exists now; `fs` holds what the file system says of the
/// books that a sidecar may belong to.
pub fn classify_changed_path(
    path: &str,
    exists: bool,
    metadata_location: &MetadataLocation,
    fs: &Vec<(String, PathStatus)>,
) -> (r: PathStep)
    ensures
        r@ == changed_path_step(path@, exists, metadata_location@, fs_view(fs@)),
{
    proof {
        reveal_strlit(".sdr");
    }
    assert(".sdr"@ =~= sdr_suffix());
    if let Some(f) = LibraryItemFormat::from_path(path) {
        return if exists {
            PathStep::Ingest(String::from_str(path), f)
        } else {
            PathStep::Delete(String::from_str(path))
        };
    }
    let name = match file_name(path) {
        Some(n) => n,
        None => return PathStep::Ignore,
    };
    if LibraryItemFormat::is_metadata_path(path) {
        match metadata_location {
            MetadataLocation::InBookFolder => {
                let book = derive_book_path_from_metadata_path(path, metadata_location, None);
                book_step_exec(book, fs)
            },
            _ => PathStep::LookUpBook,
        }
    } else if strip_suffix_of(name.as_str(), ".sdr").is_some() {
        book_step_exec(derive_book_path_from_sdr_path(path, fs), fs)
    } else {
        PathStep::Ignore
    }
}

/// The step after the database named the book of a metadata file
/// (`recorded_book_path`, `None` where it knows none).
pub fn after_book_lookup(recorded_book_path: Option<String>, fs: &Vec<(String, PathStatus)>) -> (r: PathStep)
    ensures
        r@ == book_step(opt_str(recorded_book_path), fs_view(fs@)),
{
    book_step_exec(recorded_book_path, fs)
}

/// The step after the fingerprint check of `book`: unchanged metadata is
/// not ingested again; changed metadata ingests the book in its format.
pub fn after_fingerprint_check(book: &str, fingerprint_matches: bool) -> (r: PathStep)
    ensures
        r@ == if fingerprint_matches {
            PathStepView::Ignore
        } else {
            match path_format(book@) {
                Some(f) => PathStepView::Ingest(book@, f),
                None => PathStepView::Ignore,
            }
        },
{
    if fingerprint_matches {
        return PathStep::Ignore;
    }
    match LibraryItemFormat::from_path(book) {
        Some(f) => PathStep::Ingest(String::from_str(book), f),
        None => PathStep::Ignore,
    }
}

/// How many of the removals succeeded.
pub open spec fn count_true(s: Seq<bool>) -> nat
    decreases s.len(),
{
    if s.len() == 0 {
        0
    } else {
        count_true(s.drop_last()) + if s.last() { 1nat } else { 0nat }
    }
}

proof fn lemma_count_true_le(s: Seq<bool>)
    ensures
        count_true(s) <= s.len(),
    decreases s.len(),
{
    if s.len() > 0 {
        lemma_count_true_le(s.drop_last());
    }
}

/// The number of removed items, from whether each removal succeeded.
pub fn deleted_count(removed: &Vec<bool>) -> (r: u64)
    ensures
        r as int == count_true(removed@),
{
    let mut n: u64 = 0;
    let mut i: usize = 0;
    while i < removed.len()
        invariant
            i <= removed@.len(),
            n as int == count_true(removed@.take(i as int)),
        decreases removed@.len() - i,
    {
        proof {
            assert(removed@.take(i + 1).drop_last() =~= removed@.take(i as int));
            lemma_count_true_le(removed@.take(i as int));
        }
        if removed[i] {
            n = n + 1;
        }
        i = i + 1;
    }
    assert(removed@.take(removed@.len() as int) =~= removed@);
    n
}

/// Whether the rebuild writes the static data files again: only for a static
/// export, never for the internal server.
pub fn exports_static_data<T>(config: &SiteConfig<T>) -> (r: bool)
    ensures
        r == !config.is_internal_server,
{
    !config.is_internal_server
}


/// The statistics are reloaded when, and only when, a statistics database
/// changed, the ingest invalidated statistics, an item was deleted, or a full
/// sync removed items or invalidated statistics.
pub proof fn statistics_reload_triggers(
    stats_changed: bool,
    ingest: IngestStats,
    deleted_count: u64,
    library_update: Option<LibrarySyncResult>,
)
    ensures
        stats_changed ==> stats_reload_needed(stats_changed, ingest, deleted_count, library_update),
        ingest.stats_invalidated > 0 ==> stats_reload_needed(stats_changed, ingest, deleted_count, library_update),
        deleted_count > 0 ==> stats_reload_needed(stats_changed, ingest, deleted_count, library_update),
        library_update matches Some(u) ==> (u.removed > 0 ==> stats_reload_needed(
            stats_changed,
            ingest,
            deleted_count,
            library_update,
        )),
        library_update matches Some(u) ==> (u.ingest_stats matches Some(x) ==> (x.stats_invalidated > 0
            ==> stats_reload_needed(stats_changed, ingest, deleted_count, library_update))),
        !stats_changed && ingest.stats_invalidated == 0 && deleted_count == 0 && (library_update matches Some(u) ==> (
        u.removed == 0 && (u.ingest_stats matches Some(x) ==> x.stats_invalidated == 0))) ==> !stats_reload_needed(
            stats_changed,
            ingest,
            deleted_count,
            library_update,
        ),
{
}

/// Clients hear of a change when, and only when, an item was upserted or
/// deleted, the statistics were reloaded, or a full sync removed items or
/// upserted or invalidated anything.
pub proof fn change_notice_triggers(
    ingest: IngestStats,
    deleted_count: u64,
    stats_reloaded: bool,
    library_update: Option<LibrarySyncResult>,
)
    ensures
        ingest.upserted > 0 ==> data_change_seen(ingest, deleted_count, stats_reloaded, library_update),
        deleted_count > 0 ==> data_change_seen(ingest, deleted_count, stats_reloaded, library_update),
        stats_reloaded ==> data_change_seen(ingest, deleted_count, stats_reloaded, library_update),
        library_update matches Some(u) ==> (u.removed > 0 ==> data_change_seen(
            ingest,
            deleted_count,
            stats_reloaded,
            library_update,
        )),
        library_update matches Some(u) ==> (u.ingest_stats matches Some(x) ==> (x.upserted > 0 || x.stats_invalidated
            > 0 ==> data_change_seen(ingest, deleted_count, stats_reloaded, library_update))),
        ingest.upserted == 0 && deleted_count == 0 && !stats_reloaded && (library_update matches Some(u) ==> (u.removed
            == 0 && (u.ingest_stats matches Some(x) ==> x.upserted == 0 && x.stats_invalidated == 0)))
            ==> !data_change_seen(ingest, deleted_count, stats_reloaded, library_update),
{
}


// ── Laws of finding a sidecar's book ─────────────────────────────────

proof fn lemma_first_existing_at(c: Seq<Seq<char>>, fs: Seq<(Seq<char>, PathStatusView)>, from: int, k: int)
    requires
        0 <= from <= k < c.len(),
        status_of(fs, c[k]).exists,
        forall|m: int| from <= m < k ==> !(#[trigger] status_of(fs, c[m])).exists,
    ensures
        first_existing(c, fs, from) == Some(c[k]),
    decreases k - from,
{
    if from < k {
        lemma_first_existing_at(c, fs, from + 1, k);
    }
}

proof fn lemma_first_existing_found(c: Seq<Seq<char>>, fs: Seq<(Seq<char>, PathStatusView)>, from: int)
    requires
        0 <= from,
    ensures
        first_existing(c, fs, from) matches Some(b) ==> status_of(fs, b).exists,
        (forall|m: int| from <= m < c.len() ==> !(#[trigger] status_of(fs, c[m])).exists) ==> first_existing(c, fs, from)
            is None,
    decreases c.len() - from,
{
    if from < c.len() {
        lemma_first_existing_found(c, fs, from + 1);
    }
}

/// The book beside a sidecar folder named `<stem>.sdr` in `dir`, in the
/// format `f`.
pub open spec fn sidecar_book_in(dir: Seq<char>, stem: Seq<char>, f: LibraryItemFormat) -> Seq<char> {
    path_join(dir, stem + seq!['.'] + format_extension(f))
}

/// The compressed FB2 book beside a sidecar folder named `<stem>.sdr` in `dir`.
pub open spec fn sidecar_zip_in(dir: Seq<char>, stem: Seq<char>) -> Seq<char> {
    path_join(dir, stem + seq!['.', 'z', 'i', 'p'])
}

proof fn lemma_sdr_candidates(sdr: Seq<char>, dir: Seq<char>, stem: Seq<char>)
    requires
        path_file_name(sdr) == Some(stem + sdr_suffix()),
        path_parent(sdr) == Some(dir),
    ensures
        sdr_book_candidates(sdr) matches Some(c) && {
            let off: int = if ends_with_ignore_ascii_case_spec(stem, fb2_suffix()) { 1 } else { 0 };
            &&& c.len() == off + 5
            &&& off == 1 ==> c[0] == sidecar_zip_in(dir, stem)
            &&& forall|j: int| 0 <= j < 5 ==> c[off + j] == sidecar_book_in(dir, stem, #[trigger] all_formats()[j])
        },
{
    let name = stem + sdr_suffix();
    assert(name.subrange(name.len() - 4, name.len() as int) =~= sdr_suffix());
    assert(name.subrange(0, name.len() - 4) =~= stem);
    assert(stem + seq!['.'] + seq!['e', 'p', 'u', 'b'] =~= stem + seq!['.', 'e', 'p', 'u', 'b']);
    assert(stem + seq!['.'] + seq!['f', 'b', '2'] =~= stem + seq!['.', 'f', 'b', '2']);
    assert(stem + seq!['.'] + seq!['m', 'o', 'b', 'i'] =~= stem + seq!['.', 'm', 'o', 'b', 'i']);
    assert(stem + seq!['.'] + seq!['c', 'b', 'z'] =~= stem + seq!['.', 'c', 'b', 'z']);
    assert(stem + seq!['.'] + seq!['c', 'b', 'r'] =~= stem + seq!['.', 'c', 'b', 'r']);
    let c = sdr_book_candidates(sdr).unwrap();
    let off: int = if ends_with_ignore_ascii_case_spec(stem, fb2_suffix()) { 1 } else { 0 };
    assert forall|j: int| 0 <= j < 5 implies c[off + j] == sidecar_book_in(dir, stem, #[trigger] all_formats()[j]) by {
        assert(j == 0 || j == 1 || j == 2 || j == 3 || j == 4);
    }
}

/// The book of a sidecar folder `<stem>.sdr`: for a stem ending in `.fb2`, a
/// compressed FB2 book beside it comes first; then the book in each format,
/// EPUB, FB2, MOBI, CBZ, CBR, in that order: the first that exists is the
/// book, and where none exists there is no book.
pub proof fn sidecar_book_is_first_existing_format(
    sdr: Seq<char>,
    fs: Seq<(Seq<char>, PathStatusView)>,
    dir: Seq<char>,
    stem: Seq<char>,
)
    requires
        path_file_name(sdr) == Some(stem + sdr_suffix()),
        path_parent(sdr) == Some(dir),
    ensures
        ends_with_ignore_ascii_case_spec(stem, fb2_suffix()) && status_of(fs, sidecar_zip_in(dir, stem)).exists
            ==> sdr_book_path(sdr, fs) == Some(sidecar_zip_in(dir, stem)),
        forall|i: int|
            0 <= i < 5 && status_of(fs, #[trigger] sidecar_book_in(dir, stem, all_formats()[i])).exists && (forall|j: int|
                0 <= j < i ==> !status_of(fs, sidecar_book_in(dir, stem, all_formats()[j])).exists) && !(
            ends_with_ignore_ascii_case_spec(stem, fb2_suffix()) && status_of(fs, sidecar_zip_in(dir, stem)).exists)
                ==> sdr_book_path(sdr, fs) == Some(sidecar_book_in(dir, stem, all_formats()[i])),
        (forall|i: int| 0 <= i < 5 ==> !status_of(fs, #[trigger] sidecar_book_in(dir, stem, all_formats()[i])).exists) && !(
        ends_with_ignore_ascii_case_spec(stem, fb2_suffix()) && status_of(fs, sidecar_zip_in(dir, stem)).exists)
            ==> sdr_book_path(sdr, fs) is None,
        sdr_book_path(sdr, fs) matches Some(b) ==> status_of(fs, b).exists,
{
    lemma_sdr_candidates(sdr, dir, stem);
    let c = sdr_book_candidates(sdr).unwrap();
    let off: int = if ends_with_ignore_ascii_case_spec(stem, fb2_suffix()) { 1 } else { 0 };
    lemma_first_existing_found(c, fs, 0);
    if off == 1 && status_of(fs, sidecar_zip_in(dir, stem)).exists {
        lemma_first_existing_at(c, fs, 0, 0);
    }
    assert forall|i: int|
        0 <= i < 5 && status_of(fs, #[trigger] sidecar_book_in(dir, stem, all_formats()[i])).exists && (forall|j: int|
            0 <= j < i ==> !status_of(fs, sidecar_book_in(dir, stem, all_formats()[j])).exists) && !(
        ends_with_ignore_ascii_case_spec(stem, fb2_suffix()) && status_of(fs, sidecar_zip_in(dir, stem)).exists)
        implies sdr_book_path(sdr, fs) == Some(sidecar_book_in(dir, stem, all_formats()[i])) by {
        assert(c[off + i] == sidecar_book_in(dir, stem, all_formats()[i]));
        assert forall|m: int| 0 <= m < off + i implies !(#[trigger] status_of(fs, c[m])).exists by {
            if m >= off {
                assert(c[off + (m - off)] == sidecar_book_in(dir, stem, all_formats()[m - off]));
            }
        }
        lemma_first_existing_at(c, fs, 0, off + i);
    }
    if (forall|i: int| 0 <= i < 5 ==> !status_of(fs, #[trigger] sidecar_book_in(dir, stem, all_formats()[i])).exists) && !(
    ends_with_ignore_ascii_case_spec(stem, fb2_suffix()) && status_of(fs, sidecar_zip_in(dir, stem)).exists) {
        assert forall|m: int| 0 <= m < c.len() implies !(#[trigger] status_of(fs, c[m])).exists by {
            if m >= off {
                assert(c[off + (m - off)] == sidecar_book_in(dir, stem, all_formats()[m - off]));
            }
        }
    }
}


// ── Laws of the rebuild's decisions ───────────────────────────────────

/// A database, its write-ahead log, its shared memory file and its rollback
/// journal all count as the database; another name does not.
pub proof fn database_files(db: Seq<char>, other: Seq<char>)
    ensures
        is_db_or_companion(db, db),
        is_db_or_companion(db + seq!['-', 'w', 'a', 'l'], db),
        is_db_or_companion(db + seq!['-', 's', 'h', 'm'], db),
        is_db_or_companion(db + seq!['-', 'j', 'o', 'u', 'r', 'n', 'a', 'l'], db),
        other != db && other != db + seq!['-', 'w', 'a', 'l'] && other != db + seq!['-', 's', 'h', 'm'] && other != db
            + seq!['-', 'j', 'o', 'u', 'r', 'n', 'a', 'l'] ==> !is_db_or_companion(other, db),
{
    assert(companion_suffixes()[0] == seq!['-', 'w', 'a', 'l']);
    assert(companion_suffixes()[1] == seq!['-', 's', 'h', 'm']);
    assert(companion_suffixes()[2] == seq!['-', 'j', 'o', 'u', 'r', 'n', 'a', 'l']);
}

/// With a Kobo database, a change to it (or its companions) or to a path
/// without extension needs a full sync; without one, no change does; and a
/// change to books with extensions only never does.
pub proof fn full_sync_triggers(paths: Seq<Seq<char>>, kobo_db: Option<Seq<char>>, i: int)
    requires
        0 <= i < paths.len(),
    ensures
        kobo_db matches Some(db) ==> (is_db_or_companion(paths[i], db) ==> full_sync_required(paths, kobo_db)),
        kobo_db is Some ==> (path_extension(paths[i]) is None ==> full_sync_required(paths, kobo_db)),
        kobo_db is None ==> !full_sync_required(paths, kobo_db),
        kobo_db matches Some(db) ==> ((forall|j: int| 0 <= j < paths.len() ==> !is_db_or_companion(#[trigger] paths[j], db)
            && path_extension(paths[j]) is Some) ==> !full_sync_required(paths, kobo_db)),
{
}

/// A changed book, whatever its format, is ingested where it exists and
/// removed where it has gone.
pub proof fn changed_books_are_ingested_or_removed(
    p: Seq<char>,
    f: LibraryItemFormat,
    present: bool,
    location: MetadataLocationView,
    fs: Seq<(Seq<char>, PathStatusView)>,
)
    requires
        path_extension(p) == Some(format_extension(f)),
    ensures
        changed_path_step(p, present, location, fs) == (if present {
            PathStepView::Ingest(p, f)
        } else {
            PathStepView::Delete(p)
        }),
{
    crate::formats::each_format_is_read_from_its_extension(f);
}

} // verus!
