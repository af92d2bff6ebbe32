use koshelf::formats::LibraryItemFormat;
use koshelf::ingest::{IngestStats, LibrarySyncResult};
use koshelf::rebuild::{
    data_changed, derive_book_path_from_metadata_path, derive_book_path_from_sdr_path, is_extensionless_path,
    is_sqlite_db_or_companion, metadata_fingerprint_matches, needs_stats_reload, requires_full_library_sync,
    statistics_changed, FileFingerprint, StoredFingerprint,
};
use koshelf::site::{MetadataLocation, RuntimeDataPolicy, SiteConfig};
use koshelf::validate::PathStatus;

fn test_config(output_dir: &str, kobo_db_path: Option<String>) -> SiteConfig<()> {
    SiteConfig {
        output_dir: output_dir.to_string(),
        site_title: "KoShelf".to_string(),
        include_unread: true,
        retain_missing: false,
        library_paths: vec![format!("{output_dir}/library")],
        metadata_location: MetadataLocation::InBookFolder,
        statistics_db_paths: vec![],
        kobo_db_path,
        heatmap_scale_max: None,
        time_config: (),
        min_pages_per_day: None,
        min_time_per_day: None,
        include_all_stats: false,
        is_internal_server: false,
        language: "en_US".to_string(),
        use_stable_page_metadata: true,
        auth_enabled: false,
        writeback_enabled: false,
        include_files: false,
        runtime_data_policy: RuntimeDataPolicy { persistent: true, data_dir: Some(format!("{output_dir}/runtime")) },
    }
}

fn existing_file() -> PathStatus {
    PathStatus { exists: true, is_dir: false, canonical: None }
}

#[test]
fn rebuild_requires_full_library_sync_for_kobo_db_or_extensionless_changes() {
    let dir = "/tmp/shelf";
    let kobo_db_path = format!("{dir}/KoboReader.sqlite");
    let config = test_config(dir, Some(kobo_db_path.clone()));

    let db_changed = vec![kobo_db_path];
    assert!(requires_full_library_sync(&db_changed, &config));

    let extensionless_changed = vec![format!("{dir}/library/kobo-content-id")];
    assert!(requires_full_library_sync(&extensionless_changed, &config));

    let regular_book_changed = vec![format!("{dir}/library/book.epub")];
    assert!(!requires_full_library_sync(&regular_book_changed, &config));
}

#[test]
fn without_kobo_db_no_change_forces_a_full_sync() {
    let config = test_config("/tmp/shelf", None);
    let changed = vec!["/tmp/shelf/library/kobo-content-id".to_string()];
    assert!(!requires_full_library_sync(&changed, &config));
}

#[test]
fn kobo_db_journal_forces_a_full_sync() {
    let config = test_config("/tmp/shelf", Some("/tmp/KoboReader.sqlite".to_string()));
    let changed = vec!["/tmp/KoboReader.sqlite-wal".to_string()];
    assert!(requires_full_library_sync(&changed, &config));
}

#[test]
fn sidecar_derives_book_filename_by_metadata_filename() {
    assert_eq!(
        LibraryItemFormat::book_filename_from_sidecar("Book.fb2", "metadata.zip.lua"),
        Some("Book.fb2.zip".to_string())
    );
    // A plain FB2 whose name itself ends in .fb2 (Book.fb2.fb2) shares the
    // sidecar stem but carries metadata.fb2.lua, not metadata.zip.lua.
    assert_eq!(
        LibraryItemFormat::book_filename_from_sidecar("Book.fb2", "metadata.fb2.lua"),
        Some("Book.fb2.fb2".to_string())
    );
    assert_eq!(
        LibraryItemFormat::book_filename_from_sidecar("Book", "metadata.fb2.lua"),
        Some("Book.fb2".to_string())
    );
    assert_eq!(
        LibraryItemFormat::book_filename_from_sidecar("Book", "metadata.zip.lua"),
        None
    );
}

#[test]
fn sidecar_of_unknown_kind_names_no_book() {
    assert_eq!(LibraryItemFormat::book_filename_from_sidecar("Book", "metadata.txt.lua"), None);
    assert_eq!(LibraryItemFormat::book_filename_from_sidecar("Book", "notes.epub.lua"), None);
    assert_eq!(LibraryItemFormat::book_filename_from_sidecar("Book", "metadata..lua"), None);
    assert_eq!(
        LibraryItemFormat::book_filename_from_sidecar("Comic", "metadata.CBZ.lua"),
        Some("Comic.CBZ".to_string())
    );
}

#[test]
fn format_extensions() {
    assert_eq!(LibraryItemFormat::Epub.extension(), "epub");
    assert_eq!(LibraryItemFormat::Fb2.extension(), "fb2");
    assert_eq!(LibraryItemFormat::Mobi.extension(), "mobi");
    assert_eq!(LibraryItemFormat::Cbz.extension(), "cbz");
    assert_eq!(LibraryItemFormat::Cbr.extension(), "cbr");
}

#[test]
fn sdr_path_derivation_finds_fb2_zip_book() {
    let book_path = "/tmp/shelf/Book.fb2.zip";
    let fs = vec![(book_path.to_string(), existing_file())];
    let sdr_path = "/tmp/shelf/Book.fb2.sdr";

    assert_eq!(derive_book_path_from_sdr_path(sdr_path, &fs), Some(book_path.to_string()));
}

#[test]
fn sdr_path_derivation_finds_double_extension_fb2_book() {
    let book_path = "/tmp/shelf/Book.fb2.fb2";
    let fs = vec![(book_path.to_string(), existing_file())];
    let sdr_path = "/tmp/shelf/Book.fb2.sdr";

    assert_eq!(derive_book_path_from_sdr_path(sdr_path, &fs), Some(book_path.to_string()));
}

#[test]
fn sdr_path_derivation_prefers_epub_and_needs_a_book() {
    let fs = vec![
        ("/lib/Title.epub".to_string(), existing_file()),
        ("/lib/Title.cbz".to_string(), existing_file()),
    ];
    assert_eq!(derive_book_path_from_sdr_path("/lib/Title.sdr", &fs), Some("/lib/Title.epub".to_string()));
    assert_eq!(derive_book_path_from_sdr_path("/lib/Other.sdr", &fs), None);
    assert_eq!(derive_book_path_from_sdr_path("/lib/Title", &fs), None);
}

#[test]
fn metadata_beside_book_names_the_book() {
    assert_eq!(
        derive_book_path_from_metadata_path("/library/Title.sdr/metadata.epub.lua", &MetadataLocation::InBookFolder, None),
        Some("/library/Title.epub".to_string())
    );
    assert_eq!(
        derive_book_path_from_metadata_path("/library/Title/metadata.epub.lua", &MetadataLocation::InBookFolder, None),
        None
    );
    let docsettings = MetadataLocation::DocSettings("/ds".to_string());
    assert_eq!(
        derive_book_path_from_metadata_path("/ds/x.sdr/metadata.epub.lua", &docsettings, Some("/books/x.epub".to_string())),
        Some("/books/x.epub".to_string())
    );
    assert_eq!(derive_book_path_from_metadata_path("/ds/x.sdr/metadata.epub.lua", &docsettings, None), None);
}

#[test]
fn sqlite_companions_are_recognised() {
    assert!(is_sqlite_db_or_companion("/s.sqlite3", "/s.sqlite3"));
    assert!(is_sqlite_db_or_companion("/s.sqlite3-shm", "/s.sqlite3"));
    assert!(is_sqlite_db_or_companion("/s.sqlite3-journal", "/s.sqlite3"));
    assert!(!is_sqlite_db_or_companion("/s.sqlite3-old", "/s.sqlite3"));
    assert!(!is_sqlite_db_or_companion("/t.sqlite3", "/s.sqlite3"));
}

#[test]
fn extensionless_paths() {
    assert!(is_extensionless_path("/library/kobo-content-id"));
    assert!(is_extensionless_path("/library/.hidden"));
    assert!(!is_extensionless_path("/library/book.epub"));
}

#[test]
fn statistics_change_is_seen() {
    let mut config = test_config("/tmp/shelf", None);
    config.statistics_db_paths = vec!["/a.sqlite3".to_string(), "/b.sqlite3".to_string()];
    assert!(statistics_changed(&vec!["/x".to_string(), "/b.sqlite3-wal".to_string()], &config));
    assert!(!statistics_changed(&vec!["/x".to_string()], &config));
}

#[test]
fn fingerprint_must_match_in_full() {
    let stored = StoredFingerprint {
        metadata_path: Some("/m.lua".to_string()),
        metadata_size_bytes: Some(10),
        metadata_modified_unix_ms: Some(20),
    };
    assert!(metadata_fingerprint_matches(&stored, Some(FileFingerprint { size_bytes: 10, modified_unix_ms: 20 })));
    assert!(!metadata_fingerprint_matches(&stored, Some(FileFingerprint { size_bytes: 11, modified_unix_ms: 20 })));
    assert!(!metadata_fingerprint_matches(&stored, None));
    let partial = StoredFingerprint { metadata_size_bytes: None, ..stored };
    assert!(!metadata_fingerprint_matches(&partial, Some(FileFingerprint { size_bytes: 10, modified_unix_ms: 20 })));
}

#[test]
fn stats_reload_and_change_notice() {
    let none = IngestStats::default();
    assert!(!needs_stats_reload(false, &none, 0, &None));
    assert!(needs_stats_reload(true, &none, 0, &None));
    assert!(needs_stats_reload(false, &none, 1, &None));
    let removed = LibrarySyncResult { removed: 2, ..LibrarySyncResult::default() };
    assert!(needs_stats_reload(false, &none, 0, &Some(removed)));
    let invalidated = LibrarySyncResult {
        ingest_stats: Some(IngestStats { stats_invalidated: 1, ..IngestStats::default() }),
        ..LibrarySyncResult::default()
    };
    assert!(needs_stats_reload(false, &none, 0, &Some(invalidated)));

    assert!(!data_changed(&none, 0, false, &None));
    assert!(data_changed(&IngestStats { upserted: 1, ..none }, 0, false, &None));
    assert!(data_changed(&none, 0, true, &None));
    let upserted = LibrarySyncResult {
        ingest_stats: Some(IngestStats { upserted: 3, ..IngestStats::default() }),
        ..LibrarySyncResult::default()
    };
    assert!(data_changed(&none, 0, false, &Some(upserted)));
    let quiet = LibrarySyncResult { unchanged: 5, ingest_stats: Some(none), ..LibrarySyncResult::default() };
    assert!(!data_changed(&none, 0, false, &Some(quiet)));
}
