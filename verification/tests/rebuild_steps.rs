use koshelf::formats::LibraryItemFormat;
use koshelf::ingest::{removal_follow_up, removal_plan};
use koshelf::rebuild::{after_book_lookup, after_fingerprint_check, classify_changed_path, deleted_count, PathStep};
use koshelf::site::MetadataLocation;
use koshelf::validate::PathStatus;

fn present() -> PathStatus {
    PathStatus { exists: true, is_dir: false, canonical: None }
}

#[test]
fn formats_come_from_extensions() {
    assert_eq!(LibraryItemFormat::from_path("/lib/a.epub"), Some(LibraryItemFormat::Epub));
    assert_eq!(LibraryItemFormat::from_path("/lib/A.EPUB"), Some(LibraryItemFormat::Epub));
    assert_eq!(LibraryItemFormat::from_path("/lib/c.cbr"), Some(LibraryItemFormat::Cbr));
    assert_eq!(LibraryItemFormat::from_path("/lib/Book.fb2.zip"), Some(LibraryItemFormat::Fb2));
    assert_eq!(LibraryItemFormat::from_path("/lib/archive.zip"), None);
    assert_eq!(LibraryItemFormat::from_path("/lib/kobo-content-id"), None);
    assert!(LibraryItemFormat::is_metadata_path("/lib/T.sdr/metadata.epub.lua"));
    assert!(!LibraryItemFormat::is_metadata_path("/lib/T.sdr/notes.lua"));
}

#[test]
fn books_are_ingested_or_deleted() {
    let loc = MetadataLocation::InBookFolder;
    assert_eq!(
        classify_changed_path("/lib/book.epub", true, &loc, &vec![]),
        PathStep::Ingest("/lib/book.epub".to_string(), LibraryItemFormat::Epub)
    );
    assert_eq!(classify_changed_path("/lib/book.epub", false, &loc, &vec![]), PathStep::Delete("/lib/book.epub".to_string()));
    assert_eq!(classify_changed_path("/lib/notes.txt", true, &loc, &vec![]), PathStep::Ignore);
}

#[test]
fn metadata_leads_to_its_book() {
    let loc = MetadataLocation::InBookFolder;
    let fs = vec![("/lib/Title.epub".to_string(), present())];
    assert_eq!(
        classify_changed_path("/lib/Title.sdr/metadata.epub.lua", true, &loc, &fs),
        PathStep::CheckFingerprint("/lib/Title.epub".to_string())
    );
    assert_eq!(classify_changed_path("/lib/Title.sdr/metadata.epub.lua", true, &loc, &vec![]), PathStep::Ignore);
    let ds = MetadataLocation::DocSettings("/ds".to_string());
    assert_eq!(classify_changed_path("/ds/lib/Title.sdr/metadata.epub.lua", true, &ds, &fs), PathStep::LookUpBook);
    assert_eq!(
        after_book_lookup(Some("/lib/Title.epub".to_string()), &fs),
        PathStep::CheckFingerprint("/lib/Title.epub".to_string())
    );
    assert_eq!(after_book_lookup(None, &fs), PathStep::Ignore);
}

#[test]
fn sidecar_folder_leads_to_its_book() {
    let fs = vec![("/lib/Comic.cbz".to_string(), present())];
    assert_eq!(
        classify_changed_path("/lib/Comic.sdr", true, &MetadataLocation::InBookFolder, &fs),
        PathStep::CheckFingerprint("/lib/Comic.cbz".to_string())
    );
}

#[test]
fn unchanged_metadata_is_not_ingested_again() {
    assert_eq!(after_fingerprint_check("/lib/Title.epub", true), PathStep::Ignore);
    assert_eq!(
        after_fingerprint_check("/lib/Title.epub", false),
        PathStep::Ingest("/lib/Title.epub".to_string(), LibraryItemFormat::Epub)
    );
}

#[test]
fn deleted_items_are_counted() {
    assert_eq!(deleted_count(&vec![true, false, true]), 2);
    assert_eq!(deleted_count(&vec![]), 0);
}

#[test]
fn failed_database_step_touches_nothing_else() {
    let plan = removal_plan("0123456789abcdef0123456789abcdef", true, false);
    let failed = removal_follow_up(&plan, false);
    assert!(!failed.removed && !failed.remove_cover && !failed.remove_file_links);
    let done = removal_follow_up(&plan, true);
    assert!(done.removed && done.remove_cover && done.remove_file_links);
}
