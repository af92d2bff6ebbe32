use koshelf::ingest::{ingest_totals, is_canonical_item_id, removal_plan, IngestStats};

const CANONICAL_ID: &str = "0123456789abcdef0123456789abcdef";

fn stats(p: u64, u: u64, d: u64, r: u64, e: u64, i: u64) -> IngestStats {
    IngestStats { processed: p, upserted: u, skipped_duplicates: d, skipped_unread: r, errors: e, stats_invalidated: i }
}

#[test]
fn merge_adds_each_counter() {
    let mut a = stats(1, 2, 3, 4, 5, 6);
    a.merge(stats(10, 20, 30, 40, 50, 60));
    assert_eq!(a, stats(11, 22, 33, 44, 55, 66));
}

#[test]
fn merge_order_does_not_matter() {
    let (x, y) = (stats(1, 0, 2, 0, 3, 0), stats(0, 4, 0, 5, 0, 6));
    let mut a = x;
    a.merge(y);
    let mut b = y;
    b.merge(x);
    assert_eq!(a, b);
    let mut c = x;
    c.merge(IngestStats::zero());
    assert_eq!(c, x);
}

#[test]
fn totals_count_every_item_as_processed() {
    let workers = vec![stats(3, 1, 0, 1, 1, 0), stats(2, 2, 0, 0, 0, 1)];
    assert_eq!(ingest_totals(&workers, 7), stats(7, 3, 0, 1, 1, 1));
    assert_eq!(ingest_totals(&workers, 0), IngestStats::default());
    assert_eq!(ingest_totals(&vec![], 4), stats(4, 0, 0, 0, 0, 0));
}

#[test]
fn canonical_ids() {
    assert!(is_canonical_item_id(CANONICAL_ID));
    assert!(!is_canonical_item_id("not-canonical"));
    assert!(!is_canonical_item_id("0123456789ABCDEF0123456789abcdef"));
}

#[test]
fn deleting_removes_item_and_canonical_cover() {
    let plan = removal_plan(CANONICAL_ID, false, false);
    assert!(plan.delete_item && plan.remove_cover && !plan.mark_missing && !plan.remove_file_links);
}

#[test]
fn deleting_on_the_server_removes_the_file_link() {
    let plan = removal_plan(CANONICAL_ID, true, false);
    assert!(plan.delete_item && plan.remove_file_links);
}

#[test]
fn retain_missing_keeps_the_item_and_its_cover() {
    let plan = removal_plan(CANONICAL_ID, false, true);
    assert!(plan.mark_missing && !plan.delete_item && !plan.remove_cover && !plan.remove_file_links);
}

#[test]
fn retained_item_still_loses_its_file_link() {
    let plan = removal_plan(CANONICAL_ID, true, true);
    assert!(plan.mark_missing && !plan.delete_item && !plan.remove_cover && plan.remove_file_links);
}

#[test]
fn noncanonical_cover_is_left_alone() {
    let plan = removal_plan("not-canonical", false, false);
    assert!(plan.delete_item && !plan.remove_cover);
}
