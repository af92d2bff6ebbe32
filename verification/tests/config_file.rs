use koshelf::file_config::{one_or_many_paths, PathList};

#[test]
fn statistics_db_accepts_single_path() {
    let paths = one_or_many_paths(Some(PathList::One("/a.sqlite3".to_string())));
    assert_eq!(paths, Some(vec!["/a.sqlite3".to_string()]));
}

#[test]
fn statistics_db_accepts_array_of_paths() {
    let paths = one_or_many_paths(Some(PathList::Many(vec!["/a.sqlite3".to_string(), "/b.sqlite3".to_string()])));
    assert_eq!(paths, Some(vec!["/a.sqlite3".to_string(), "/b.sqlite3".to_string()]));
}

#[test]
fn absent_setting_stays_absent() {
    assert_eq!(one_or_many_paths(None), None);
}
