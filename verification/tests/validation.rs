use koshelf::cli::{Cli, CliCommand};
use koshelf::validate::{ConfigError, PathStatus};

fn file() -> PathStatus {
    PathStatus { exists: true, is_dir: false, canonical: None }
}

fn dir() -> PathStatus {
    PathStatus { exists: true, is_dir: true, canonical: None }
}

fn serve_args(argv: &[&str]) -> koshelf::cli::ServeArgs {
    let matches = Cli::command().try_get_matches_from(argv).expect("CLI args should parse");
    let cli = Cli::from_arg_matches(&matches).expect("CLI should convert from matches");
    let CliCommand::Serve(args) = cli.command else {
        panic!("expected serve command");
    };
    args
}

fn export_args(argv: &[&str]) -> koshelf::cli::ExportArgs {
    let matches = Cli::command().try_get_matches_from(argv).expect("CLI args should parse");
    let cli = Cli::from_arg_matches(&matches).expect("CLI should convert from matches");
    let CliCommand::Export(args) = cli.command else {
        panic!("expected export command")
    };
    args
}

#[test]
fn validate_rejects_duplicate_statistics_dbs() {
    let db_path = "/tmp/shelf/statistics.sqlite3";
    let fs = vec![(db_path.to_string(), file())];
    let args = serve_args(&["koshelf", "serve", "-s", db_path, "-s", db_path]);

    let err = args.common.validate(&fs).expect_err("duplicates should fail");
    assert!(err.message().contains("supplied twice"), "{err:?}");
    assert_eq!(err, ConfigError::StatisticsDbDuplicate(1));
}

#[test]
fn validate_rejects_missing_statistics_db_among_several() {
    let existing = "/tmp/shelf/statistics.sqlite3";
    let missing = "/tmp/shelf/missing.sqlite3";
    let fs = vec![(existing.to_string(), file())];
    let args = serve_args(&["koshelf", "serve", "-s", existing, "-s", missing]);

    let err = args.common.validate(&fs).expect_err("missing db should fail");
    assert!(err.message().contains("does not exist"), "{err:?}");
    assert_eq!(err, ConfigError::StatisticsDbMissing(1));
}

#[test]
fn validate_rejects_missing_kobo_db() {
    let library = "/tmp/library";
    let fs = vec![(library.to_string(), dir())];
    let args = export_args(&[
        "koshelf",
        "export",
        "--library-path",
        library,
        "--kobo-db",
        "/tmp/library/missing.sqlite",
        "/out",
    ]);

    let error = args.validate(&fs).expect_err("missing Kobo DB should fail");
    assert!(
        error.message().contains("Kobo database does not exist"),
        "unexpected error: {error:?}"
    );
}

#[test]
fn validate_rejects_kobo_db_without_library_path() {
    let stats = "/tmp/stats.sqlite3";
    let kobo = "/tmp/KoboReader.sqlite";
    let fs = vec![(stats.to_string(), file()), (kobo.to_string(), file())];
    let args = export_args(&["koshelf", "export", "--statistics-db", stats, "--kobo-db", kobo, "/out"]);

    let error = args.validate(&fs).expect_err("Kobo DB without library path should fail");
    assert!(
        error.message().contains("--kobo-db requires --library-path"),
        "unexpected error: {error:?}"
    );
}

#[test]
fn same_database_under_two_names_is_a_duplicate() {
    let canonical = Some("/real/statistics.sqlite3".to_string());
    let fs = vec![
        ("/a/stats.sqlite3".to_string(), PathStatus { exists: true, is_dir: false, canonical: canonical.clone() }),
        ("/b/stats.sqlite3".to_string(), PathStatus { exists: true, is_dir: false, canonical }),
    ];
    let args = serve_args(&["koshelf", "serve", "-s", "/a/stats.sqlite3", "-s", "/b/stats.sqlite3"]);
    assert_eq!(args.common.validate(&fs), Err(ConfigError::StatisticsDbDuplicate(1)));
}

#[test]
fn nothing_to_read_is_refused() {
    let args = serve_args(&["koshelf", "serve"]);
    let err = args.common.validate(&vec![]).unwrap_err();
    assert_eq!(err, ConfigError::NoLibraryOrStatistics);
    assert!(err.message().starts_with("Either --library-path"));
}

#[test]
fn library_path_must_be_a_directory() {
    let fs = vec![("/lib".to_string(), file())];
    let args = serve_args(&["koshelf", "serve", "-i", "/lib"]);
    assert_eq!(args.common.validate(&fs), Err(ConfigError::LibraryPathNotDirectory(0)));
    let args = serve_args(&["koshelf", "serve", "-i", "/nowhere"]);
    assert_eq!(args.common.validate(&fs), Err(ConfigError::LibraryPathMissing(0)));
}

#[test]
fn docsettings_flags_exclude_each_other() {
    let fs = vec![("/lib".to_string(), dir()), ("/ds".to_string(), dir()), ("/hds".to_string(), dir())];
    let args = serve_args(&[
        "koshelf",
        "serve",
        "-i",
        "/lib",
        "--docsettings-path",
        "/ds",
        "--hashdocsettings-path",
        "/hds",
    ]);
    assert_eq!(args.common.validate(&fs), Err(ConfigError::DocsettingsConflict));
}

#[test]
fn include_unread_needs_a_library() {
    let fs = vec![("/s.sqlite3".to_string(), file())];
    let args = serve_args(&["koshelf", "serve", "-s", "/s.sqlite3", "--include-unread"]);
    assert_eq!(args.common.validate(&fs), Err(ConfigError::IncludeUnreadWithoutLibrary));
}

#[test]
fn data_path_that_is_a_file_is_refused() {
    let fs = vec![("/lib".to_string(), dir()), ("/data".to_string(), file())];
    let args = serve_args(&["koshelf", "serve", "-i", "/lib", "--data-path", "/data"]);
    assert_eq!(args.common.validate(&fs), Err(ConfigError::DataPathNotDirectory));
}

#[test]
fn bad_heatmap_scale_is_refused() {
    let fs = vec![("/lib".to_string(), dir())];
    let args = serve_args(&["koshelf", "serve", "-i", "/lib", "--heatmap-scale-max", "0m"]);
    assert_eq!(
        args.common.validate(&fs),
        Err(ConfigError::InvalidHeatmapScaleMax(koshelf::duration::TimeParseError::Zero))
    );
}

#[test]
fn serve_needs_data_path_and_valid_proxies() {
    let fs = vec![("/lib".to_string(), dir())];
    let args = serve_args(&["koshelf", "serve", "-i", "/lib"]);
    let err = args.validate(&fs).unwrap_err();
    assert_eq!(err, ConfigError::DataPathRequired);
    assert!(err.message().contains("--data-path is required"));

    let args = serve_args(&[
        "koshelf",
        "serve",
        "-i",
        "/lib",
        "--data-path",
        "/data",
        "--trusted-proxies",
        "127.0.0.1/32,not-an-ip",
    ]);
    assert_eq!(args.validate(&fs), Err(ConfigError::InvalidTrustedProxy(1)));

    let args = serve_args(&[
        "koshelf",
        "serve",
        "-i",
        "/lib",
        "--data-path",
        "/data",
        "--trusted-proxies",
        "127.0.0.1/32,10.0.0.0/8,::1/128",
    ]);
    assert_eq!(args.validate(&fs), Ok(()));

    // An address alone stands for its host network.
    let args = serve_args(&["koshelf", "serve", "-i", "/lib", "--data-path", "/data", "--trusted-proxies", "10.0.0.1,::1"]);
    assert_eq!(args.validate(&fs), Ok(()));
    let args = serve_args(&["koshelf", "serve", "-i", "/lib", "--data-path", "/data", "--trusted-proxies", "10.0.0.1/40"]);
    assert_eq!(args.validate(&fs), Err(ConfigError::InvalidTrustedProxy(0)));
}

#[test]
fn export_needs_output() {
    let fs = vec![("/lib".to_string(), dir())];
    let args = export_args(&["koshelf", "export", "-i", "/lib"]);
    assert_eq!(args.validate(&fs), Err(ConfigError::OutputRequired));
    let args = export_args(&["koshelf", "export", "/out", "-i", "/lib"]);
    assert_eq!(args.validate(&fs), Ok(()));
}
