use koshelf::cli::{Cli, CliCommand, CommonArgs};
use koshelf::duration::TimeParseError;
use koshelf::site::{
    build_site_config, has_reading_data, metadata_location, pipeline_plan, site_data, PasswordPolicy, SiteAuth, resolve_data_policy, site_capabilities, MetadataLocation,
    SiteConfigError, StartupError,
};

fn common(argv: &[&str]) -> CommonArgs {
    let matches = Cli::command().try_get_matches_from(argv).expect("CLI args should parse");
    let cli = Cli::from_arg_matches(&matches).expect("CLI should convert from matches");
    match cli.command {
        CliCommand::Serve(a) => a.common,
        CliCommand::Export(a) => a.common,
        _ => panic!("expected serve or export"),
    }
}

#[test]
fn metadata_location_prefers_docsettings() {
    let c = common(&["koshelf", "export", "/out", "-i", "/lib"]);
    assert_eq!(metadata_location(&c), MetadataLocation::InBookFolder);
    let c = common(&["koshelf", "export", "/out", "-i", "/lib", "--hashdocsettings-path", "/h"]);
    assert_eq!(metadata_location(&c), MetadataLocation::HashDocSettings("/h".to_string()));
    let c = common(&["koshelf", "export", "/out", "-i", "/lib", "--docsettings-path", "/d"]);
    assert_eq!(metadata_location(&c), MetadataLocation::DocSettings("/d".to_string()));
}

#[test]
fn data_policy_is_persistent_with_a_data_path() {
    let c = common(&["koshelf", "serve", "-i", "/lib", "--data-path", "/data"]);
    let p = resolve_data_policy(&c);
    assert!(p.is_persistent());
    assert_eq!(p.persistent_data_dir(), Some(&"/data".to_string()));

    let c = common(&["koshelf", "export", "/out", "-i", "/lib"]);
    let mut p = resolve_data_policy(&c);
    assert!(!p.is_persistent());
    p.set_resolved_data_dir("/tmp/run".to_string());
    assert_eq!(p.data_dir, Some("/tmp/run".to_string()));
    assert_eq!(p.persistent_data_dir(), None);
}

#[test]
fn site_config_reads_durations_and_flags() {
    let c = common(&[
        "koshelf",
        "export",
        "/out",
        "-i",
        "/lib",
        "--heatmap-scale-max",
        "1h30m",
        "--min-time-per-day",
        "off",
        "--ignore-stable-page-metadata",
    ]);
    let policy = resolve_data_policy(&c);
    let config = build_site_config(&c, "/out".to_string(), false, false, true, true, policy, Ok::<u8, ()>(7))
        .expect("config builds");
    assert_eq!(config.heatmap_scale_max, Some(5400));
    assert_eq!(config.min_time_per_day, None);
    assert!(!config.use_stable_page_metadata);
    assert_eq!(config.time_config, 7);
    assert_eq!(config.site_title, "KoShelf");
    assert_eq!(config.library_paths, vec!["/lib".to_string()]);
    let caps = site_capabilities(&config, true, false, true);
    assert!(caps.has_files && caps.has_writeback && caps.has_books && !caps.has_comics && caps.has_reading_data);
}

#[test]
fn site_config_default_durations() {
    let c = common(&["koshelf", "export", "/out", "-i", "/lib"]);
    let config = build_site_config(&c, "/out".to_string(), true, false, false, false, resolve_data_policy(&c), Ok::<(), ()>(()))
        .expect("config builds");
    assert_eq!(config.heatmap_scale_max, Some(7200));
    assert_eq!(config.min_time_per_day, Some(30));
    let caps = site_capabilities(&config, false, true, false);
    assert!(caps.has_files && !caps.has_writeback);
}

#[test]
fn site_config_errors_come_in_order() {
    let c = common(&["koshelf", "export", "/out", "-i", "/lib", "--heatmap-scale-max", "x", "--min-time-per-day", "0s"]);
    let r = build_site_config(&c, "/out".to_string(), false, false, false, false, resolve_data_policy(&c), Err::<(), &str>("tz"));
    assert!(matches!(r, Err(SiteConfigError::InvalidHeatmapScaleMax(TimeParseError::NoMatch))));

    let c = common(&["koshelf", "export", "/out", "-i", "/lib", "--min-time-per-day", "0s"]);
    let r = build_site_config(&c, "/out".to_string(), false, false, false, false, resolve_data_policy(&c), Err::<(), &str>("tz"));
    assert!(matches!(r, Err(SiteConfigError::InvalidMinTimePerDay(TimeParseError::Zero))));

    let c = common(&["koshelf", "export", "/out", "-i", "/lib"]);
    let r = build_site_config(&c, "/out".to_string(), false, false, false, false, resolve_data_policy(&c), Err::<(), &str>("tz"));
    assert!(matches!(r, Err(SiteConfigError::TimeConfig("tz"))));
}

#[test]
fn serve_pipeline_needs_a_persistent_data_dir() {
    let c = common(&["koshelf", "serve", "-i", "/lib"]);
    let config = build_site_config(&c, "/out".to_string(), true, false, false, false, resolve_data_policy(&c), Ok::<(), ()>(()))
        .expect("config builds");
    assert_eq!(pipeline_plan(&config), Err(StartupError::DataPathRequired));

    let c = common(&["koshelf", "serve", "-i", "/lib", "--data-path", "/data", "--enable-auth"]);
    let config = build_site_config(&c, "/out".to_string(), true, true, false, false, resolve_data_policy(&c), Ok::<(), ()>(()))
        .expect("config builds");
    let plan = pipeline_plan(&config).expect("plan");
    assert!(!plan.make_temp_data_dir && plan.sync_library && plan.clean_stale_covers && plan.clean_stale_files && plan.offer_auth);
    assert_eq!(plan.create_data_dir, Some("/data".to_string()));
}

#[test]
fn export_pipeline_uses_a_temporary_data_dir() {
    let c = common(&["koshelf", "export", "/out", "-s", "/stats.sqlite3"]);
    let config = build_site_config(&c, "/out".to_string(), false, false, false, false, resolve_data_policy(&c), Ok::<(), ()>(()))
        .expect("config builds");
    let plan = pipeline_plan(&config).expect("plan");
    assert!(plan.make_temp_data_dir && !plan.sync_library && !plan.clean_stale_covers && !plan.clean_stale_files && !plan.offer_auth);
    assert_eq!(plan.create_data_dir, None);
}

#[test]
fn site_data_tells_title_language_and_auth() {
    let c = common(&["koshelf", "serve", "-i", "/lib", "--data-path", "/data", "--title", "Shelf", "--enable-auth"]);
    let config = build_site_config(&c, "/out".to_string(), true, true, false, false, resolve_data_policy(&c), Ok::<(), ()>(()))
        .expect("config builds");
    let caps = site_capabilities(&config, true, false, has_reading_data(Some(3)));
    let data = site_data(&config, caps, true, 8);
    assert_eq!(data.title, "Shelf");
    assert_eq!(data.language, "en_US");
    assert!(data.capabilities.has_reading_data);
    assert_eq!(data.auth, Some(SiteAuth { authenticated: false, password_policy: PasswordPolicy { min_chars: 8 } }));
    assert_eq!(site_data(&config, caps, false, 8).auth, None);
    assert!(!has_reading_data(Some(0)));
    assert!(!has_reading_data(None));
}
