use koshelf::cli::{Cli, CliCommand};
use koshelf::file_config::{FileConfig, KoshelfSection, LibrarySection, OutputSection, ServerSection, StatisticsSection};
use koshelf::merge::{
    merge_export_with_file_config, merge_serve_with_file_config, merge_set_password_data_path, not_explicit,
};

#[test]
fn cli_data_path_wins_over_file_config() {
    let matches = Cli::command()
        .try_get_matches_from(&[
            "koshelf",
            "serve",
            "--data-path",
            "/runtime/from-cli",
            "--library-path",
            "/library",
        ])
        .expect("CLI args should parse");

    let mut cli = Cli::from_arg_matches(&matches).expect("CLI should convert from matches");
    let file_config = FileConfig {
        koshelf: Some(KoshelfSection {
            data_path: Some("/runtime/from-config".to_string()),
            ..KoshelfSection::default()
        }),
        ..FileConfig::default()
    };

    let (_, sub_matches) = matches.subcommand().unwrap();
    let CliCommand::Serve(ref mut args) = cli.command else {
        panic!("expected serve command");
    };
    merge_serve_with_file_config(args, &file_config, sub_matches);

    assert_eq!(
        args.common.data_path,
        Some("/runtime/from-cli".to_string()),
        "explicit CLI value should not be overridden by config file"
    );
}

#[test]
fn file_config_data_path_is_used_when_cli_not_explicit() {
    let matches = Cli::command()
        .try_get_matches_from(&["koshelf", "serve", "--library-path", "/library"])
        .expect("CLI args should parse");

    let mut cli = Cli::from_arg_matches(&matches).expect("CLI should convert from matches");
    let file_config = FileConfig {
        koshelf: Some(KoshelfSection {
            data_path: Some("/runtime/from-config".to_string()),
            ..KoshelfSection::default()
        }),
        ..FileConfig::default()
    };

    let (_, sub_matches) = matches.subcommand().unwrap();
    let CliCommand::Serve(ref mut args) = cli.command else {
        panic!("expected serve command");
    };
    merge_serve_with_file_config(args, &file_config, sub_matches);

    assert_eq!(
        args.common.data_path,
        Some("/runtime/from-config".to_string()),
        "config file should provide fallback value"
    );
}

#[test]
fn export_output_from_file_config() {
    let matches = Cli::command()
        .try_get_matches_from(&["koshelf", "export", "--library-path", "/library"])
        .expect("CLI args should parse");

    let mut cli = Cli::from_arg_matches(&matches).expect("CLI should convert from matches");
    let file_config = FileConfig {
        output: Some(OutputSection {
            path: Some("/output/from-config".to_string()),
            include_files: None,
            watch: None,
        }),
        ..FileConfig::default()
    };

    let (_, sub_matches) = matches.subcommand().unwrap();
    let CliCommand::Export(ref mut args) = cli.command else {
        panic!("expected export command");
    };
    merge_export_with_file_config(args, &file_config, sub_matches);

    assert_eq!(
        args.output,
        Some("/output/from-config".to_string()),
        "config file should provide output path"
    );
}

#[test]
fn file_config_kobo_db_is_used_when_cli_not_explicit() {
    let matches = Cli::command()
        .try_get_matches_from(&["koshelf", "serve", "--library-path", "/library"])
        .expect("CLI args should parse");

    let mut cli = Cli::from_arg_matches(&matches).expect("CLI should convert from matches");
    let file_config = FileConfig {
        library: Some(LibrarySection {
            kobo_db: Some("/runtime/KoboReader.sqlite".to_string()),
            ..LibrarySection::default()
        }),
        ..FileConfig::default()
    };

    let (_, sub_matches) = matches.subcommand().unwrap();
    let CliCommand::Serve(ref mut args) = cli.command else {
        panic!("expected serve command");
    };
    merge_serve_with_file_config(args, &file_config, sub_matches);

    assert_eq!(args.common.kobo_db, Some("/runtime/KoboReader.sqlite".to_string()));
}

#[test]
fn cli_kobo_db_wins_over_file_config() {
    let matches = Cli::command()
        .try_get_matches_from(&[
            "koshelf",
            "serve",
            "--library-path",
            "/library",
            "--kobo-db",
            "/runtime/from-cli.sqlite",
        ])
        .expect("CLI args should parse");

    let mut cli = Cli::from_arg_matches(&matches).expect("CLI should convert from matches");
    let file_config = FileConfig {
        library: Some(LibrarySection {
            kobo_db: Some("/runtime/from-config.sqlite".to_string()),
            ..LibrarySection::default()
        }),
        ..FileConfig::default()
    };

    let (_, sub_matches) = matches.subcommand().unwrap();
    let CliCommand::Serve(ref mut args) = cli.command else {
        panic!("expected serve command");
    };
    merge_serve_with_file_config(args, &file_config, sub_matches);

    assert_eq!(args.common.kobo_db, Some("/runtime/from-cli.sqlite".to_string()));
}

#[test]
fn file_fills_defaults_but_not_explicit_flags() {
    let matches = Cli::command()
        .try_get_matches_from(&["koshelf", "serve", "--library-path", "/cli-lib", "--port", "9000"])
        .expect("CLI args should parse");
    let mut cli = Cli::from_arg_matches(&matches).expect("CLI should convert from matches");
    let file_config = FileConfig {
        library: Some(LibrarySection {
            paths: Some(vec!["/file-lib".to_string()]),
            include_unread: Some(true),
            ..LibrarySection::default()
        }),
        koshelf: Some(KoshelfSection { title: Some("From File".to_string()), ..KoshelfSection::default() }),
        server: Some(ServerSection {
            port: Some(1234),
            enable_auth: Some(true),
            trusted_proxies: Some(vec![]),
            ..ServerSection::default()
        }),
        statistics: Some(StatisticsSection { min_pages_per_day: Some(5), ..StatisticsSection::default() }),
        ..FileConfig::default()
    };
    let (_, sub_matches) = matches.subcommand().unwrap();
    let CliCommand::Serve(ref mut args) = cli.command else {
        panic!("expected serve command");
    };
    merge_serve_with_file_config(args, &file_config, sub_matches);
    assert_eq!(args.common.library_path, vec!["/cli-lib".to_string()]);
    assert_eq!(args.port, 9000);
    assert!(args.common.include_unread);
    assert_eq!(args.common.title, "From File");
    assert!(args.enable_auth);
    assert_eq!(args.common.min_pages_per_day, Some(5));
    assert!(args.trusted_proxies.is_empty());
}

#[test]
fn empty_file_list_does_not_replace_library_paths() {
    let matches = Cli::command()
        .try_get_matches_from(&["koshelf", "export", "/out"])
        .expect("CLI args should parse");
    let mut cli = Cli::from_arg_matches(&matches).expect("CLI should convert from matches");
    let file_config = FileConfig {
        library: Some(LibrarySection {
            paths: Some(vec![]),
            statistics_db: Some(vec![]),
            ..LibrarySection::default()
        }),
        ..FileConfig::default()
    };
    let (_, sub_matches) = matches.subcommand().unwrap();
    let CliCommand::Export(ref mut args) = cli.command else {
        panic!("expected export command");
    };
    let before = args.clone();
    merge_export_with_file_config(args, &file_config, sub_matches);
    assert_eq!(*args, before);
}

#[test]
fn environment_value_counts_as_explicit() {
    let env = vec![("KOSHELF_DATA_PATH".to_string(), "/from-env".to_string())];
    let matches = Cli::command()
        .try_get_matches_from_env(&["koshelf", "set-password", "--random"], &env)
        .expect("CLI args should parse");
    let (_, sub_matches) = matches.subcommand().unwrap();
    assert!(!not_explicit(sub_matches, "data_path"));
    assert!(not_explicit(sub_matches, "password"));
    let mut data_path = Some("/from-env".to_string());
    let file_config = FileConfig {
        koshelf: Some(KoshelfSection { data_path: Some("/from-file".to_string()), ..KoshelfSection::default() }),
        ..FileConfig::default()
    };
    merge_set_password_data_path(&mut data_path, &file_config, sub_matches);
    assert_eq!(data_path, Some("/from-env".to_string()));
}

#[test]
fn set_password_takes_file_data_path() {
    let matches = Cli::command()
        .try_get_matches_from(&["koshelf", "set-password", "--random"])
        .expect("CLI args should parse");
    let (_, sub_matches) = matches.subcommand().unwrap();
    let mut data_path = None;
    let file_config = FileConfig {
        koshelf: Some(KoshelfSection { data_path: Some("/from-file".to_string()), ..KoshelfSection::default() }),
        ..FileConfig::default()
    };
    merge_set_password_data_path(&mut data_path, &file_config, sub_matches);
    assert_eq!(data_path, Some("/from-file".to_string()));
}
