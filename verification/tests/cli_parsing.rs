use koshelf::cli::{Cli, CliCommand};

#[test]
fn statistics_db_flag_is_repeatable() {
    let matches = Cli::command()
        .try_get_matches_from(&[
            "koshelf",
            "serve",
            "-s",
            "/kobo/statistics.sqlite3",
            "--statistics-db",
            "/boox/statistics.sqlite3",
        ])
        .expect("CLI args should parse");

    let cli = Cli::from_arg_matches(&matches).expect("CLI should convert from matches");
    let CliCommand::Serve(args) = cli.command else {
        panic!("expected serve command");
    };
    assert_eq!(
        args.common.statistics_db,
        vec![
            "/kobo/statistics.sqlite3".to_string(),
            "/boox/statistics.sqlite3".to_string(),
        ]
    );
}

#[test]
fn set_password_random_conflicts_with_password() {
    let matches = Cli::command().try_get_matches_from(&[
        "koshelf",
        "set-password",
        "--random",
        "--password",
        "explicit-pass",
    ]);

    assert!(
        matches.is_err(),
        "--random and --password should be mutually exclusive"
    );
}

#[test]
fn set_password_random_parses() {
    let matches = Cli::command()
        .try_get_matches_from(&["koshelf", "set-password", "--random"])
        .expect("CLI args should parse");

    let cli = Cli::from_arg_matches(&matches).expect("CLI should convert from matches");

    let CliCommand::SetPassword {
        password,
        random,
        overwrite,
        ..
    } = cli.command
    else {
        panic!("expected set-password command")
    };

    assert_eq!(password, None);
    assert!(random);
    assert!(!overwrite);
}

#[test]
fn bare_koshelf_shows_help_error() {
    let result = Cli::command().try_get_matches_from(&["koshelf"]);
    assert!(
        result.is_err(),
        "bare koshelf without subcommand should fail"
    );
}

#[test]
fn serve_parses_common_and_specific_flags() {
    let matches = Cli::command()
        .try_get_matches_from(&[
            "koshelf",
            "serve",
            "--library-path",
            "/lib",
            "--data-path",
            "/data",
            "--port",
            "8080",
        ])
        .expect("CLI args should parse");

    let cli = Cli::from_arg_matches(&matches).expect("CLI should convert from matches");

    let CliCommand::Serve(args) = cli.command else {
        panic!("expected serve command")
    };

    assert_eq!(args.common.library_path, vec!["/lib".to_string()]);
    assert_eq!(args.common.data_path, Some("/data".to_string()));
    assert_eq!(args.port, 8080);
}

#[test]
fn serve_parses_kobo_db() {
    let matches = Cli::command()
        .try_get_matches_from(&[
            "koshelf",
            "serve",
            "--library-path",
            "/lib",
            "--data-path",
            "/data",
            "--kobo-db",
            "/KoboReader.sqlite",
        ])
        .expect("CLI args should parse");

    let cli = Cli::from_arg_matches(&matches).expect("CLI should convert from matches");

    let CliCommand::Serve(args) = cli.command else {
        panic!("expected serve command")
    };

    assert_eq!(args.common.kobo_db, Some("/KoboReader.sqlite".to_string()));
}

#[test]
fn export_parses_positional_output() {
    let matches = Cli::command()
        .try_get_matches_from(&["koshelf", "export", "/out", "--library-path", "/lib"])
        .expect("CLI args should parse");

    let cli = Cli::from_arg_matches(&matches).expect("CLI should convert from matches");

    let CliCommand::Export(args) = cli.command else {
        panic!("expected export command")
    };

    assert_eq!(args.output, Some("/out".to_string()));
    assert_eq!(args.common.library_path, vec!["/lib".to_string()]);
}

#[test]
fn serve_rejects_export_flags() {
    let result = Cli::command().try_get_matches_from(&[
        "koshelf",
        "serve",
        "--library-path",
        "/lib",
        "--watch",
    ]);

    assert!(result.is_err(), "--watch should not be valid for serve");
}

#[test]
fn export_rejects_serve_flags() {
    let result = Cli::command().try_get_matches_from(&[
        "koshelf",
        "export",
        "/out",
        "--library-path",
        "/lib",
        "--port",
        "8080",
    ]);

    assert!(result.is_err(), "--port should not be valid for export");
}

#[test]
fn common_flags_work_in_both_subcommands() {
    for subcmd in ["serve", "export"] {
        let mut args = vec![
            "koshelf",
            subcmd,
            "--library-path",
            "/lib",
            "--title",
            "My Shelf",
            "--language",
            "de_DE",
        ];
        if subcmd == "serve" {
            args.extend(["--data-path", "/data"]);
        } else {
            args.push("/out");
        }
        let result = Cli::command().try_get_matches_from(&args);
        assert!(
            result.is_ok(),
            "common flags should work with {subcmd} subcommand"
        );
    }
}

#[test]
fn every_parsed_command_line_converts() {
    let env = vec![
        ("KOSHELF_PORT".to_string(), "8080".to_string()),
        ("KOSHELF_INCLUDE_UNREAD".to_string(), "true".to_string()),
        ("KOSHELF_MIN_PAGES_PER_DAY".to_string(), "12".to_string()),
    ];
    let lines: Vec<Vec<&str>> = vec![
        vec!["koshelf", "serve", "-i", "/lib"],
        vec!["koshelf", "export", "/out", "-s", "/s.sqlite3", "--watch"],
        vec!["koshelf", "-c", "/etc/koshelf.toml", "set-password", "--random"],
        vec!["koshelf", "list-languages"],
        vec!["koshelf", "licenses", "clap"],
        vec!["koshelf", "github"],
    ];
    for line in lines {
        let matches = Cli::command().try_get_matches_from_env(&line, &env).expect("CLI args should parse");
        assert!(Cli::from_arg_matches(&matches).is_ok(), "{line:?} should convert");
    }
    let matches = Cli::command()
        .try_get_matches_from_env(&["koshelf", "serve", "-i", "/lib"], &env)
        .expect("CLI args should parse");
    let CliCommand::Serve(args) = Cli::from_arg_matches(&matches).unwrap().command else {
        panic!("expected serve command");
    };
    assert_eq!(args.port, 8080);
    assert!(args.common.include_unread);
    assert_eq!(args.common.min_pages_per_day, Some(12));
}

#[test]
fn environment_value_of_wrong_form_is_refused() {
    let env = vec![("KOSHELF_PORT".to_string(), "eighty".to_string())];
    assert!(Cli::command().try_get_matches_from_env(&["koshelf", "serve"], &env).is_err());
}

#[test]
fn trusted_proxies_split_on_commas_or_repeat() {
    let read = |argv: &[&str]| {
        let matches = Cli::command().try_get_matches_from(argv).expect("CLI args should parse");
        let CliCommand::Serve(args) = Cli::from_arg_matches(&matches).unwrap().command else {
            panic!("expected serve command");
        };
        args.trusted_proxies
    };
    let split = read(&["koshelf", "serve", "--trusted-proxies", "10.0.0.0/8,::1/128"]);
    let repeated = read(&["koshelf", "serve", "--trusted-proxies", "10.0.0.0/8", "--trusted-proxies", "::1/128"]);
    assert_eq!(split, vec!["10.0.0.0/8".to_string(), "::1/128".to_string()]);
    assert_eq!(split, repeated);
}

#[test]
fn command_line_password_wins_over_environment() {
    let env = vec![("KOSHELF_PASSWORD".to_string(), "from-env".to_string())];
    let matches = Cli::command()
        .try_get_matches_from_env(&["koshelf", "set-password", "--password", "from-cli"], &env)
        .expect("CLI args should parse");
    let CliCommand::SetPassword { password, .. } = Cli::from_arg_matches(&matches).unwrap().command else {
        panic!("expected set-password command");
    };
    assert_eq!(password, Some("from-cli".to_string()));

    let matches = Cli::command()
        .try_get_matches_from_env(&["koshelf", "set-password"], &env)
        .expect("CLI args should parse");
    let CliCommand::SetPassword { password, .. } = Cli::from_arg_matches(&matches).unwrap().command else {
        panic!("expected set-password command");
    };
    assert_eq!(password, Some("from-env".to_string()));
}

#[test]
fn config_is_global() {
    for argv in [
        vec!["koshelf", "--config", "/k.toml", "github"],
        vec!["koshelf", "github", "--config", "/k.toml"],
    ] {
        let matches = Cli::command().try_get_matches_from(&argv).expect("CLI args should parse");
        let cli = Cli::from_arg_matches(&matches).unwrap();
        assert_eq!(cli.config, Some("/k.toml".to_string()));
    }
}
