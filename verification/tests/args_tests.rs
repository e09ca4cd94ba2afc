use weather::args::{usage, Opt, UsageError};
use weather::{run, Action, AppCommands, Cli};

#[test]
fn verify_cli() {
    // Every command and every option that the reader takes is told about.
    let text = usage();
    for word in [
        "Usage:", "Commands:", "get", "provider", "alias", "--debug", "--help", "--version",
        "--date", "--provider", "--key", "--list", "--address", "--remove",
    ] {
        assert!(text.contains(word), "{}", word);
    }
    for letter in ["-d", "-p", "-k", "-l", "-a", "-r", "-h", "-V"] {
        assert!(text.contains(letter), "{}", letter);
    }
}

#[test]
fn test_parse_get_basic() {
    let args = Cli::try_parse_from(&["weather", "get", "London"]).unwrap();
    match args.command {
        Some(AppCommands::Get { address, date, provider }) => {
            assert_eq!(address, Some("London".to_string()));
            assert_eq!(date, None);
            assert_eq!(provider, None);
        }
        _ => panic!("Expected Get command"),
    }
}

#[test]
fn test_parse_get_full() {
    let args = Cli::try_parse_from(&[
        "weather", "get", "Paris", "--date", "2023-01-01", "--provider", "ow",
    ])
    .unwrap();

    match args.command {
        Some(AppCommands::Get { address, date, provider }) => {
            assert_eq!(address, Some("Paris".to_string()));
            assert_eq!(date, Some("2023-01-01".to_string()));
            assert_eq!(provider, Some("ow".to_string()));
        }
        _ => panic!("Expected Get command"),
    }
}

#[test]
fn test_provider_conflicts() {
    let result = Cli::try_parse_from(&["weather", "provider", "ow", "--list"]);
    assert!(result.is_err());

    let result = Cli::try_parse_from(&["weather", "provider", "--key", "123", "--list"]);
    assert!(result.is_err());

    let args = Cli::try_parse_from(&["weather", "provider", "--list"]).unwrap();
    match args.command {
        Some(AppCommands::Provider { list, .. }) => assert!(list),
        _ => panic!("Expected Provider command"),
    }
}

#[test]
fn test_alias_constraints() {
    // --address requires a name
    let result = Cli::try_parse_from(&["weather", "alias", "--address", "London"]);
    assert!(result.is_err());

    // --remove requires a name
    let result = Cli::try_parse_from(&["weather", "alias", "--remove"]);
    assert!(result.is_err());

    // --remove conflicts with --address
    let result = Cli::try_parse_from(&[
        "weather", "alias", "home", "--address", "London", "--remove",
    ]);
    assert!(result.is_err());

    // Valid alias setting
    let args =
        Cli::try_parse_from(&["weather", "alias", "home", "--address", "London, UK"]).unwrap();

    match args.command {
        Some(AppCommands::Alias { name, address, .. }) => {
            assert_eq!(name, Some("home".to_string()));
            assert_eq!(address, Some("London, UK".to_string()));
        }
        _ => panic!("Expected Alias command"),
    }
}

#[test]
fn test_global_debug_flag() {
    let args = Cli::try_parse_from(&["weather", "--debug", "get"]).unwrap();
    assert!(args.debug);
}

#[test]
fn each_refusal_has_its_input() {
    let cases: Vec<(Vec<&str>, UsageError)> = vec![
        (vec!["weather"], UsageError::NothingGiven),
        (vec![], UsageError::NothingGiven),
        (vec!["weather", "provider"], UsageError::NothingGiven),
        (vec!["weather", "alias"], UsageError::NothingGiven),
        (vec!["weather", "--debug", "alias"], UsageError::NothingGiven),
        (vec!["weather", "--help"], UsageError::Help),
        (vec!["weather", "get", "-h"], UsageError::Help),
        (vec!["weather", "--version"], UsageError::Version),
        (vec!["weather", "-V"], UsageError::Version),
        (vec!["weather", "get", "--version"], UsageError::Unknown("--version".to_string())),
        (vec!["weather", "fly"], UsageError::Unknown("fly".to_string())),
        (vec!["weather", "get", "--key", "k"], UsageError::Unknown("--key".to_string())),
        (vec!["weather", "get", "-x"], UsageError::Unknown("-x".to_string())),
        (vec!["weather", "get", "-dp"], UsageError::Unknown("-dp".to_string())),
        (vec!["weather", "get", "--date"], UsageError::MissingValue(Opt::Date)),
        (vec!["weather", "get", "--date", "--provider", "ow"], UsageError::MissingValue(Opt::Date)),
        (vec!["weather", "provider", "ow", "-k"], UsageError::MissingValue(Opt::Key)),
        (vec!["weather", "alias", "--list=yes"], UsageError::UnexpectedValue(Opt::List)),
        (vec!["weather", "--debug=1", "get"], UsageError::UnexpectedValue(Opt::Debug)),
        (vec!["weather", "--debug", "get", "--debug"], UsageError::Repeated(Opt::Debug)),
        (vec!["weather", "get", "-d", "1", "--date=2"], UsageError::Repeated(Opt::Date)),
        (vec!["weather", "get", "-p", "a", "-p", "b"], UsageError::Repeated(Opt::Provider)),
        (vec!["weather", "alias", "-l", "--list"], UsageError::Repeated(Opt::List)),
        (vec!["weather", "alias", "x", "-r", "-r"], UsageError::Repeated(Opt::Remove)),
        (vec!["weather", "get", "London", "Paris"], UsageError::Surplus("Paris".to_string())),
        (vec!["weather", "provider", "ow", "--list"], UsageError::Conflict(Opt::List, Opt::Name)),
        (vec!["weather", "provider", "-k", "1", "-l"], UsageError::Conflict(Opt::List, Opt::Key)),
        (vec!["weather", "alias", "-l", "-a", "x"], UsageError::Conflict(Opt::List, Opt::Address)),
        (vec!["weather", "alias", "-l", "-r"], UsageError::Conflict(Opt::List, Opt::Remove)),
        (vec!["weather", "alias", "h", "-a", "x", "-r"], UsageError::Conflict(Opt::Remove, Opt::Address)),
        (vec!["weather", "alias", "-a", "x"], UsageError::Requires(Opt::Address, Opt::Name)),
        (vec!["weather", "alias", "-r"], UsageError::Requires(Opt::Remove, Opt::Name)),
    ];
    for (words, expected) in cases {
        assert_eq!(Cli::try_parse_from(&words), Err(expected), "{:?}", words);
    }
}

#[test]
fn forms_of_options() {
    let expected = Cli {
        debug: true,
        command: Some(AppCommands::Get {
            address: Some("-x".to_string()),
            date: Some("a=b".to_string()),
            provider: Some("".to_string()),
        }),
    };
    assert_eq!(
        Cli::try_parse_from(&["w", "get", "--date=a=b", "--provider=", "--debug", "--", "-x"]),
        Ok(expected)
    );
    assert_eq!(
        Cli::try_parse_from(&["w", "get", "-"]),
        Ok(Cli {
            debug: false,
            command: Some(AppCommands::Get {
                address: Some("-".to_string()),
                date: None,
                provider: None
            })
        })
    );
    assert_eq!(
        Cli::try_parse_from(&["w", "--debug"]),
        Ok(Cli { debug: true, command: None })
    );
    assert_eq!(
        Cli::try_parse_from(&["w", "alias", "ab", "-r"]),
        Ok(Cli {
            debug: false,
            command: Some(AppCommands::Alias {
                name: Some("ab".to_string()),
                address: None,
                remove: true,
                list: false
            })
        })
    );
    assert_eq!(
        Cli::try_parse_from(&["w", "provider", "-k", "K", "wa"]),
        Ok(Cli {
            debug: false,
            command: Some(AppCommands::Provider {
                provider: Some("wa".to_string()),
                key: Some("K".to_string()),
                list: false
            })
        })
    );
}

fn text(s: &str) -> Option<String> {
    Some(s.to_string())
}

#[test]
fn run_decides_the_action() {
    let cli = |command| Cli { debug: false, command };
    assert_eq!(run(cli(None)), Action::Nothing);
    assert_eq!(
        run(cli(Some(AppCommands::Get { address: text("a"), date: None, provider: text("p") }))),
        Action::GetWeather { address: text("a"), date: None, provider: text("p") }
    );
    assert_eq!(
        run(cli(Some(AppCommands::Provider { provider: text("ow"), key: text("k"), list: true }))),
        Action::ListProviders
    );
    assert_eq!(
        run(cli(Some(AppCommands::Provider { provider: text("ow"), key: text("k"), list: false }))),
        Action::SetProvider { provider: "ow".to_string(), key: text("k") }
    );
    assert_eq!(
        run(cli(Some(AppCommands::Provider { provider: None, key: text("k"), list: false }))),
        Action::Nothing
    );
    assert_eq!(
        run(cli(Some(AppCommands::Alias { name: text("h"), address: text("x"), remove: true, list: true }))),
        Action::ListAliases
    );
    assert_eq!(
        run(cli(Some(AppCommands::Alias { name: text("h"), address: text("x"), remove: true, list: false }))),
        Action::RemoveAlias { name: "h".to_string() }
    );
    assert_eq!(
        run(cli(Some(AppCommands::Alias { name: text("h"), address: text("x"), remove: false, list: false }))),
        Action::SetAlias { name: "h".to_string(), address: text("x") }
    );
    assert_eq!(
        run(cli(Some(AppCommands::Alias { name: None, address: None, remove: false, list: false }))),
        Action::Nothing
    );
}
