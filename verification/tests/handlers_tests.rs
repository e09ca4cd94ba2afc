use weather::error::Invalid;
use weather::{
    list_aliases, list_providers, remove_alias, set_alias, set_provider, AppConfig, Error,
    FileRead, ProviderConfig, Settings,
};

fn empty_config() -> AppConfig {
    AppConfig::new("/tmp/w/config.json".to_string(), FileRead::Text("{}".to_string()))
}

fn default_config() -> AppConfig {
    AppConfig::new("/tmp/w/config.json".to_string(), FileRead::Missing)
}

#[test]
fn first_alias_becomes_the_default() {
    let mut config = empty_config();
    let change = set_alias(&mut config, "home", Some("London, UK")).unwrap();
    assert_eq!(config.get().default_alias, Some("home".to_string()));
    assert_eq!(config.get().addresses.get("home"), Some(&"London, UK".to_string()));
    assert_eq!(change.notice, "Alias 'home' set as default.\n");
    assert_eq!(change.report, "Alias 'home' set to 'London, UK'\n");
    assert_eq!(change.save.path, "/tmp/w/config.json");
    assert_eq!(change.save.temp_path, "/tmp/w/config.tmp");
    assert_eq!(change.save.parent, Some("/tmp/w".to_string()));
    assert_eq!(change.save.document, config.get().to_document().unwrap());
    assert_eq!(
        change.save.document,
        "{\n  \"addresses\": {\n    \"home\": \"London, UK\"\n  },\n  \"default_alias\": \"home\",\n  \"providers\": {}\n}"
    );
}

#[test]
fn second_alias_leaves_the_default() {
    let mut config = empty_config();
    set_alias(&mut config, "home", Some("London, UK")).unwrap();
    let change = set_alias(&mut config, "  work ", Some(" Berlin ")).unwrap();
    assert_eq!(change.notice, "");
    assert_eq!(change.report, "Alias 'work' set to ' Berlin '\n");
    assert_eq!(config.get().default_alias, Some("home".to_string()));
    assert_eq!(config.get().addresses.get("work"), Some(&" Berlin ".to_string()));
    assert_eq!(config.get().addresses.len(), 2);
    // Storing again replaces the address.
    set_alias(&mut config, "work", Some("Bonn")).unwrap();
    assert_eq!(config.get().addresses.get("work"), Some(&"Bonn".to_string()));
    assert_eq!(config.get().addresses.len(), 2);
}

#[test]
fn bad_aliases_and_addresses_change_nothing() {
    let mut config = empty_config();
    for address in ["", "   ", "\t\n"] {
        assert_eq!(
            set_alias(&mut config, "home", Some(address)),
            Err(Error::Validation(Invalid::EmptyAddress))
        );
    }
    for alias in ["", "  ", "sixsix", "  toolong  "] {
        assert_eq!(
            set_alias(&mut config, alias, Some("London")),
            Err(Error::Validation(Invalid::AliasLength))
        );
    }
    assert_eq!(*config.get(), Settings::empty());
    // Five characters are fine, whatever their size in bytes.
    assert!(set_alias(&mut config, "\u{e9}\u{e9}\u{e9}\u{e9}\u{e9}", Some("x")).is_ok());
    assert!(set_alias(&mut config, " five5 ", Some("x")).is_ok());
    assert_eq!(
        Error::Validation(Invalid::EmptyAddress).message(),
        "Address cannot be empty. Use --address <ADDRESS>"
    );
    assert_eq!(
        Error::Validation(Invalid::AliasLength).message(),
        "Alias must be between 1 and 5 characters long."
    );
}

#[test]
fn default_alias_must_be_stored() {
    let mut config = empty_config();
    set_alias(&mut config, "home", Some("London")).unwrap();
    set_alias(&mut config, "work", Some("Berlin")).unwrap();
    let error = set_alias(&mut config, "gone", None).unwrap_err();
    assert_eq!(error, Error::Validation(Invalid::AliasNotFound("gone".to_string())));
    assert_eq!(error.message(), "Alias 'gone' not found");
    assert_eq!(config.get().default_alias, Some("home".to_string()));
    let change = set_alias(&mut config, "work", None).unwrap();
    assert_eq!(change.notice, "");
    assert_eq!(change.report, "Alias 'work' set as default.\n");
    assert_eq!(config.get().default_alias, Some("work".to_string()));
}

#[test]
fn removing_aliases() {
    let mut config = empty_config();
    set_alias(&mut config, "home", Some("London")).unwrap();
    set_alias(&mut config, "work", Some("Berlin")).unwrap();
    let change = remove_alias(&mut config, "work").unwrap();
    assert_eq!(change.report, "Alias 'work' removed.\n");
    assert_eq!(config.get().default_alias, Some("home".to_string()));
    let change = remove_alias(&mut config, "work").unwrap();
    assert_eq!(change.report, "Alias 'work' not found.\n");
    assert_eq!(change.save.document, config.get().to_document().unwrap());
    let change = remove_alias(&mut config, "home").unwrap();
    assert_eq!(
        change.report,
        "Alias 'home' removed.\nNote: 'home' was the default alias. Default alias is now unset.\n"
    );
    assert_eq!(config.get().default_alias, None);
    assert!(config.get().addresses.is_empty());
}

#[test]
fn removing_a_dangling_default_clears_it_silently() {
    let mut config = AppConfig::new(
        "c.json".to_string(),
        FileRead::Text(r#"{"default_alias": "gone"}"#.to_string()),
    );
    let change = remove_alias(&mut config, "gone").unwrap();
    assert_eq!(change.report, "Alias 'gone' not found.\n");
    assert_eq!(config.get().default_alias, None);
}

#[test]
fn listing_aliases() {
    let mut config = empty_config();
    assert_eq!(list_aliases(config.get()), "No aliases are set.\n");
    set_alias(&mut config, "work", Some("Berlin, a city with a rather long description")).unwrap();
    set_alias(&mut config, "home", Some("London, UK")).unwrap();
    assert_eq!(
        list_aliases(config.get()),
        "Aliases:\n\n\
         ALIAS      | ADDRESS                       \n\
         -----------+--------------\n\
         home       | London, UK                    \n\
         work       | Berlin, a city with a rather long description\n\
         \n\
         Default alias: work\n"
    );
    remove_alias(&mut config, "work").unwrap();
    assert!(list_aliases(config.get()).ends_with("\n\nNo default alias is set.\n"));
}

#[test]
fn listing_providers() {
    let mut config = default_config();
    assert_eq!(
        list_providers(config.get()),
        "Weather providers:\n\n\
         ID    | PROVIDER        | API KEY   \n\
         ------+-----------------+---------\n\
         mock  | MockWeather     | mock-key  \n\
         grpc  | GrpcMockWeather | grpc-mock-key\n\
         ow    | OpenWeather     | -         \n\
         wa    | WeatherApi      | -         \n\
         \n\
         Default provider is not set.\n"
    );
    set_provider(&mut config, "ow", Some("abc")).unwrap();
    let text = list_providers(config.get());
    assert!(text.contains("ow    | OpenWeather     | abc       \n"));
    assert!(text.ends_with("\nDefault provider: 'OpenWeather' (ow)\n"));
    let odd = AppConfig::new(
        "c.json".to_string(),
        FileRead::Text(r#"{"default_provider": "nobody", "providers": {"wa": {"key": ""}}}"#.to_string()),
    );
    let text = list_providers(odd.get());
    assert!(text.contains("mock  | MockWeather     | -         \n"));
    assert!(text.contains("wa    | WeatherApi      | -         \n"));
    assert!(text.ends_with("\nDefault provider: 'nobody' (nobody)\n"));
}

#[test]
fn setting_a_provider_with_a_key() {
    let mut config = default_config();
    let change = set_provider(&mut config, "OpenWeather", Some("abc")).unwrap();
    assert_eq!(change.notice, "");
    assert_eq!(
        change.report,
        "API key for 'OpenWeather' updated.\nDefault provider set to: 'OpenWeather'\n\n"
    );
    assert_eq!(config.get().default_provider, Some("ow".to_string()));
    assert_eq!(
        config.get().providers.get("ow"),
        Some(&ProviderConfig { key: Some("abc".to_string()) })
    );
    assert_eq!(change.save.document, config.get().to_document().unwrap());
    // Once the key is stored the provider can be chosen without it.
    set_provider(&mut config, "mock", None).unwrap();
    let change = set_provider(&mut config, "ow", None).unwrap();
    assert_eq!(change.report, "Default provider set to: 'OpenWeather'\n\n");
    assert_eq!(config.get().default_provider, Some("ow".to_string()));
}

#[test]
fn setting_a_provider_without_a_key() {
    let mut config = default_config();
    for key in [None, Some("")] {
        let change = set_provider(&mut config, "wa", key).unwrap();
        assert_eq!(
            change.report,
            "WARNING: API key not found for 'WeatherApi'. Default provider NOT changed.\nPlease set the key first using --key <API_KEY>\n"
        );
        assert_eq!(config.get().default_provider, None);
        assert_eq!(config.get().providers.get("wa"), None);
    }
    let change = set_provider(&mut config, "mock", None).unwrap();
    assert_eq!(change.report, "Default provider set to: 'MockWeather'\n\n");
    assert_eq!(config.get().default_provider, Some("mock".to_string()));
    let empty = AppConfig::new("c.json".to_string(), FileRead::Text("{}".to_string()));
    let mut empty = empty;
    // The offline mock needs no key at all.
    set_provider(&mut empty, "MockWeather", None).unwrap();
    assert_eq!(empty.get().default_provider, Some("mock".to_string()));
}

#[test]
fn unknown_provider_changes_nothing() {
    let mut config = default_config();
    assert_eq!(
        set_provider(&mut config, "nobody", Some("k")),
        Err(Error::UnknownProvider { input: "nobody".to_string() })
    );
    assert_eq!(*config.get(), Settings::default());
}
