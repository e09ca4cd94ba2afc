use weather::{ProviderConfig, Settings, TextMap};

fn config(key: &str) -> ProviderConfig {
    ProviderConfig {
        key: Some(key.to_string()),
    }
}

#[test]
fn test_default_settings() {
    let settings = Settings::default();

    assert!(settings.addresses.is_empty());
    assert_eq!(settings.default_alias, None);
    assert_eq!(settings.default_provider, None);

    // Mock provider should be present by default
    assert!(settings.providers.contains_key("mock"));
    assert_eq!(
        settings.providers.get("mock").unwrap().key,
        Some("mock-key".to_string())
    );
}

#[test]
fn default_settings_hold_both_mock_keys() {
    let settings = Settings::default();
    assert_eq!(settings.providers.len(), 2);
    assert_eq!(settings.stored_key("grpc"), Some("grpc-mock-key"));
    assert_eq!(settings.stored_key("mock"), Some("mock-key"));
    assert_eq!(settings.stored_key("ow"), None);
    let (first, _) = settings.providers.entry(0).unwrap();
    let (second, _) = settings.providers.entry(1).unwrap();
    assert_eq!((first, second), ("grpc", "mock"));
    assert!(settings.providers.entry(2).is_none());
}

#[test]
fn test_serialization_skip_none() {
    let settings = Settings {
        addresses: TextMap::new(),
        default_alias: None,
        providers: TextMap::new(),
        default_provider: None,
    };

    let document = settings.to_document().unwrap();
    let value: serde_json::Value = serde_json::from_str(&document).unwrap();
    let json_output = serde_json::to_string(&value).unwrap();

    assert_eq!(json_output, r#"{"addresses":{},"providers":{}}"#);
    assert_eq!(document, "{\n  \"addresses\": {},\n  \"providers\": {}\n}");
}

#[test]
fn test_serialization_full() {
    let mut addresses = TextMap::new();
    addresses.insert("home".to_string(), "London".to_string());

    let mut providers = TextMap::new();
    providers.insert("ow".to_string(), config("12345"));

    let settings = Settings {
        addresses,
        default_alias: Some("home".to_string()),
        providers,
        default_provider: Some("ow".to_string()),
    };

    let document = settings.to_document().unwrap();
    let json_value: serde_json::Value = serde_json::from_str(&document).unwrap();

    assert_eq!(json_value["default_alias"], "home");
    assert_eq!(json_value["default_provider"], "ow");
    assert_eq!(json_value["addresses"]["home"], "London");
    assert_eq!(json_value["providers"]["ow"]["key"], "12345");
    assert_eq!(
        document,
        "{\n  \"addresses\": {\n    \"home\": \"London\"\n  },\n  \"default_alias\": \"home\",\n  \"default_provider\": \"ow\",\n  \"providers\": {\n    \"ow\": {\n      \"key\": \"12345\"\n    }\n  }\n}"
    );
}

#[test]
fn test_deserialization_partial() {
    let json_input = r#"{"addresses": {"work": "Berlin"}}"#;

    let settings = Settings::from_document(json_input).unwrap();

    assert_eq!(settings.addresses.get("work"), Some(&"Berlin".to_string()));
    assert_eq!(settings.default_alias, None);
    assert!(settings.providers.is_empty());
}

#[test]
fn test_btreemap_ordering() {
    let mut settings = Settings::default();
    settings.addresses.insert("z".to_string(), "Last".to_string());
    settings.addresses.insert("a".to_string(), "First".to_string());

    let json_output = settings.to_document().unwrap();

    let a_pos = json_output.find("a").unwrap();
    let z_pos = json_output.find("z").unwrap();

    assert!(a_pos < z_pos, "Keys should be sorted alphabetically");
    let first = json_output.find("\"a\": \"First\"").unwrap();
    let last = json_output.find("\"z\": \"Last\"").unwrap();
    assert!(first < last);
    assert_eq!(settings.addresses.entry(0).unwrap().0, "a");
    assert_eq!(settings.addresses.entry(1).unwrap().0, "z");
}

#[test]
fn map_keeps_keys_in_byte_order() {
    let mut map: TextMap<String> = TextMap::new();
    for key in ["b", "a", "B", "\u{e9}", "ab", "", "z", "a"] {
        map.insert(key.to_string(), key.to_uppercase());
    }
    let mut keys = Vec::new();
    let mut i = 0;
    while let Some((key, _)) = map.entry(i) {
        keys.push(key.to_string());
        i += 1;
    }
    assert_eq!(keys, vec!["", "B", "a", "ab", "b", "z", "\u{e9}"]);
    assert_eq!(map.len(), 7);
}

#[test]
fn map_insert_get_remove() {
    let mut map: TextMap<String> = TextMap::new();
    assert!(map.is_empty());
    assert_eq!(map.insert("k".to_string(), "1".to_string()), None);
    assert_eq!(map.insert("k".to_string(), "2".to_string()), Some("1".to_string()));
    assert_eq!(map.get("k"), Some(&"2".to_string()));
    assert_eq!(map.get("K"), None);
    assert!(map.contains_key("k"));
    assert_eq!(map.remove("missing"), None);
    assert_eq!(map.remove("k"), Some("2".to_string()));
    assert!(!map.contains_key("k"));
    assert!(map.is_empty());
}

#[test]
fn clone_keeps_everything() {
    let mut settings = Settings::default();
    settings.addresses.insert("home".to_string(), "London, UK".to_string());
    settings.default_alias = Some("home".to_string());
    settings.default_provider = Some("ow".to_string());
    assert_eq!(settings.clone(), settings);
}

#[test]
fn usable_key_leaves_out_empty_keys() {
    let mut settings = Settings::empty();
    settings.providers.insert("ow".to_string(), config(""));
    settings.providers.insert("wa".to_string(), ProviderConfig::default());
    settings.providers.insert("grpc".to_string(), config("k"));
    assert_eq!(settings.stored_key("ow"), Some(""));
    assert_eq!(settings.usable_key("ow"), None);
    assert_eq!(settings.stored_key("wa"), None);
    assert_eq!(settings.usable_key("grpc"), Some("k"));
}

#[test]
fn document_round_trip() {
    let mut settings = Settings::default();
    settings.addresses.insert("home".to_string(), "London, UK".to_string());
    settings.addresses.insert("w\"k".to_string(), "Line\nbreak \\ \u{1F600} \u{e9}".to_string());
    settings.providers.insert("wa".to_string(), ProviderConfig::default());
    settings.default_alias = Some("gone".to_string());
    settings.default_provider = Some("nobody".to_string());
    let document = settings.to_document().unwrap();
    assert_eq!(Settings::from_document(&document).unwrap(), settings);
    // Writing what was read gives the same text.
    let again = Settings::from_document(&document).unwrap().to_document().unwrap();
    assert_eq!(again, document);
}

#[test]
fn absent_members_and_nulls_are_empty() {
    let settings = Settings::from_document("{}").unwrap();
    assert_eq!(settings, Settings::empty());
    let settings = Settings::from_document(
        r#"{"default_alias": null, "default_provider": null, "providers": {"ow": {"key": null}, "wa": {}}, "unknown": [1, 2.5, true]}"#,
    )
    .unwrap();
    assert_eq!(settings.default_alias, None);
    assert_eq!(settings.default_provider, None);
    assert_eq!(settings.providers.get("ow"), Some(&ProviderConfig { key: None }));
    assert_eq!(settings.providers.get("wa"), Some(&ProviderConfig { key: None }));
    assert!(settings.addresses.is_empty());
}

#[test]
fn documents_of_another_shape_are_refused() {
    for text in [
        "",
        "not json",
        "[]",
        "null",
        "42",
        r#"{"addresses": []}"#,
        r#"{"addresses": null}"#,
        r#"{"addresses": {"home": 5}}"#,
        r#"{"default_alias": 7}"#,
        r#"{"default_provider": {}}"#,
        r#"{"providers": {"ow": "key"}}"#,
        r#"{"providers": {"ow": {"key": 1}}}"#,
        r#"{"addresses": {}} trailing"#,
    ] {
        let error = Settings::from_document(text).unwrap_err();
        assert!(
            matches!(
                error,
                weather::Error::ConfigIo {
                    fault: weather::error::ConfigFault::Format,
                    ..
                }
            ),
            "{}",
            text
        );
    }
    let error = Settings::from_document("[]").unwrap_err();
    assert_eq!(
        error.message(),
        "Serialization error: the document does not have the shape of settings"
    );
}
