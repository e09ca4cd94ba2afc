use weather::error::ConfigFault;
use weather::{AppConfig, AppState, Error, FileRead, SaveRequest, SaveStep, Settings};

fn request() -> SaveRequest {
    SaveRequest {
        path: "dir/config.json".to_string(),
        temp_path: "dir/config.tmp".to_string(),
        parent: Some("dir".to_string()),
        document: "{}".to_string(),
    }
}

fn io(cause: &str) -> SaveStep {
    SaveStep::Failed(Error::ConfigIo { fault: ConfigFault::Io, cause: cause.to_string() })
}

#[test]
fn missing_file_gives_default_settings() {
    let config = AppConfig::new("config.json".to_string(), FileRead::Missing);
    assert_eq!(*config.get(), Settings::default());
    assert_eq!(config.notice(), None);
}

#[test]
fn unreadable_file_gives_default_settings_and_a_notice() {
    let config = AppConfig::new(
        "config.json".to_string(),
        FileRead::Failed("Permission denied (os error 13)".to_string()),
    );
    assert_eq!(*config.get(), Settings::default());
    assert_eq!(
        config.notice(),
        Some("Failed to load config file.\n\tI/O error: Permission denied (os error 13)\n\tUsing default settings.")
    );
}

#[test]
fn corrupt_file_gives_default_settings_and_a_notice() {
    let config = AppConfig::new("config.json".to_string(), FileRead::Text("{ nope".to_string()));
    assert_eq!(*config.get(), Settings::default());
    let notice = config.notice().unwrap();
    assert!(notice.starts_with("Failed to load config file.\n\tSerialization error: "));
    assert!(notice.ends_with("\n\tUsing default settings."));
    let config = AppConfig::new("config.json".to_string(), FileRead::Text("[]".to_string()));
    assert_eq!(*config.get(), Settings::default());
    assert!(config.notice().is_some());
}

#[test]
fn state_opens_the_store() {
    let state = AppState::new("config.json".to_string(), FileRead::Text("{}".to_string()));
    assert_eq!(*state.config.get(), Settings::empty());
    let state = AppState::new("config.json".to_string(), FileRead::Missing);
    assert_eq!(*state.config.get(), Settings::default());
}

#[test]
fn written_settings_are_read_back() {
    let mut config = AppConfig::new("a/b/config.json".to_string(), FileRead::Missing);
    let (answer, save) = config
        .with_mut(|mut s: Settings| {
            s.addresses.insert("home".to_string(), "London, UK".to_string());
            s.default_alias = Some("home".to_string());
            s.default_provider = Some("grpc".to_string());
            (s, 42)
        })
        .unwrap();
    assert_eq!(answer, 42);
    assert_eq!(save.path, "a/b/config.json");
    assert_eq!(save.temp_path, "a/b/config.tmp");
    assert_eq!(save.parent, Some("a/b".to_string()));
    let reopened = AppConfig::new("a/b/config.json".to_string(), FileRead::Text(save.document));
    assert_eq!(reopened.get(), config.get());
    assert_eq!(reopened.notice(), None);
    assert_eq!(reopened.get().addresses.get("home"), Some(&"London, UK".to_string()));
}

#[test]
fn a_change_that_changes_nothing_writes_the_same_text() {
    let text = "{\"providers\":{\"wa\":{\"key\":\"k\"},\"mock\":{}},\"addresses\":{\"z\":\"Z\",\"a\":\"A\"}}";
    let mut config = AppConfig::new("config.json".to_string(), FileRead::Text(text.to_string()));
    let (_, first) = config.with_mut(|s: Settings| (s, ())).unwrap();
    let (_, second) = config.with_mut(|s: Settings| (s, ())).unwrap();
    assert_eq!(first, second);
    assert_eq!(
        first.document,
        "{\n  \"addresses\": {\n    \"a\": \"A\",\n    \"z\": \"Z\"\n  },\n  \"providers\": {\n    \"mock\": {},\n    \"wa\": {\n      \"key\": \"k\"\n    }\n  }\n}"
    );
    assert_eq!(config.save_request().unwrap(), first);
}

#[test]
fn paths_of_the_save_request() {
    for (path, temp, parent) in [
        ("config.json", "config.tmp", Some("")),
        ("/etc/weather/config.json", "/etc/weather/config.tmp", Some("/etc/weather")),
        ("config", "config.tmp", Some("")),
        ("/", "/", None),
    ] {
        let config = AppConfig::new(path.to_string(), FileRead::Missing);
        let save = config.save_request().unwrap();
        assert_eq!(save.path, path);
        assert_eq!(save.temp_path, temp);
        assert_eq!(save.parent, parent.map(|p| p.to_string()));
    }
}

#[test]
fn saving_step_by_step() {
    let step = request().begin();
    assert_eq!(step, SaveStep::CreateDirectory(request()));
    let step = step.next(Ok(()));
    assert_eq!(step, SaveStep::WriteTemporary(request()));
    let step = step.next(Ok(()));
    assert_eq!(step, SaveStep::Replace(request()));
    let step = step.next(Ok(()));
    assert_eq!(step, SaveStep::Saved);
    assert_eq!(step.next(Err("late".to_string())), SaveStep::Saved);
}

#[test]
fn saving_without_a_directory_starts_with_the_temporary_file() {
    let bare = SaveRequest { parent: None, ..request() };
    let expected = SaveRequest { parent: None, ..request() };
    assert_eq!(bare.begin(), SaveStep::WriteTemporary(expected));
}

#[test]
fn failures_end_the_saving() {
    assert_eq!(request().begin().next(Err("no dir".to_string())), io("no dir"));
    assert_eq!(
        request().begin().next(Ok(())).next(Err("disk full".to_string())),
        io("disk full")
    );
    assert_eq!(io("x").next(Ok(())), io("x"));
    assert_eq!(
        Error::ConfigIo { fault: ConfigFault::Io, cause: "disk full".to_string() }.message(),
        "I/O error: disk full"
    );
}

#[test]
fn failed_rename_cleans_up_and_reports_its_own_cause() {
    let replace = request().begin().next(Ok(())).next(Ok(()));
    let cleanup = replace.next(Err("cross-device link".to_string()));
    assert_eq!(
        cleanup,
        SaveStep::Cleanup { request: request(), cause: "cross-device link".to_string() }
    );
    assert_eq!(cleanup.next(Ok(())), io("cross-device link"));
    let cleanup = SaveStep::Cleanup { request: request(), cause: "cross-device link".to_string() };
    assert_eq!(cleanup.next(Err("gone already".to_string())), io("cross-device link"));
}
