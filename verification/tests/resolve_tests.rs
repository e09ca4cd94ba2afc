use weather::error::Stage;
use weather::{resolve_address, resolve_provider, Error, Provider, ProviderConfig, Settings};

fn with_address(alias: &str, address: &str) -> Settings {
    let mut settings = Settings::default();
    settings.addresses.insert(alias.to_string(), address.to_string());
    settings
}

#[test]
fn alias_is_replaced_by_its_address() {
    let settings = with_address("home", "London, UK");
    let r = resolve_address(&settings, Some("home"));
    assert_eq!(r.address, Ok("London, UK".to_string()));
    assert_eq!(r.warning, None);
}

#[test]
fn unknown_place_is_taken_as_it_is() {
    let settings = with_address("home", "London, UK");
    let r = resolve_address(&settings, Some("Unknown Place"));
    assert_eq!(r.address, Ok("Unknown Place".to_string()));
    assert_eq!(r.warning, None);
}

#[test]
fn default_alias_is_used_without_an_address() {
    let mut settings = with_address("home", "London, UK");
    settings.default_alias = Some("home".to_string());
    let r = resolve_address(&settings, None);
    assert_eq!(r.address, Ok("London, UK".to_string()));
    assert_eq!(r.warning, None);
}

#[test]
fn no_address_and_no_default_fails() {
    let r = resolve_address(&Settings::default(), None);
    assert_eq!(r.address, Err(Error::NoAddressSpecified));
    assert_eq!(r.warning, None);
    assert_eq!(
        Error::NoAddressSpecified.message(),
        "No address specified and no default address alias found. Use --address <LOCATION> or set a default alias."
    );
}

#[test]
fn dangling_default_alias_warns_and_fails() {
    let mut settings = with_address("home", "London, UK");
    settings.default_alias = Some("work".to_string());
    let r = resolve_address(&settings, None);
    assert_eq!(r.address, Err(Error::NoAddressSpecified));
    assert_eq!(
        r.warning,
        Some("Default alias 'work' is set but not found in saved aliases.".to_string())
    );
    // With an address given the default alias is not looked at.
    let r = resolve_address(&settings, Some("home"));
    assert_eq!(r.warning, None);
}

#[test]
fn without_provider_and_default_the_offline_mock_is_chosen() {
    let settings = Settings::default();
    assert_eq!(
        resolve_provider(&settings, None),
        Ok((Provider::Mock, Some("mock-key".to_string())))
    );
    // Also where no key at all is stored.
    assert_eq!(resolve_provider(&Settings::empty(), None), Ok((Provider::Mock, None)));
}

#[test]
fn explicit_provider_without_key_fails_before_any_request() {
    let settings = Settings::default();
    let error = resolve_provider(&settings, Some("wa")).unwrap_err();
    assert_eq!(
        error,
        Error::MissingCredential { provider: Provider::WeatherApi, stage: Stage::Resolution }
    );
    assert_eq!(
        error.message(),
        "API key not found for provider 'WeatherApi'. Please configure it first."
    );
    assert!(resolve_provider(&settings, Some("OpenWeather")).is_err());
    assert!(resolve_provider(&Settings::empty(), Some("grpc")).is_err());
}

#[test]
fn explicit_provider_comes_before_the_default() {
    let mut settings = Settings::default();
    settings.providers.insert("ow".to_string(), ProviderConfig { key: Some("K1".to_string()) });
    settings.default_provider = Some("grpc".to_string());
    assert_eq!(
        resolve_provider(&settings, Some("OW")),
        Ok((Provider::OpenWeather, Some("K1".to_string())))
    );
    assert_eq!(
        resolve_provider(&settings, None),
        Ok((Provider::GrpcMock, Some("grpc-mock-key".to_string())))
    );
    assert_eq!(
        resolve_provider(&settings, Some("nobody")),
        Err(Error::UnknownProvider { input: "nobody".to_string() })
    );
}

#[test]
fn unreadable_default_provider_falls_back_to_the_offline_mock() {
    let mut settings = Settings::default();
    settings.default_provider = Some("nobody".to_string());
    assert_eq!(
        resolve_provider(&settings, None),
        Ok((Provider::Mock, Some("mock-key".to_string())))
    );
}

#[test]
fn default_provider_without_key_fails() {
    let mut settings = Settings::default();
    settings.default_provider = Some("wa".to_string());
    assert_eq!(
        resolve_provider(&settings, None),
        Err(Error::MissingCredential { provider: Provider::WeatherApi, stage: Stage::Resolution })
    );
}
