use weather::{Error, Provider};

#[test]
fn test_provider_type_parsing() {
    assert_eq!(Provider::try_from("ow").ok(), Some(Provider::OpenWeather));
    assert_eq!(
        Provider::try_from("OpenWeather").ok(),
        Some(Provider::OpenWeather)
    );

    assert_eq!(Provider::try_from("wa").ok(), Some(Provider::WeatherApi));
    assert_eq!(
        Provider::try_from("weatherapi").ok(),
        Some(Provider::WeatherApi)
    );

    assert_eq!(Provider::try_from("mockweather").ok(), Some(Provider::Mock));
    assert_eq!(Provider::try_from("mock").ok(), Some(Provider::Mock));

    assert!(Provider::try_from("").is_err());
    assert!(Provider::try_from("unknown").is_err());
}

#[test]
fn test_provider_type_display() {
    assert_eq!(Provider::WeatherApi.name(), "WeatherApi");
    assert_eq!(Provider::OpenWeather.name(), "OpenWeather");
    assert_eq!(Provider::Mock.name(), "MockWeather");
    assert_eq!(Provider::GrpcMock.name(), "GrpcMockWeather");
}

#[test]
fn test_provider_enum_parsing() {
    assert_eq!(Provider::try_from("ow").unwrap(), Provider::OpenWeather);
    assert_eq!(Provider::try_from("mock").unwrap(), Provider::Mock);
    assert!(Provider::try_from("invalid").is_err());
}

#[test]
fn provider_ids_and_offline_flag() {
    assert_eq!(Provider::Mock.id(), "mock");
    assert_eq!(Provider::GrpcMock.id(), "grpc");
    assert_eq!(Provider::OpenWeather.id(), "ow");
    assert_eq!(Provider::WeatherApi.id(), "wa");
    assert!(Provider::Mock.is_mock());
    assert!(!Provider::GrpcMock.is_mock());
    assert!(!Provider::OpenWeather.is_mock());
    assert!(!Provider::WeatherApi.is_mock());
}

#[test]
fn provider_parsing_ignores_case() {
    assert_eq!(Provider::try_from("MOCK").ok(), Some(Provider::Mock));
    assert_eq!(Provider::try_from("GrPc").ok(), Some(Provider::GrpcMock));
    assert_eq!(Provider::try_from("GRPCMOCKWEATHER").ok(), Some(Provider::GrpcMock));
    assert_eq!(Provider::try_from("WeatherAPI").ok(), Some(Provider::WeatherApi));
    // Would fail if the token were compared without being lowered first.
    assert_eq!(Provider::try_from("Ow").ok(), Some(Provider::OpenWeather));
    assert_eq!(Provider::from_lowercase("Ow"), None);
    assert_eq!(Provider::from_lowercase("ow"), Some(Provider::OpenWeather));
}

#[test]
fn provider_variants_in_listing_order() {
    assert_eq!(
        Provider::value_variants(),
        vec![
            Provider::Mock,
            Provider::GrpcMock,
            Provider::OpenWeather,
            Provider::WeatherApi
        ]
    );
}

#[test]
fn unknown_provider_message_lists_all_providers() {
    let error = Provider::try_from("Unknown_Provider").unwrap_err();
    assert_eq!(
        error,
        Error::UnknownProvider {
            input: "Unknown_Provider".to_string()
        }
    );
    assert_eq!(
        error.message(),
        "Unknown provider: 'Unknown_Provider'.\nAvailable providers: 'MockWeather' (mock), 'GrpcMockWeather' (grpc), 'OpenWeather' (ow), 'WeatherApi' (wa)"
    );
}
