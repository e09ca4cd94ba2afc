use weather::error::{Channel, Stage};
use weather::fetch::{CurrentStep, DaySummaryStep, GeocodeStep, NoticeStep, RpcStep};
use weather::{
    create_provider, get_weather, Backend, Error, Fetch, GrpcMockProvider, MockProvider,
    OpenWeatherGeoResponse, OpenWeatherHumidity, OpenWeatherProvider, OpenWeatherResponse,
    OpenWeatherTemperature, Provider, ProviderConfig, RpcOutcome, Settings, Temperature,
    WeatherApiCondition, WeatherApiCurrent, WeatherApiLocation, WeatherApiProvider,
    WeatherApiResponse, WeatherInfo, WeatherProvider, WeatherReply, WeatherRequest,
};

fn done(fetch: Fetch) -> WeatherInfo {
    match fetch {
        Fetch::Done(Ok(info)) => info,
        other => panic!("not done: {:?}", other),
    }
}

fn degrees(info: &WeatherInfo) -> f32 {
    f32::from_bits(info.temperature.to_bits())
}

fn today() -> String {
    chrono::Utc::now().date_naive().format("%Y-%m-%d").to_string()
}

#[test]
fn test_mock_provider_returns_data() {
    let provider = MockProvider;
    let result = provider.get_weather(None, "Nowhere", None);

    let info = done(result);

    assert_eq!(info.city, "Mock City");
    assert_eq!(info.country, "Mock Country");
    assert_eq!(degrees(&info), 20.0);
    assert_eq!(info.humidity, 50);
    assert_eq!(info.description, Some("Sunny (Mock)".to_string()));
}

#[test]
fn test_mock_provider_handles_date() {
    let provider = MockProvider;
    let specific_date = "10/5/2023";

    let result = provider.get_weather(None, "Nowhere", Some(specific_date));

    let info = done(result);

    assert_eq!(info.date, "2023-10-05");
    assert_eq!(info.city, "Mock City");
    assert_eq!(info.country, "Mock Country");
    assert_eq!(degrees(&info), 20.0);
    assert_eq!(info.humidity, 50);
    assert_eq!(info.description, Some("Sunny (Mock)".to_string()));
}

#[test]
fn test_mock_provider_defaults_to_today() {
    let provider = MockProvider;
    let before = today();
    let result = provider.get_weather(None, "Nowhere", None);
    let after = today();

    let info = done(result);

    assert!(info.date == before || info.date == after);
}

#[test]
fn test_mock_provider_via_trait() {
    let provider = create_provider(Provider::Mock);

    let response = provider.get_weather(None, "New York", Some("2024-01-01"));

    let weather = done(response);
    assert_eq!(weather.city, "Mock City");
    assert_eq!(weather.country, "Mock Country");
    assert!(degrees(&weather) > 0.0);
    assert_eq!(weather.date, "2024-01-01");
}

#[test]
fn every_provider_has_its_backend() {
    assert_eq!(create_provider(Provider::Mock), Backend::Mock(MockProvider));
    assert_eq!(create_provider(Provider::GrpcMock), Backend::GrpcMock(GrpcMockProvider));
    assert_eq!(create_provider(Provider::OpenWeather), Backend::OpenWeather(OpenWeatherProvider));
    assert_eq!(create_provider(Provider::WeatherApi), Backend::WeatherApi(WeatherApiProvider));
    for p in Provider::value_variants() {
        assert_eq!(create_provider(p).provider(), p);
    }
}

#[test]
fn report_line() {
    let info = done(MockProvider.get_weather(None, "x", Some("2024-01-01")));
    let shown = format!("{:.1}", degrees(&info));
    assert_eq!(
        info.report(&shown),
        "Weather in 'Mock Country, Mock City': 20.0\u{b0}F, Sunny (Mock), Humidity: 50%"
    );
    let plain = WeatherInfo {
        country: "GB".to_string(),
        city: "London".to_string(),
        date: "2024-01-01".to_string(),
        temperature: Temperature::from_bits((-3.25f32).to_bits()),
        humidity: 100,
        description: None,
    };
    assert_eq!(
        plain.report(&format!("{:.1}", degrees(&plain))),
        "Weather in 'GB, London': -3.2\u{b0}F, Humidity: 100%"
    );
    assert_eq!(plain.clone(), plain);
}

#[test]
fn rpc_mock_asks_for_one_call() {
    let fetch = GrpcMockProvider.get_weather(Some("ignored"), "Kyiv", Some("05.10.2023"));
    assert_eq!(
        fetch,
        Fetch::Rpc(RpcStep {
            endpoint: "http://[::1]:54583".to_string(),
            request: WeatherRequest {
                location: "Kyiv".to_string(),
                date: "2023-10-05".to_string()
            },
        })
    );
}

fn rpc_step() -> RpcStep {
    match GrpcMockProvider.get_weather(None, "Kyiv", Some("2023-10-05")) {
        Fetch::Rpc(step) => step,
        other => panic!("{:?}", other),
    }
}

#[test]
fn rpc_mock_stands_in_when_unreachable() {
    let next = rpc_step().finish(RpcOutcome::Unreachable);
    let step = match next {
        Fetch::Notice(step) => step,
        other => panic!("{:?}", other),
    };
    assert_eq!(
        step.text,
        "(gRPC Mock: Server not found at 'http://[::1]:54583', returning static data)"
    );
    let info = done(step.finish());
    assert_eq!(info.country, "gRPC Mock Country");
    assert_eq!(info.city, "gRPC Mock City");
    assert_eq!(info.date, "2023-10-05");
    assert_eq!(degrees(&info), 42.0);
    assert_eq!(info.humidity, 88);
    assert_eq!(info.description, Some("Rain (Mock)".to_string()));
}

#[test]
fn rpc_mock_hands_the_answer_on() {
    let reply = WeatherReply {
        country: "UA".to_string(),
        city: "Kyiv".to_string(),
        date: "2023-10-06".to_string(),
        temperature: Temperature::from_bits(11.5f32.to_bits()),
        humidity: 300,
        description: "Fog".to_string(),
    };
    let info = done(rpc_step().finish(RpcOutcome::Answered(reply)));
    assert_eq!(info.country, "UA");
    assert_eq!(info.city, "Kyiv");
    assert_eq!(info.date, "2023-10-06");
    assert_eq!(degrees(&info), 11.5);
    assert_eq!(info.humidity, 44);
    assert_eq!(info.description, Some("Fog".to_string()));
}

#[test]
fn rpc_failure_is_a_transport_error() {
    let next = rpc_step().finish(RpcOutcome::Failed("status: Unavailable".to_string()));
    let error = Error::Transport { channel: Channel::Rpc, upstream: "status: Unavailable".to_string() };
    assert_eq!(error.message(), "gRPC error: status: Unavailable");
    assert_eq!(next, Fetch::Done(Err(error)));
}

#[test]
fn http_providers_need_a_credential() {
    for key in [None, Some("")] {
        assert_eq!(
            OpenWeatherProvider.get_weather(key, "London", None),
            Fetch::Done(Err(Error::MissingCredential {
                provider: Provider::OpenWeather,
                stage: Stage::Request
            }))
        );
        assert_eq!(
            WeatherApiProvider.get_weather(key, "London", None),
            Fetch::Done(Err(Error::MissingCredential {
                provider: Provider::WeatherApi,
                stage: Stage::Request
            }))
        );
    }
    assert_eq!(
        Error::MissingCredential { provider: Provider::OpenWeather, stage: Stage::Request }.message(),
        "'OpenWeather' API key not set. Please set it using: 'weather provider ow --key <API_KEY>'"
    );
    assert_eq!(
        Error::MissingCredential { provider: Provider::WeatherApi, stage: Stage::Request }.message(),
        "'WeatherApi' API key not set. Please set it using: 'weather provider wa --key <API_KEY>'"
    );
}

#[test]
fn weather_api_asks_for_one_query() {
    let fetch = WeatherApiProvider.get_weather(Some("K&1"), "London, UK", Some("2023/10/05"));
    assert_eq!(
        fetch,
        Fetch::Current(CurrentStep {
            url: "https://api.weatherapi.com/v1/current.json?key=K%261&q=London%2C+UK&dt=2023-10-05&aqi=no&days=1"
                .to_string(),
            date: "2023-10-05".to_string(),
        })
    );
    let step = match fetch {
        Fetch::Current(step) => step,
        other => panic!("{:?}", other),
    };
    let body = WeatherApiResponse {
        location: WeatherApiLocation { name: "London".to_string(), country: "UK".to_string() },
        current: WeatherApiCurrent {
            temp_f: Temperature::from_bits(55.4f32.to_bits()),
            humidity: 71,
            condition: WeatherApiCondition { text: "Cloudy".to_string() },
        },
    };
    let info = done(step.finish(Ok(body)));
    assert_eq!(info.country, "UK");
    assert_eq!(info.city, "London");
    assert_eq!(info.date, "2023-10-05");
    assert_eq!(degrees(&info), 55.4);
    assert_eq!(info.humidity, 71);
    assert_eq!(info.description, Some("Cloudy".to_string()));
}

#[test]
fn weather_api_failure_is_a_transport_error() {
    let step = CurrentStep { url: "u".to_string(), date: "d".to_string() };
    let error = Error::Transport { channel: Channel::Http, upstream: "403 Forbidden".to_string() };
    assert_eq!(error.message(), "HTTP error: 403 Forbidden");
    assert_eq!(step.finish(Err("403 Forbidden".to_string())), Fetch::Done(Err(error)));
}

fn geocode_step() -> GeocodeStep {
    match OpenWeatherProvider.get_weather(Some("KEY"), "Paris", Some("17 Mar 2021")) {
        Fetch::Geocode(step) => step,
        other => panic!("{:?}", other),
    }
}

#[test]
fn open_weather_resolves_the_location_first() {
    let step = geocode_step();
    assert_eq!(
        step,
        GeocodeStep {
            url: "https://api.openweathermap.org/geo/1.0/direct?appid=KEY&q=Paris&limit=1".to_string(),
            key: "KEY".to_string(),
            address: "Paris".to_string(),
            date: "2021-03-17".to_string(),
        }
    );
    let place = OpenWeatherGeoResponse {
        name: "Paris".to_string(),
        lat: 48.8588897f64.to_string(),
        lon: 2.3200410217200766f64.to_string(),
        country: "FR".to_string(),
    };
    let other = OpenWeatherGeoResponse {
        name: "Paris".to_string(),
        lat: "33.66".to_string(),
        lon: "-95.55".to_string(),
        country: "US".to_string(),
    };
    let next = step.finish(Ok(vec![place, other]));
    assert_eq!(
        next,
        Fetch::DaySummary(DaySummaryStep {
            url: "https://api.openweathermap.org/data/3.0/onecall/day_summary?appid=KEY&lat=48.8588897&lon=2.3200410217200766&date=2021-03-17&units=imperial"
                .to_string(),
            country: "FR".to_string(),
            city: "Paris".to_string(),
            date: "2021-03-17".to_string(),
        })
    );
    let step = match next {
        Fetch::DaySummary(step) => step,
        other => panic!("{:?}", other),
    };
    let body = OpenWeatherResponse {
        temperature: OpenWeatherTemperature { afternoon: Temperature::from_bits(48.2f32.to_bits()) },
        humidity: OpenWeatherHumidity { afternoon: 63 },
    };
    let info = done(step.finish(Ok(body)));
    assert_eq!(info.country, "FR");
    assert_eq!(info.city, "Paris");
    assert_eq!(info.date, "2021-03-17");
    assert_eq!(degrees(&info), 48.2);
    assert_eq!(info.humidity, 63);
    assert_eq!(info.description, None);
}

#[test]
fn open_weather_without_a_match_finds_no_location() {
    let next = geocode_step().finish(Ok(vec![]));
    let error = Error::LocationNotFound { location: "Paris".to_string() };
    assert_eq!(error.message(), "Location not found: 'Paris'");
    assert_eq!(next, Fetch::Done(Err(error)));
}

#[test]
fn open_weather_failures_are_transport_errors() {
    let failed = |m: &str| {
        Fetch::Done(Err(Error::Transport { channel: Channel::Http, upstream: m.to_string() }))
    };
    assert_eq!(geocode_step().finish(Err("timed out".to_string())), failed("timed out"));
    let step = DaySummaryStep {
        url: "u".to_string(),
        country: "c".to_string(),
        city: "t".to_string(),
        date: "d".to_string(),
    };
    assert_eq!(step.finish(Err("500".to_string())), failed("500"));
}

#[test]
fn address_that_cannot_be_built_is_reported() {
    let fetch = weather::fetch::query_url("not an address", &vec![weather::fetch::param("a", "b")]);
    let expected = Error::Transport {
        channel: Channel::Url,
        upstream: "relative URL without a base".to_string(),
    };
    assert_eq!(expected.message(), "Failed to build URL: relative URL without a base");
    assert_eq!(fetch, Err(Fetch::Done(Err(expected))));
    assert_eq!(
        weather::fetch::query_url("http://h/p?x=1", &vec![weather::fetch::param("a b", "\u{e9}")]),
        Ok("http://h/p?x=1&a+b=%C3%A9".to_string())
    );
}

#[test]
fn notice_step_hands_over_its_weather() {
    let info = done(MockProvider.get_weather(None, "x", Some("2024-01-01")));
    let step = NoticeStep { text: "t".to_string(), weather: info.clone() };
    assert_eq!(step.finish(), Fetch::Done(Ok(info)));
}

fn settings() -> Settings {
    let mut settings = Settings::default();
    settings.addresses.insert("home".to_string(), "London, UK".to_string());
    settings
}

#[test]
fn lookup_with_the_offline_mock() {
    let lookup = get_weather(&settings(), Some("home"), Some("2023-12-25"), Some("mock"));
    assert_eq!(lookup.warning, None);
    let started = lookup.outcome.unwrap();
    assert_eq!(started.provider, Provider::Mock);
    assert_eq!(started.address, "London, UK");
    assert_eq!(
        started.announcement,
        "Fetching weather from 'MockWeather' for 'London, UK'...\n"
    );
    let info = done(started.fetch);
    assert_eq!(info.date, "2023-12-25");
    assert_eq!(info.city, "Mock City");
}

#[test]
fn lookup_fails_before_any_request() {
    let s = settings();
    let lookup = get_weather(&s, Some("Berlin"), None, Some("unknown_provider"));
    assert_eq!(
        lookup.outcome,
        Err(Error::UnknownProvider { input: "unknown_provider".to_string() })
    );
    let lookup = get_weather(&s, Some("Berlin"), None, Some("wa"));
    assert_eq!(
        lookup.outcome,
        Err(Error::MissingCredential { provider: Provider::WeatherApi, stage: Stage::Resolution })
    );
    let lookup = get_weather(&s, None, None, Some("mock"));
    assert_eq!(lookup.outcome, Err(Error::NoAddressSpecified));
    assert_eq!(lookup.warning, None);
    let mut dangling = settings();
    dangling.default_alias = Some("work".to_string());
    let lookup = get_weather(&dangling, None, None, None);
    assert_eq!(lookup.outcome, Err(Error::NoAddressSpecified));
    assert_eq!(
        lookup.warning,
        Some("Default alias 'work' is set but not found in saved aliases.".to_string())
    );
    // The provider is chosen first: its failure comes without the warning.
    let lookup = get_weather(&dangling, None, None, Some("ow"));
    assert_eq!(lookup.warning, None);
    assert!(lookup.outcome.is_err());
}

#[test]
fn lookup_hands_the_stored_key_to_the_provider() {
    let mut s = settings();
    s.providers.insert("wa".to_string(), ProviderConfig { key: Some("SECRET".to_string()) });
    s.default_provider = Some("wa".to_string());
    let started = get_weather(&s, Some("home"), Some("2023-10-05"), None).outcome.unwrap();
    assert_eq!(started.provider, Provider::WeatherApi);
    match started.fetch {
        Fetch::Current(step) => assert_eq!(
            step.url,
            "https://api.weatherapi.com/v1/current.json?key=SECRET&q=London%2C+UK&dt=2023-10-05&aqi=no&days=1"
        ),
        other => panic!("{:?}", other),
    }
}
