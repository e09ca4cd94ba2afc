//! Weather lookup core: interchangeable providers, stored preferences and the
//! rules that pick a provider and a location for a request.

pub mod args;
pub mod config;
pub mod date;
pub mod document;
pub mod error;
pub mod fetch;
pub mod handlers;
pub mod json;
pub mod models;
pub mod provider;
pub mod providers;
pub mod resolve;
pub mod settings;
pub mod text;
pub mod text_map;
pub mod weather;

pub use args::{run, Action, AppCommands, Cli};
pub use config::{AppConfig, AppState, FileRead, SaveRequest, SaveStep};
pub use date::{normalize_date, normalize_date_on, CalendarDate};
pub use error::Error;
pub use fetch::{Fetch, RpcOutcome};
pub use handlers::alias::{list_aliases, remove_alias, set_alias};
pub use handlers::provider::{list_providers, set_provider};
pub use handlers::weather::get_weather;
pub use handlers::Change;
pub use models::{
    OpenWeatherGeoResponse, OpenWeatherHumidity, OpenWeatherResponse, OpenWeatherTemperature,
    WeatherApiCondition, WeatherApiCurrent, WeatherApiLocation, WeatherApiResponse, WeatherReply,
    WeatherRequest,
};
pub use provider::Provider;
pub use providers::{
    create_provider, Backend, GrpcMockProvider, MockProvider, OpenWeatherProvider,
    WeatherApiProvider, WeatherProvider,
};
pub use resolve::{resolve_address, resolve_provider};
pub use settings::{ProviderConfig, Settings};
pub use text_map::TextMap;
pub use weather::{Temperature, WeatherInfo};
