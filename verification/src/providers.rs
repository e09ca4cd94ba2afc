//! The four providers behind one operation: the first step of a request
//! for weather.

use crate::date::{normalize_date, normalized, CalendarDate};
use crate::error::{Channel, Error, ErrorView, Stage};
use crate::fetch::{
    current_base, current_params, failed, geocode_base, geocode_params, offline_weather, param,
    params_text, query_url, url_with_params, CurrentStep, Fetch, FetchView, GeocodeStep, RpcStep,
};
use crate::models::WeatherRequest;
use crate::provider::Provider;
use crate::text::{option_str_text, owned};
use crate::weather::{Temperature, WeatherInfo};
use vstd::prelude::*;

verus! {

/// The local endpoint of the remote weather procedure.
pub open spec fn rpc_endpoint() -> Seq<char> {
    "http://[::1]:54583"@
}

/// The credential that a provider can work with: one that is present and
/// not empty.
pub open spec fn usable(key: Option<Seq<char>>) -> Option<Seq<char>> {
    match key {
        Some(k) if k.len() > 0 => Some(k),
        _ => None,
    }
}

/// The end of a request that lacks its credential.
pub open spec fn refused(provider: Provider) -> FetchView {
    FetchView::Done(Err(ErrorView::MissingCredential { provider, stage: Stage::Request }))
}

/// The first step of a request, by provider. The offline mock answers at
/// once, whatever credential and address it is given. The RPC mock asks for
/// one call of the remote procedure. The two HTTP providers need a
/// credential and ask for their first query.
pub open spec fn first_step(
    provider: Provider,
    key: Option<Seq<char>>,
    address: Seq<char>,
    date: Seq<char>,
) -> FetchView {
    match provider {
        Provider::Mock => FetchView::Done(Ok(offline_weather(date))),
        Provider::GrpcMock => FetchView::Rpc { endpoint: rpc_endpoint(), location: address, date },
        Provider::OpenWeather => match usable(key) {
            None => refused(provider),
            Some(k) => match url_with_params(geocode_base(), geocode_params(k, address)) {
                Ok(url) => FetchView::Geocode { url, key: k, address, date },
                Err(message) => failed(Channel::Url, message),
            },
        },
        Provider::WeatherApi => match usable(key) {
            None => refused(provider),
            Some(k) => match url_with_params(current_base(), current_params(k, address, date)) {
                Ok(url) => FetchView::Current { url, date },
                Err(message) => failed(Channel::Url, message),
            },
        },
    }
}

/// What `get_weather` promises of a provider: the first step of a request
/// for the date brought to ISO form as of some day, and as of no day at all
/// where the date was written and understood.
pub open spec fn begun(
    provider: Provider,
    key: Option<Seq<char>>,
    address: Seq<char>,
    date: Option<Seq<char>>,
    f: FetchView,
) -> bool {
    exists|today: CalendarDate|
        today.well_formed() && f == first_step(
            provider,
            key,
            address,
            #[trigger] normalized(date, today),
        )
}

/// The one operation that every provider offers: to start a request for
/// weather. Callers need not know which provider they hold.
pub trait WeatherProvider {
    /// Which provider this is.
    spec fn identity(&self) -> Provider;

    /// Starts a request for weather at an address on a date. The date is
    /// brought to ISO form first; one that is absent or not understood
    /// stands for the current day.
    fn get_weather(&self, provider_key: Option<&str>, address: &str, date: Option<&str>) -> (f:
        Fetch)
        ensures
            begun(
                self.identity(),
                option_str_text(provider_key),
                address@,
                option_str_text(date),
                f@,
            ),
    ;
}

fn usable_key(key: Option<&str>) -> (k: Option<&str>)
    ensures
        option_str_text(k) == usable(option_str_text(key)),
{
    match key {
        Some(k) => if k.is_empty() {
            None
        } else {
            Some(k)
        },
        None => None,
    }
}

fn refuse(provider: Provider) -> (f: Fetch)
    ensures
        f@ == refused(provider),
{
    Fetch::Done(Err(Error::MissingCredential { provider, stage: Stage::Request }))
}

/// The offline mock: fixed data, no connection.
#[derive(Debug, Clone, Copy, PartialEq, Eq, Structural)]
pub struct MockProvider;

/// The RPC mock: asks a local endpoint, and stands in for it where it
/// cannot be reached.
#[derive(Debug, Clone, Copy, PartialEq, Eq, Structural)]
pub struct GrpcMockProvider;

/// Geocoding followed by a daily-summary query.
#[derive(Debug, Clone, Copy, PartialEq, Eq, Structural)]
pub struct OpenWeatherProvider;

/// A single current-conditions query.
#[derive(Debug, Clone, Copy, PartialEq, Eq, Structural)]
pub struct WeatherApiProvider;

impl MockProvider {
    /// The answer for a day already in ISO form.
    pub fn request(&self, date: String) -> (f: Fetch)
        ensures
            f@ == FetchView::Done(Ok(offline_weather(date@))),
    {
        Fetch::Done(
            Ok(
                WeatherInfo {
                    country: owned("Mock Country"),
                    city: owned("Mock City"),
                    date,
                    temperature: Temperature::from_bits(0x41A0_0000),
                    humidity: 50,
                    description: Some(owned("Sunny (Mock)")),
                },
            ),
        )
    }
}

impl WeatherProvider for MockProvider {
    open spec fn identity(&self) -> Provider {
        Provider::Mock
    }

    /// Answers with the fixed data for the day asked for; key and address
    /// are not looked at.
    fn get_weather(&self, provider_key: Option<&str>, address: &str, date: Option<&str>) -> (f:
        Fetch)
        ensures
            f@ is Done,
    {
        let iso = normalize_date(date);
        self.request(iso)
    }
}

impl GrpcMockProvider {
    /// The call to make for a day already in ISO form.
    pub fn request(&self, address: &str, date: String) -> (f: Fetch)
        ensures
            forall|key: Option<Seq<char>>| f@ == first_step(Provider::GrpcMock, key, address@, date@),
    {
        Fetch::Rpc(
            RpcStep {
                endpoint: owned("http://[::1]:54583"),
                request: WeatherRequest { location: owned(address), date },
            },
        )
    }
}

impl WeatherProvider for GrpcMockProvider {
    open spec fn identity(&self) -> Provider {
        Provider::GrpcMock
    }

    /// Asks for one call of the remote procedure with the address and the
    /// day in ISO form; the key is not looked at.
    fn get_weather(&self, provider_key: Option<&str>, address: &str, date: Option<&str>) -> (f:
        Fetch)
    {
        let iso = normalize_date(date);
        self.request(address, iso)
    }
}

impl OpenWeatherProvider {
    /// The first step for a day already in ISO form.
    pub fn request(&self, provider_key: Option<&str>, address: &str, date: String) -> (f: Fetch)
        ensures
            f@ == first_step(Provider::OpenWeather, option_str_text(provider_key), address@, date@),
    {
        let key = match usable_key(provider_key) {
            Some(k) => k,
            None => {
                return refuse(Provider::OpenWeather);
            },
        };
        let mut params: Vec<(String, String)> = Vec::new();
        params.push(param("appid", key));
        params.push(param("q", address));
        params.push(param("limit", "1"));
        assert(params_text(params@) =~= geocode_params(key@, address@));
        match query_url("https://api.openweathermap.org/geo/1.0/direct", &params) {
            Ok(url) => Fetch::Geocode(
                GeocodeStep { url, key: owned(key), address: owned(address), date },
            ),
            Err(end) => end,
        }
    }
}

impl WeatherProvider for OpenWeatherProvider {
    open spec fn identity(&self) -> Provider {
        Provider::OpenWeather
    }

    /// Needs a credential that is not empty, then asks for the geocoding
    /// query for the address.
    fn get_weather(&self, provider_key: Option<&str>, address: &str, date: Option<&str>) -> (f:
        Fetch)
        ensures
            usable(option_str_text(provider_key)) is None ==> f@ == refused(Provider::OpenWeather),
    {
        let iso = normalize_date(date);
        self.request(provider_key, address, iso)
    }
}

impl WeatherApiProvider {
    /// The first step for a day already in ISO form.
    pub fn request(&self, provider_key: Option<&str>, address: &str, date: String) -> (f: Fetch)
        ensures
            f@ == first_step(Provider::WeatherApi, option_str_text(provider_key), address@, date@),
    {
        let key = match usable_key(provider_key) {
            Some(k) => k,
            None => {
                return refuse(Provider::WeatherApi);
            },
        };
        let mut params: Vec<(String, String)> = Vec::new();
        params.push(param("key", key));
        params.push(param("q", address));
        params.push(param("dt", date.as_str()));
        params.push(param("aqi", "no"));
        params.push(param("days", "1"));
        assert(params_text(params@) =~= current_params(key@, address@, date@));
        match query_url("https://api.weatherapi.com/v1/current.json", &params) {
            Ok(url) => Fetch::Current(CurrentStep { url, date }),
            Err(end) => end,
        }
    }
}

impl WeatherProvider for WeatherApiProvider {
    open spec fn identity(&self) -> Provider {
        Provider::WeatherApi
    }

    /// Needs a credential that is not empty, then asks for the one query
    /// with the address and the day in ISO form.
    fn get_weather(&self, provider_key: Option<&str>, address: &str, date: Option<&str>) -> (f:
        Fetch)
        ensures
            usable(option_str_text(provider_key)) is None ==> f@ == refused(Provider::WeatherApi),
    {
        let iso = normalize_date(date);
        self.request(provider_key, address, iso)
    }
}

/// One of the four providers, chosen at run time.
#[derive(Debug, Clone, Copy, PartialEq, Eq, Structural)]
pub enum Backend {
    Mock(MockProvider),
    GrpcMock(GrpcMockProvider),
    OpenWeather(OpenWeatherProvider),
    WeatherApi(WeatherApiProvider),
}

impl Backend {
    /// Which provider this is.
    pub open spec fn spec_provider(self) -> Provider {
        match self {
            Backend::Mock(_) => Provider::Mock,
            Backend::GrpcMock(_) => Provider::GrpcMock,
            Backend::OpenWeather(_) => Provider::OpenWeather,
            Backend::WeatherApi(_) => Provider::WeatherApi,
        }
    }

    pub fn provider(&self) -> (p: Provider)
        ensures
            p == self.spec_provider(),
    {
        match self {
            Backend::Mock(_) => Provider::Mock,
            Backend::GrpcMock(_) => Provider::GrpcMock,
            Backend::OpenWeather(_) => Provider::OpenWeather,
            Backend::WeatherApi(_) => Provider::WeatherApi,
        }
    }

    /// The first step of a request for a day already in ISO form.
    pub fn request(&self, provider_key: Option<&str>, address: &str, date: String) -> (f: Fetch)
        ensures
            f@ == first_step(self.spec_provider(), option_str_text(provider_key), address@, date@),
    {
        match self {
            Backend::Mock(p) => p.request(date),
            Backend::GrpcMock(p) => p.request(address, date),
            Backend::OpenWeather(p) => p.request(provider_key, address, date),
            Backend::WeatherApi(p) => p.request(provider_key, address, date),
        }
    }
}

impl WeatherProvider for Backend {
    open spec fn identity(&self) -> Provider {
        self.spec_provider()
    }

    /// Starts a request for weather with whichever provider this is.
    fn get_weather(&self, provider_key: Option<&str>, address: &str, date: Option<&str>) -> (f:
        Fetch)
    {
        let iso = normalize_date(date);
        self.request(provider_key, address, iso)
    }
}

/// The backend of a provider.
pub fn create_provider(provider: Provider) -> (backend: Backend)
    ensures
        backend.spec_provider() == provider,
{
    match provider {
        Provider::Mock => Backend::Mock(MockProvider),
        Provider::GrpcMock => Backend::GrpcMock(GrpcMockProvider),
        Provider::OpenWeather => Backend::OpenWeather(OpenWeatherProvider),
        Provider::WeatherApi => Backend::WeatherApi(WeatherApiProvider),
    }
}

/// The offline mock ends every request at once with its fixed data: it
/// never fails and asks for no exchange.
pub proof fn lemma_offline_mock_always_answers(
    key: Option<Seq<char>>,
    address: Seq<char>,
    date: Seq<char>,
)
    ensures
        first_step(Provider::Mock, key, address, date) == FetchView::Done(
            Ok(offline_weather(date)),
        ),
{
}

/// Without a usable credential the two HTTP providers end the request
/// before any query is asked for.
pub proof fn lemma_no_query_without_credential(
    provider: Provider,
    key: Option<Seq<char>>,
    address: Seq<char>,
    date: Seq<char>,
)
    requires
        provider == Provider::OpenWeather || provider == Provider::WeatherApi,
        usable(key) is None,
    ensures
        first_step(provider, key, address, date) == refused(provider),
{
}

} // verus!
