//! A request for weather as a sequence of steps. Each step names the one
//! exchange with the outside world that has to happen next; what came back
//! is handed to the step, which decides how the request goes on.

use crate::error::{Channel, Error, ErrorView};
use crate::models::{
    OpenWeatherGeoResponse, OpenWeatherResponse, WeatherApiResponse, WeatherReply, WeatherRequest,
};
use crate::text::owned;
use crate::weather::{Temperature, WeatherInfo, WeatherView};
use vstd::prelude::*;
use vstd::string::*;

verus! {

/// The address that the URL library builds from a base address and query
/// parameters, or the message of its refusal.
pub uninterp spec fn url_with_params(base: Seq<char>, params: Seq<(Seq<char>, Seq<char>)>) -> Result<
    Seq<char>,
    Seq<char>,
>;

/// Query parameters as plain values.
pub open spec fn params_text(params: Seq<(String, String)>) -> Seq<(Seq<char>, Seq<char>)> {
    Seq::new(params.len(), |i: int| (params[i].0@, params[i].1@))
}

/// Calls `reqwest::Url::parse_with_params` and hands back the address as
/// text, or the parse error's message. Trusted: the outcome depends on the
/// base address and the parameters alone.
#[verifier::external_body]
fn build_url(base: &str, params: &Vec<(String, String)>) -> (url: Result<String, String>)
    ensures
        match url {
            Ok(u) => url_with_params(base@, params_text(params@)) == Ok::<Seq<char>, Seq<char>>(u@),
            Err(e) => url_with_params(base@, params_text(params@)) == Err::<Seq<char>, Seq<char>>(
                e@,
            ),
        },
{
    match reqwest::Url::parse_with_params(base, params) {
        Ok(url) => Ok(String::from(url)),
        Err(e) => Err(e.to_string()),
    }
}

/// Asks for a diagnostic to be shown before the weather is handed over.
#[derive(Debug, PartialEq, Eq)]
pub struct NoticeStep {
    pub text: String,
    pub weather: WeatherInfo,
}

/// Asks for one call of the remote weather procedure.
#[derive(Debug, PartialEq, Eq)]
pub struct RpcStep {
    pub endpoint: String,
    pub request: WeatherRequest,
}

/// How a call of the remote weather procedure went.
#[derive(Debug, PartialEq, Eq)]
pub enum RpcOutcome {
    /// No connection to the endpoint could be made.
    Unreachable,
    /// The call itself failed, with the upstream message.
    Failed(String),
    Answered(WeatherReply),
}

/// Asks for the geocoding query to be sent.
#[derive(Debug, PartialEq, Eq)]
pub struct GeocodeStep {
    pub url: String,
    pub key: String,
    pub address: String,
    pub date: String,
}

/// Asks for the daily-summary query to be sent.
#[derive(Debug, PartialEq, Eq)]
pub struct DaySummaryStep {
    pub url: String,
    pub country: String,
    pub city: String,
    pub date: String,
}

/// Asks for the current-conditions query to be sent.
#[derive(Debug, PartialEq, Eq)]
pub struct CurrentStep {
    pub url: String,
    pub date: String,
}

/// Where a request for weather stands.
#[derive(Debug, PartialEq, Eq)]
pub enum Fetch {
    /// The request is over.
    Done(Result<WeatherInfo, Error>),
    Notice(NoticeStep),
    Rpc(RpcStep),
    Geocode(GeocodeStep),
    DaySummary(DaySummaryStep),
    Current(CurrentStep),
}

/// Where a request for weather stands, as plain values.
pub enum FetchView {
    Done(Result<WeatherView, ErrorView>),
    Notice { text: Seq<char>, weather: WeatherView },
    Rpc { endpoint: Seq<char>, location: Seq<char>, date: Seq<char> },
    Geocode { url: Seq<char>, key: Seq<char>, address: Seq<char>, date: Seq<char> },
    DaySummary { url: Seq<char>, country: Seq<char>, city: Seq<char>, date: Seq<char> },
    Current { url: Seq<char>, date: Seq<char> },
}

impl View for Fetch {
    type V = FetchView;

    open spec fn view(&self) -> FetchView {
        match self {
            Fetch::Done(Ok(weather)) => FetchView::Done(Ok(weather@)),
            Fetch::Done(Err(e)) => FetchView::Done(Err(e@)),
            Fetch::Notice(step) => FetchView::Notice { text: step.text@, weather: step.weather@ },
            Fetch::Rpc(step) => FetchView::Rpc {
                endpoint: step.endpoint@,
                location: step.request.location@,
                date: step.request.date@,
            },
            Fetch::Geocode(step) => FetchView::Geocode {
                url: step.url@,
                key: step.key@,
                address: step.address@,
                date: step.date@,
            },
            Fetch::DaySummary(step) => FetchView::DaySummary {
                url: step.url@,
                country: step.country@,
                city: step.city@,
                date: step.date@,
            },
            Fetch::Current(step) => FetchView::Current { url: step.url@, date: step.date@ },
        }
    }
}

/// A failed exchange, as the end of the request.
pub open spec fn failed(channel: Channel, upstream: Seq<char>) -> FetchView {
    FetchView::Done(Err(ErrorView::Transport { channel, upstream }))
}

/// The fixed answer of the offline mock for a day.
pub open spec fn offline_weather(date: Seq<char>) -> WeatherView {
    WeatherView {
        country: "Mock Country"@,
        city: "Mock City"@,
        date,
        temperature: Temperature { bits: 0x41A0_0000 },
        humidity: 50,
        description: Some("Sunny (Mock)"@),
    }
}

/// The fixed answer that stands in for the remote procedure when its
/// endpoint cannot be reached.
pub open spec fn unreachable_weather(date: Seq<char>) -> WeatherView {
    WeatherView {
        country: "gRPC Mock Country"@,
        city: "gRPC Mock City"@,
        date,
        temperature: Temperature { bits: 0x4228_0000 },
        humidity: 88,
        description: Some("Rain (Mock)"@),
    }
}

/// The diagnostic that goes with the stand-in answer.
pub open spec fn unreachable_notice(endpoint: Seq<char>) -> Seq<char> {
    "(gRPC Mock: Server not found at '"@ + endpoint + "', returning static data)"@
}

/// The parameters of the geocoding query.
pub open spec fn geocode_params(key: Seq<char>, address: Seq<char>) -> Seq<(Seq<char>, Seq<char>)> {
    seq![("appid"@, key), ("q"@, address), ("limit"@, "1"@)]
}

/// The parameters of the daily-summary query.
pub open spec fn summary_params(
    key: Seq<char>,
    lat: Seq<char>,
    lon: Seq<char>,
    date: Seq<char>,
) -> Seq<(Seq<char>, Seq<char>)> {
    seq![("appid"@, key), ("lat"@, lat), ("lon"@, lon), ("date"@, date), ("units"@, "imperial"@)]
}

/// The parameters of the current-conditions query: no air quality, one day.
pub open spec fn current_params(key: Seq<char>, address: Seq<char>, date: Seq<char>) -> Seq<
    (Seq<char>, Seq<char>),
> {
    seq![("key"@, key), ("q"@, address), ("dt"@, date), ("aqi"@, "no"@), ("days"@, "1"@)]
}

pub open spec fn geocode_base() -> Seq<char> {
    "https://api.openweathermap.org/geo/1.0/direct"@
}

pub open spec fn summary_base() -> Seq<char> {
    "https://api.openweathermap.org/data/3.0/onecall/day_summary"@
}

pub open spec fn current_base() -> Seq<char> {
    "https://api.weatherapi.com/v1/current.json"@
}

/// A geocoding match as plain values: name, latitude, longitude, country.
pub struct PlaceView {
    pub name: Seq<char>,
    pub lat: Seq<char>,
    pub lon: Seq<char>,
    pub country: Seq<char>,
}

/// The first geocoding match, if there is any.
pub open spec fn first_place(matches: Seq<OpenWeatherGeoResponse>) -> Option<PlaceView> {
    if matches.len() == 0 {
        None
    } else {
        Some(
            PlaceView {
                name: matches[0].name@,
                lat: matches[0].lat@,
                lon: matches[0].lon@,
                country: matches[0].country@,
            },
        )
    }
}

/// How the request goes on after the remote procedure was called: its
/// answer field by field, the failure of the call, or, where the endpoint
/// could not be reached, the stand-in answer behind its diagnostic.
pub open spec fn after_rpc(
    endpoint: Seq<char>,
    date: Seq<char>,
    outcome: RpcOutcome,
) -> FetchView {
    match outcome {
        RpcOutcome::Unreachable => FetchView::Notice {
            text: unreachable_notice(endpoint),
            weather: unreachable_weather(date),
        },
        RpcOutcome::Failed(message) => failed(Channel::Rpc, message@),
        RpcOutcome::Answered(reply) => FetchView::Done(
            Ok(
                WeatherView {
                    country: reply.country@,
                    city: reply.city@,
                    date: reply.date@,
                    temperature: reply.temperature,
                    humidity: reply.humidity as u8,
                    description: Some(reply.description@),
                },
            ),
        ),
    }
}

/// How the request goes on after the geocoding query: with the
/// daily-summary query for the first match; without a match the location is
/// not found.
pub open spec fn after_geocode(
    key: Seq<char>,
    address: Seq<char>,
    date: Seq<char>,
    outcome: Result<Option<PlaceView>, Seq<char>>,
) -> FetchView {
    match outcome {
        Err(message) => failed(Channel::Http, message),
        Ok(None) => FetchView::Done(Err(ErrorView::LocationNotFound { location: address })),
        Ok(Some(place)) => match url_with_params(
            summary_base(),
            summary_params(key, place.lat, place.lon, date),
        ) {
            Ok(url) => FetchView::DaySummary {
                url,
                country: place.country,
                city: place.name,
                date,
            },
            Err(message) => failed(Channel::Url, message),
        },
    }
}

/// How the request ends after the daily-summary query.
pub open spec fn after_summary(
    country: Seq<char>,
    city: Seq<char>,
    date: Seq<char>,
    outcome: Result<OpenWeatherResponse, Seq<char>>,
) -> FetchView {
    match outcome {
        Err(message) => failed(Channel::Http, message),
        Ok(body) => FetchView::Done(
            Ok(
                WeatherView {
                    country,
                    city,
                    date,
                    temperature: body.temperature.afternoon,
                    humidity: body.humidity.afternoon,
                    description: None,
                },
            ),
        ),
    }
}

/// How the request ends after the current-conditions query.
pub open spec fn after_current(
    date: Seq<char>,
    outcome: Result<WeatherApiResponse, String>,
) -> FetchView {
    match outcome {
        Err(message) => failed(Channel::Http, message@),
        Ok(body) => FetchView::Done(
            Ok(
                WeatherView {
                    country: body.location.country@,
                    city: body.location.name@,
                    date,
                    temperature: body.current.temp_f,
                    humidity: body.current.humidity,
                    description: Some(body.current.condition.text@),
                },
            ),
        ),
    }
}

/// The end of a request on a failed exchange.
pub fn fail(channel: Channel, upstream: String) -> (f: Fetch)
    ensures
        f@ == failed(channel, upstream@),
{
    Fetch::Done(Err(Error::Transport { channel, upstream }))
}

/// Builds the address of a query, or ends the request where the address
/// cannot be built.
pub fn query_url(base: &str, params: &Vec<(String, String)>) -> (r: Result<String, Fetch>)
    ensures
        match r {
            Ok(url) => url_with_params(base@, params_text(params@)) == Ok::<Seq<char>, Seq<char>>(
                url@,
            ),
            Err(f) => url_with_params(base@, params_text(params@)) matches Err(message) && f@
                == failed(Channel::Url, message),
        },
{
    match build_url(base, params) {
        Ok(url) => Ok(url),
        Err(message) => Err(fail(Channel::Url, message)),
    }
}

/// One query parameter.
pub fn param(name: &str, value: &str) -> (p: (String, String))
    ensures
        p.0@ == name@,
        p.1@ == value@,
{
    (owned(name), owned(value))
}

impl NoticeStep {
    /// Once the diagnostic was shown, the request is over with the weather.
    pub fn finish(self) -> (f: Fetch)
        ensures
            f@ == FetchView::Done(Ok(self.weather@)),
    {
        Fetch::Done(Ok(self.weather))
    }
}

impl RpcStep {
    /// Goes on with the outcome of the call.
    pub fn finish(self, outcome: RpcOutcome) -> (f: Fetch)
        ensures
            f@ == after_rpc(self.endpoint@, self.request.date@, outcome),
    {
        match outcome {
            RpcOutcome::Unreachable => {
                let mut text = String::new();
                text.append("(gRPC Mock: Server not found at '");
                text.append(self.endpoint.as_str());
                text.append("', returning static data)");
                assert(text@ =~= unreachable_notice(self.endpoint@));
                Fetch::Notice(
                    NoticeStep {
                        text,
                        weather: WeatherInfo {
                            country: owned("gRPC Mock Country"),
                            city: owned("gRPC Mock City"),
                            date: self.request.date,
                            temperature: Temperature::from_bits(0x4228_0000),
                            humidity: 88,
                            description: Some(owned("Rain (Mock)")),
                        },
                    },
                )
            },
            RpcOutcome::Failed(message) => fail(Channel::Rpc, message),
            RpcOutcome::Answered(reply) => Fetch::Done(
                Ok(
                    WeatherInfo {
                        country: reply.country,
                        city: reply.city,
                        date: reply.date,
                        temperature: reply.temperature,
                        humidity: #[verifier::truncate]
                        (reply.humidity as u8),
                        description: Some(reply.description),
                    },
                ),
            ),
        }
    }
}

/// The outcome of the geocoding query as plain values.
pub open spec fn geocode_outcome(outcome: Result<Vec<OpenWeatherGeoResponse>, String>) -> Result<
    Option<PlaceView>,
    Seq<char>,
> {
    match outcome {
        Ok(matches) => Ok(first_place(matches@)),
        Err(message) => Err(message@),
    }
}

impl GeocodeStep {
    /// Goes on with the matches of the geocoding query, or with the
    /// upstream message of its failure.
    pub fn finish(self, outcome: Result<Vec<OpenWeatherGeoResponse>, String>) -> (f: Fetch)
        ensures
            f@ == after_geocode(self.key@, self.address@, self.date@, geocode_outcome(outcome)),
    {
        match outcome {
            Err(message) => fail(Channel::Http, message),
            Ok(matches) => {
                if matches.len() == 0 {
                    return Fetch::Done(Err(Error::LocationNotFound { location: self.address }));
                }
                let place = &matches[0];
                let mut params: Vec<(String, String)> = Vec::new();
                params.push(param("appid", self.key.as_str()));
                params.push(param("lat", place.lat.as_str()));
                params.push(param("lon", place.lon.as_str()));
                params.push(param("date", self.date.as_str()));
                params.push(param("units", "imperial"));
                assert(params_text(params@) =~= summary_params(
                    self.key@,
                    place.lat@,
                    place.lon@,
                    self.date@,
                ));
                match query_url(
                    "https://api.openweathermap.org/data/3.0/onecall/day_summary",
                    &params,
                ) {
                    Ok(url) => Fetch::DaySummary(
                        DaySummaryStep {
                            url,
                            country: place.country.clone(),
                            city: place.name.clone(),
                            date: self.date,
                        },
                    ),
                    Err(end) => end,
                }
            },
        }
    }
}

/// The outcome of the daily-summary query as plain values.
pub open spec fn summary_outcome(outcome: Result<OpenWeatherResponse, String>) -> Result<
    OpenWeatherResponse,
    Seq<char>,
> {
    match outcome {
        Ok(body) => Ok(body),
        Err(message) => Err(message@),
    }
}

impl DaySummaryStep {
    /// Ends the request with the daily summary, or with the upstream
    /// message of the query's failure.
    pub fn finish(self, outcome: Result<OpenWeatherResponse, String>) -> (f: Fetch)
        ensures
            f@ == after_summary(self.country@, self.city@, self.date@, summary_outcome(outcome)),
    {
        match outcome {
            Err(message) => fail(Channel::Http, message),
            Ok(body) => Fetch::Done(
                Ok(
                    WeatherInfo {
                        country: self.country,
                        city: self.city,
                        date: self.date,
                        temperature: body.temperature.afternoon,
                        humidity: body.humidity.afternoon,
                        description: None,
                    },
                ),
            ),
        }
    }
}

impl CurrentStep {
    /// Ends the request with the current conditions, or with the upstream
    /// message of the query's failure.
    pub fn finish(self, outcome: Result<WeatherApiResponse, String>) -> (f: Fetch)
        ensures
            f@ == after_current(self.date@, outcome),
    {
        match outcome {
            Err(message) => fail(Channel::Http, message),
            Ok(body) => Fetch::Done(
                Ok(
                    WeatherInfo {
                        country: body.location.country,
                        city: body.location.name,
                        date: self.date,
                        temperature: body.current.temp_f,
                        humidity: body.current.humidity,
                        description: Some(body.current.condition.text),
                    },
                ),
            ),
        }
    }
}

} // verus!
