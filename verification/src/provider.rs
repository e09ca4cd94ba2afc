//! The closed set of weather providers and their identities.

use crate::error::{Error, ErrorView};
use crate::text::{lowercase, owned, same_text, to_lowercase};
use vstd::prelude::*;

verus! {

/// A weather backend that a request can be sent to.
#[derive(Debug, Clone, Copy, PartialEq, Eq, Structural)]
pub enum Provider {
    /// Fixed data, no network.
    Mock,
    /// Fixed data served over a local RPC endpoint.
    GrpcMock,
    /// Geocoding followed by a daily summary query.
    OpenWeather,
    /// A single current-conditions query.
    WeatherApi,
}

impl Provider {
    /// The short identifier used as configuration key and on the command line.
    pub open spec fn spec_id(self) -> Seq<char> {
        match self {
            Provider::Mock => "mock"@,
            Provider::GrpcMock => "grpc"@,
            Provider::OpenWeather => "ow"@,
            Provider::WeatherApi => "wa"@,
        }
    }

    /// The display name.
    pub open spec fn spec_name(self) -> Seq<char> {
        match self {
            Provider::Mock => "MockWeather"@,
            Provider::GrpcMock => "GrpcMockWeather"@,
            Provider::OpenWeather => "OpenWeather"@,
            Provider::WeatherApi => "WeatherApi"@,
        }
    }

    /// The provider that a lower-case token names: its identifier or its
    /// display name in lower case.
    pub open spec fn from_token(lower: Seq<char>) -> Option<Provider> {
        if lower == "mockweather"@ || lower == "mock"@ {
            Some(Provider::Mock)
        } else if lower == "grpcmockweather"@ || lower == "grpc"@ {
            Some(Provider::GrpcMock)
        } else if lower == "openweather"@ || lower == "ow"@ {
            Some(Provider::OpenWeather)
        } else if lower == "weatherapi"@ || lower == "wa"@ {
            Some(Provider::WeatherApi)
        } else {
            None
        }
    }

    /// The provider that a token names in any mix of cases.
    pub open spec fn parsed(token: Seq<char>) -> Option<Provider> {
        Self::from_token(lowercase(token))
    }

    /// Whether the provider answers without any connection attempt.
    pub fn is_mock(&self) -> (offline: bool)
        ensures
            offline == (*self == Provider::Mock),
    {
        match self {
            Provider::Mock => true,
            _ => false,
        }
    }

    /// The four providers, in the order in which they are listed.
    pub fn value_variants() -> (all: Vec<Provider>)
        ensures
            all@ == seq![
                Provider::Mock,
                Provider::GrpcMock,
                Provider::OpenWeather,
                Provider::WeatherApi,
            ],
    {
        let mut all = Vec::new();
        all.push(Provider::Mock);
        all.push(Provider::GrpcMock);
        all.push(Provider::OpenWeather);
        all.push(Provider::WeatherApi);
        assert(all@ =~= seq![
            Provider::Mock,
            Provider::GrpcMock,
            Provider::OpenWeather,
            Provider::WeatherApi,
        ]);
        all
    }

    /// Finds the provider that a token already in lower case names.
    pub fn from_lowercase(lower: &str) -> (p: Option<Provider>)
        ensures
            p == Self::from_token(lower@),
    {
        if same_text(lower, "mockweather") || same_text(lower, "mock") {
            Some(Provider::Mock)
        } else if same_text(lower, "grpcmockweather") || same_text(lower, "grpc") {
            Some(Provider::GrpcMock)
        } else if same_text(lower, "openweather") || same_text(lower, "ow") {
            Some(Provider::OpenWeather)
        } else if same_text(lower, "weatherapi") || same_text(lower, "wa") {
            Some(Provider::WeatherApi)
        } else {
            None
        }
    }

    /// Reads a provider from what the user typed: the identifier or the
    /// display name, in any mix of cases. Anything else is an unknown
    /// provider, reported with the token as it was typed.
    pub fn try_from(s: &str) -> (r: Result<Provider, Error>)
        ensures
            match Self::parsed(s@) {
                Some(p) => r == Ok::<Provider, Error>(p),
                None => r matches Err(e) && e@ == (ErrorView::UnknownProvider { input: s@ }),
            },
    {
        let lower = to_lowercase(s);
        match Self::from_lowercase(lower.as_str()) {
            Some(p) => Ok(p),
            None => Err(Error::UnknownProvider { input: owned(s) }),
        }
    }

    pub fn id(&self) -> (id: &'static str)
        ensures
            id@ == self.spec_id(),
    {
        match self {
            Provider::Mock => "mock",
            Provider::GrpcMock => "grpc",
            Provider::OpenWeather => "ow",
            Provider::WeatherApi => "wa",
        }
    }

    pub fn name(&self) -> (name: &'static str)
        ensures
            name@ == self.spec_name(),
    {
        match self {
            Provider::Mock => "MockWeather",
            Provider::GrpcMock => "GrpcMockWeather",
            Provider::OpenWeather => "OpenWeather",
            Provider::WeatherApi => "WeatherApi",
        }
    }
}

} // verus!
