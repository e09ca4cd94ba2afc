//! A request for weather, from what the user typed to the first step of the
//! provider.

use crate::error::Error;
use crate::fetch::Fetch;
use crate::provider::Provider;
use crate::providers::{begun, create_provider, WeatherProvider};
use crate::resolve::{
    dangling_default, dangling_warning, resolve_address, resolve_provider, resolved_address,
    resolved_provider,
};
use crate::settings::Settings;
use crate::text::option_str_text;
use vstd::prelude::*;
use vstd::string::*;

verus! {

/// A request that was handed to its provider.
#[derive(Debug, PartialEq, Eq)]
pub struct Started {
    /// The provider that was chosen.
    pub provider: Provider,
    /// The address that is looked up.
    pub address: String,
    /// The line that tells the user what is being fetched.
    pub announcement: String,
    /// Where the request stands.
    pub fetch: Fetch,
}

/// What a request for weather came to before any exchange was made.
#[derive(Debug, PartialEq, Eq)]
pub struct Lookup {
    /// Shown to the user before the outcome, if present.
    pub warning: Option<String>,
    pub outcome: Result<Started, Error>,
}

/// The line that tells the user what is being fetched.
pub open spec fn announcement(provider: Provider, address: Seq<char>) -> Seq<char> {
    "Fetching weather from '"@ + provider.spec_name() + "' for '"@ + address + "'...\n"@
}

/// Prepares a request for weather: chooses the provider, then the address,
/// and hands both with the date to the provider. A failure to choose either
/// ends the request before the provider is asked for anything. The warning
/// about a default alias that is not stored is given only where the
/// provider was chosen.
pub fn get_weather(
    settings: &Settings,
    address: Option<&str>,
    date: Option<&str>,
    provider: Option<&str>,
) -> (r: Lookup)
    ensures
        match resolved_provider(settings@, option_str_text(provider)) {
            Err(e) => r.warning is None && (r.outcome matches Err(x) && x@ == e),
            Ok((p, key)) => {
                &&& match dangling_default(settings@, option_str_text(address)) {
                    Some(alias) => r.warning matches Some(w) && w@ == dangling_warning(alias),
                    None => r.warning is None,
                }
                &&& match resolved_address(settings@, option_str_text(address)) {
                    Err(e) => r.outcome matches Err(x) && x@ == e,
                    Ok(a) => r.outcome matches Ok(started) && started.provider == p
                        && started.address@ == a && started.announcement@ == announcement(p, a)
                        && begun(p, key, a, option_str_text(date), started.fetch@),
                }
            },
        },
{
    let (chosen, api_key) = match resolve_provider(settings, provider) {
        Ok(pair) => pair,
        Err(e) => {
            return Lookup { warning: None, outcome: Err(e) };
        },
    };
    let resolution = resolve_address(settings, address);
    let place = match resolution.address {
        Ok(place) => place,
        Err(e) => {
            return Lookup { warning: resolution.warning, outcome: Err(e) };
        },
    };
    let mut line = String::new();
    line.append("Fetching weather from '");
    line.append(chosen.name());
    line.append("' for '");
    line.append(place.as_str());
    line.append("'...\n");
    assert(line@ =~= announcement(chosen, place@));
    let backend = create_provider(chosen);
    let key = match &api_key {
        Some(k) => Some(k.as_str()),
        None => None,
    };
    let fetch = backend.get_weather(key, place.as_str(), date);
    Lookup {
        warning: resolution.warning,
        outcome: Ok(Started { provider: chosen, address: place, announcement: line, fetch }),
    }
}

} // verus!
