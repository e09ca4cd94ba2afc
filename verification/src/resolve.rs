//! Turning what the user asked for, together with the stored preferences,
//! into the provider to call and the address to look up.

use crate::error::{Error, ErrorView, Stage};
use crate::provider::Provider;
use crate::settings::{Settings, SettingsView};
use crate::text::{option_str_text, option_text, owned};
use vstd::prelude::*;
use vstd::string::*;

verus! {

/// The provider that a request goes to, or `None` where the user named one
/// that does not exist. A provider the user names decides; without one the
/// stored default decides where it names a provider; otherwise it is the
/// offline mock.
pub open spec fn provider_choice(settings: SettingsView, input: Option<Seq<char>>) -> Option<
    Provider,
> {
    match input {
        Some(token) => Provider::parsed(token),
        None => match settings.default_provider {
            Some(id) => match Provider::parsed(id) {
                Some(p) => Some(p),
                None => Some(Provider::Mock),
            },
            None => Some(Provider::Mock),
        },
    }
}

/// The provider and its stored key, or the failure: an unknown provider, or
/// a provider other than the offline mock for which no key is stored.
pub open spec fn resolved_provider(settings: SettingsView, input: Option<Seq<char>>) -> Result<
    (Provider, Option<Seq<char>>),
    ErrorView,
> {
    match provider_choice(settings, input) {
        None => Err(ErrorView::UnknownProvider { input: input->0 }),
        Some(p) => {
            let key = settings.key(p.spec_id());
            if p != Provider::Mock && key is None {
                Err(ErrorView::MissingCredential { provider: p, stage: Stage::Resolution })
            } else {
                Ok((p, key))
            }
        },
    }
}

/// Chooses the provider of a request and fetches its stored key.
pub fn resolve_provider(settings: &Settings, provider_input: Option<&str>) -> (r: Result<
    (Provider, Option<String>),
    Error,
>)
    ensures
        match r {
            Ok((p, key)) => resolved_provider(settings@, option_str_text(provider_input)) == Ok::<
                (Provider, Option<Seq<char>>),
                ErrorView,
            >((p, option_text(key))),
            Err(e) => resolved_provider(settings@, option_str_text(provider_input)) == Err::<
                (Provider, Option<Seq<char>>),
                ErrorView,
            >(e@),
        },
{
    let provider = match provider_input {
        Some(token) => match Provider::try_from(token) {
            Ok(p) => p,
            Err(e) => {
                return Err(e);
            },
        },
        None => match &settings.default_provider {
            Some(id) => match Provider::try_from(id.as_str()) {
                Ok(p) => p,
                Err(_) => Provider::Mock,
            },
            None => Provider::Mock,
        },
    };
    let api_key = match settings.stored_key(provider.id()) {
        Some(key) => Some(owned(key)),
        None => None,
    };
    if !provider.is_mock() && api_key.is_none() {
        return Err(Error::MissingCredential { provider, stage: Stage::Resolution });
    }
    Ok((provider, api_key))
}

/// The address of a request. One that the user gives is taken as an alias
/// where it is one, and as the address itself where it is not. Without one
/// the default alias decides, if it is set and stored.
pub open spec fn resolved_address(settings: SettingsView, input: Option<Seq<char>>) -> Result<
    Seq<char>,
    ErrorView,
> {
    match input {
        Some(text) => match settings.address(text) {
            Some(address) => Ok(address),
            None => Ok(text),
        },
        None => match settings.default_alias {
            Some(alias) => match settings.address(alias) {
                Some(address) => Ok(address),
                None => Err(ErrorView::NoAddressSpecified),
            },
            None => Err(ErrorView::NoAddressSpecified),
        },
    }
}

/// The default alias, where the request had to fall back on it and it
/// names no stored alias.
pub open spec fn dangling_default(settings: SettingsView, input: Option<Seq<char>>) -> Option<
    Seq<char>,
> {
    match (input, settings.default_alias) {
        (None, Some(alias)) => if settings.address(alias) is None {
            Some(alias)
        } else {
            None
        },
        _ => None,
    }
}

/// The warning about a default alias that names no stored alias.
pub open spec fn dangling_warning(alias: Seq<char>) -> Seq<char> {
    "Default alias '"@ + alias + "' is set but not found in saved aliases."@
}

/// The address of a request, and the warning to show with it.
pub struct AddressResolution {
    /// Shown to the user before the outcome, if present.
    pub warning: Option<String>,
    pub address: Result<String, Error>,
}

/// Chooses the address of a request.
pub fn resolve_address(settings: &Settings, address_input: Option<&str>) -> (r: AddressResolution)
    ensures
        match r.address {
            Ok(address) => resolved_address(settings@, option_str_text(address_input)) == Ok::<
                Seq<char>,
                ErrorView,
            >(address@),
            Err(e) => resolved_address(settings@, option_str_text(address_input)) == Err::<
                Seq<char>,
                ErrorView,
            >(e@),
        },
        match dangling_default(settings@, option_str_text(address_input)) {
            Some(alias) => r.warning matches Some(w) && w@ == dangling_warning(alias),
            None => r.warning is None,
        },
{
    match address_input {
        Some(input) => {
            let address = match settings.addresses.get(input) {
                Some(mapped) => mapped.clone(),
                None => owned(input),
            };
            AddressResolution { warning: None, address: Ok(address) }
        },
        None => match &settings.default_alias {
            Some(alias) => match settings.addresses.get(alias.as_str()) {
                Some(mapped) => AddressResolution { warning: None, address: Ok(mapped.clone()) },
                None => {
                    let mut warning = String::new();
                    warning.append("Default alias '");
                    warning.append(alias.as_str());
                    warning.append("' is set but not found in saved aliases.");
                    assert(warning@ =~= dangling_warning(alias@));
                    AddressResolution {
                        warning: Some(warning),
                        address: Err(Error::NoAddressSpecified),
                    }
                },
            },
            None => AddressResolution { warning: None, address: Err(Error::NoAddressSpecified) },
        },
    }
}

/// An address that the user gives is always resolved: to the address it
/// stands for where it is an alias, and to itself where it is not.
pub proof fn lemma_given_address_resolves(settings: SettingsView, input: Seq<char>)
    ensures
        resolved_address(settings, Some(input)) is Ok,
        settings.address(input) is None ==> resolved_address(settings, Some(input)) == Ok::<
            Seq<char>,
            ErrorView,
        >(input),
        settings.address(input) matches Some(address) ==> resolved_address(settings, Some(input))
            == Ok::<Seq<char>, ErrorView>(address),
{
}

/// With no provider named and no default stored, the request goes to the
/// offline mock, whether or not a key is stored for it.
pub proof fn lemma_fallback_is_offline_mock(settings: SettingsView)
    requires
        settings.default_provider is None,
    ensures
        resolved_provider(settings, None) == Ok::<(Provider, Option<Seq<char>>), ErrorView>(
            (Provider::Mock, settings.key(Provider::Mock.spec_id())),
        ),
{
}

/// A provider other than the offline mock, for which no key is stored, is
/// turned down when it is chosen, before anything is asked of it.
pub proof fn lemma_missing_key_is_refused(
    settings: SettingsView,
    input: Option<Seq<char>>,
    provider: Provider,
)
    requires
        provider_choice(settings, input) == Some(provider),
        provider != Provider::Mock,
        settings.key(provider.spec_id()) is None,
    ensures
        resolved_provider(settings, input) == Err::<(Provider, Option<Seq<char>>), ErrorView>(
            ErrorView::MissingCredential { provider, stage: Stage::Resolution },
        ),
{
}

/// The offline mock never fails for want of a key, however it was chosen.
pub proof fn lemma_offline_mock_needs_no_key(settings: SettingsView, input: Option<Seq<char>>)
    requires
        provider_choice(settings, input) == Some(Provider::Mock),
    ensures
        resolved_provider(settings, input) is Ok,
{
}

} // verus!
