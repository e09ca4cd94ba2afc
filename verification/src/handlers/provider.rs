//! The providers as the user manages them: their keys and the default.

use crate::config::AppConfig;
use crate::error::{Error, ErrorView};
use crate::handlers::alias::{change_is, unwritable};
use crate::handlers::Change;
use crate::provider::Provider;
use crate::settings::{ProviderConfig, Settings, SettingsView};
use crate::text::{left_aligned, option_str_text, owned, push_left_aligned};
use crate::text_map::put;
use vstd::prelude::*;
use vstd::string::*;

verus! {

/// The head of the table of providers.
pub open spec fn provider_head() -> Seq<char> {
    "Weather providers:\n\nID    | PROVIDER        | API KEY   \n------+-----------------+---------\n"@
}

/// What the table shows as the key of a provider: the stored key, or a
/// dash where none is stored or the stored one is empty.
pub open spec fn shown_key(settings: SettingsView, provider: Provider) -> Seq<char> {
    match settings.usable_key(provider.spec_id()) {
        Some(key) => key,
        None => "-"@,
    }
}

/// The line of one provider.
pub open spec fn provider_row(settings: SettingsView, provider: Provider) -> Seq<char> {
    left_aligned(provider.spec_id(), 5) + " | "@ + left_aligned(provider.spec_name(), 15) + " | "@
        + left_aligned(shown_key(settings, provider), 10) + "\n"@
}

/// The line about the default provider: by its name where the stored text
/// names a provider, otherwise by the stored text itself.
pub open spec fn default_provider_line(default_provider: Option<Seq<char>>) -> Seq<char> {
    match default_provider {
        Some(id) => "Default provider: '"@ + (match Provider::parsed(id) {
            Some(p) => p.spec_name(),
            None => id,
        }) + "' ("@ + id + ")\n"@,
        None => "Default provider is not set.\n"@,
    }
}

/// What the listing of the providers shows.
pub open spec fn provider_listing(settings: SettingsView) -> Seq<char> {
    provider_head() + provider_row(settings, Provider::Mock) + provider_row(
        settings,
        Provider::GrpcMock,
    ) + provider_row(settings, Provider::OpenWeather) + provider_row(settings, Provider::WeatherApi)
        + "\n"@ + default_provider_line(settings.default_provider)
}

fn push_provider_row(out: &mut String, settings: &Settings, provider: Provider)
    ensures
        final(out)@ == old(out)@ + provider_row(settings@, provider),
{
    push_left_aligned(out, provider.id(), 5);
    out.append(" | ");
    push_left_aligned(out, provider.name(), 15);
    out.append(" | ");
    let key = match settings.usable_key(provider.id()) {
        Some(key) => key,
        None => "-",
    };
    push_left_aligned(out, key, 10);
    out.append("\n");
    assert(final(out)@ =~= old(out)@ + provider_row(settings@, provider));
}

/// Writes the listing of the providers: every provider with its key, then
/// the default provider.
pub fn list_providers(settings: &Settings) -> (text: String)
    ensures
        text@ == provider_listing(settings@),
{
    let mut out = owned("Weather providers:\n\nID    | PROVIDER        | API KEY   \n------+-----------------+---------\n");
    push_provider_row(&mut out, settings, Provider::Mock);
    push_provider_row(&mut out, settings, Provider::GrpcMock);
    push_provider_row(&mut out, settings, Provider::OpenWeather);
    push_provider_row(&mut out, settings, Provider::WeatherApi);
    out.append("\n");
    match &settings.default_provider {
        Some(id) => {
            out.append("Default provider: '");
            match Provider::try_from(id.as_str()) {
                Ok(p) => out.append(p.name()),
                Err(_) => out.append(id.as_str()),
            }
            out.append("' (");
            out.append(id.as_str());
            out.append(")\n");
        },
        None => {
            out.append("Default provider is not set.\n");
        },
    }
    assert(out@ =~= provider_listing(settings@));
    out
}

/// The key that is to be stored: one that is given and not empty.
pub open spec fn key_to_set(key: Option<Seq<char>>) -> Option<Seq<char>> {
    match key {
        Some(k) if k.len() > 0 => Some(k),
        _ => None,
    }
}

/// The settings after the key of a provider was set, if there was one to set.
pub open spec fn with_key(settings: SettingsView, provider: Provider, key: Option<Seq<char>>) -> SettingsView {
    match key_to_set(key) {
        Some(k) => SettingsView {
            providers: put(settings.providers, provider.spec_id(), Some(k)),
            ..settings
        },
        None => settings,
    }
}

/// Whether a provider may become the default: the offline mock always, any
/// other provider once a key that is not empty is stored for it.
pub open spec fn may_be_default(settings: SettingsView, provider: Provider) -> bool {
    provider == Provider::Mock || settings.usable_key(provider.spec_id()) is Some
}

/// The settings after a provider was configured: its key set where one was
/// given, and the provider made the default where it may be.
pub open spec fn with_provider(settings: SettingsView, provider: Provider, key: Option<Seq<char>>) -> SettingsView {
    let keyed = with_key(settings, provider, key);
    if may_be_default(keyed, provider) {
        SettingsView { default_provider: Some(provider.spec_id()), ..keyed }
    } else {
        keyed
    }
}

/// What is told about the configuring of a provider.
pub open spec fn provider_report(settings: SettingsView, provider: Provider, key: Option<Seq<char>>) -> Seq<char> {
    (if key_to_set(key) is Some {
        "API key for '"@ + provider.spec_name() + "' updated.\n"@
    } else {
        Seq::empty()
    }) + (if may_be_default(with_key(settings, provider, key), provider) {
        "Default provider set to: '"@ + provider.spec_name() + "'\n"@
    } else {
        "WARNING: API key not found for '"@ + provider.spec_name()
            + "'. Default provider NOT changed.\nPlease set the key first using --key <API_KEY>"@
    }) + "\n"@
}

/// Configures a provider in settings; hands back what is told about it.
pub fn configure_provider(settings: Settings, provider: Provider, key: Option<&str>) -> (r: (
    Settings,
    String,
))
    ensures
        r.0@ == with_provider(settings@, provider, option_str_text(key)),
        r.1@ == provider_report(settings@, provider, option_str_text(key)),
{
    let ghost before = settings@;
    let mut settings = settings;
    let mut message = String::new();
    let set = match key {
        Some(k) => if k.is_empty() {
            None
        } else {
            Some(k)
        },
        None => None,
    };
    match set {
        Some(k) => {
            settings.providers.insert(owned(provider.id()), ProviderConfig { key: Some(owned(k)) });
            message.append("API key for '");
            message.append(provider.name());
            message.append("' updated.\n");
        },
        None => {},
    }
    let has_key = settings.usable_key(provider.id()).is_some();
    if provider.is_mock() || has_key {
        settings.default_provider = Some(owned(provider.id()));
        message.append("Default provider set to: '");
        message.append(provider.name());
        message.append("'\n");
    } else {
        message.append("WARNING: API key not found for '");
        message.append(provider.name());
        message.append(
            "'. Default provider NOT changed.\nPlease set the key first using --key <API_KEY>",
        );
    }
    message.append("\n");
    assert(message@ =~= provider_report(before, provider, option_str_text(key)));
    (settings, message)
}

/// Sets the key of a provider where one that is not empty is given, and
/// makes the provider the default where it may be; then asks for the
/// settings file to be written. A token that names no provider leaves the
/// settings as they are.
pub fn set_provider(config: &mut AppConfig, provider: &str, key: Option<&str>) -> (r: Result<
    Change,
    Error,
>)
    ensures
        final(config).path() == old(config).path(),
        match Provider::parsed(provider@) {
            None => final(config)@ == old(config)@ && (r matches Err(e) && e@
                == (ErrorView::UnknownProvider { input: provider@ })),
            Some(p) => final(config)@ == with_provider(old(config)@, p, option_str_text(key))
                && match r {
                Ok(change) => change_is(
                    change,
                    final(config).path(),
                    final(config)@,
                    Seq::empty(),
                    provider_report(old(config)@, p, option_str_text(key)),
                ),
                Err(e) => unwritable(final(config)@, e@),
            },
        },
{
    let p = match Provider::try_from(provider) {
        Ok(p) => p,
        Err(e) => {
            return Err(e);
        },
    };
    let done = config.with_mut(
        |s: Settings| -> (o: (Settings, String))
            ensures
                o.0@ == with_provider(s@, p, option_str_text(key)) && o.1@ == provider_report(
                    s@,
                    p,
                    option_str_text(key),
                )
            { configure_provider(s, p, key) },
    );
    match done {
        Ok((report, save)) => Ok(Change { notice: String::new(), save, report }),
        Err(e) => Err(e),
    }
}

} // verus!
