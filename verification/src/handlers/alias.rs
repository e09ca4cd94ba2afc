//! Address aliases: short names for addresses that are asked for often.

use crate::config::{save_of, AppConfig};
use crate::document::rendered;
use crate::error::{ConfigFault, Error, ErrorView, Invalid, InvalidView};
use crate::handlers::Change;
use crate::settings::{Settings, SettingsView};
use crate::text::{left_aligned, owned, push_left_aligned, trim, trimmed};
use crate::text_map::{lookup, put, without};
use vstd::prelude::*;
use vstd::string::*;

verus! {

/// The lines of the table, one for each alias in the order of the aliases.
pub open spec fn alias_rows(aliases: Seq<(Seq<char>, Seq<char>)>) -> Seq<char>
    decreases aliases.len(),
{
    if aliases.len() == 0 {
        Seq::empty()
    } else {
        alias_rows(aliases.drop_last()) + left_aligned(aliases.last().0, 10) + " | "@
            + left_aligned(aliases.last().1, 30) + "\n"@
    }
}

/// The head of the table.
pub open spec fn alias_head() -> Seq<char> {
    "Aliases:\n\nALIAS      | ADDRESS                       \n-----------+--------------\n"@
}

/// The line about the default alias.
pub open spec fn default_alias_line(alias: Option<Seq<char>>) -> Seq<char> {
    match alias {
        Some(name) => "Default alias: "@ + name + "\n"@,
        None => "No default alias is set.\n"@,
    }
}

/// What the listing of the aliases shows.
pub open spec fn alias_listing(settings: SettingsView) -> Seq<char> {
    if settings.addresses.len() == 0 {
        "No aliases are set.\n"@
    } else {
        alias_head() + alias_rows(settings.addresses) + "\n"@ + default_alias_line(
            settings.default_alias,
        )
    }
}

/// Writes the listing of the aliases: a table in the order of the aliases,
/// then the default alias.
pub fn list_aliases(settings: &Settings) -> (text: String)
    ensures
        text@ == alias_listing(settings@),
{
    let n = settings.addresses.len();
    if n == 0 {
        return owned("No aliases are set.\n");
    }
    let mut out = owned("Aliases:\n\nALIAS      | ADDRESS                       \n-----------+--------------\n");
    let ghost items = settings.addresses.items();
    let mut i: usize = 0;
    proof {
        assert(items.take(0) =~= Seq::empty());
    }
    while i < n
        invariant
            i <= n,
            n == items.len(),
            items == settings.addresses.items(),
            out@ == alias_head() + alias_rows(items.take(i as int)),
        decreases n - i,
    {
        match settings.addresses.entry(i) {
            Some((alias, address)) => {
                push_left_aligned(&mut out, alias, 10);
                out.append(" | ");
                push_left_aligned(&mut out, address.as_str(), 30);
                out.append("\n");
                proof {
                    assert(items.take(i + 1).drop_last() =~= items.take(i as int));
                    assert(items.take(i + 1).last() == items[i as int]);
                    assert(out@ =~= alias_head() + alias_rows(items.take(i + 1)));
                }
            },
            None => {},
        }
        i += 1;
    }
    proof {
        assert(items.take(i as int) =~= items);
    }
    out.append("\n");
    match &settings.default_alias {
        Some(name) => {
            out.append("Default alias: ");
            out.append(name.as_str());
            out.append("\n");
        },
        None => {
            out.append("No default alias is set.\n");
        },
    }
    assert(out@ =~= alias_listing(settings@));
    out
}

/// What stands in the way of storing an address under an alias: an address
/// that is blank, or an alias that, without the white space at its ends, is
/// empty or longer than five characters.
pub open spec fn alias_refusal(alias: Seq<char>, address: Seq<char>) -> Option<InvalidView> {
    if trimmed(address).len() == 0 {
        Some(InvalidView::EmptyAddress)
    } else if trimmed(alias).len() == 0 || trimmed(alias).len() > 5 {
        Some(InvalidView::AliasLength)
    } else {
        None
    }
}

/// The settings after an address was stored under a name: the first alias
/// ever stored becomes the default alias.
pub open spec fn with_alias(settings: SettingsView, name: Seq<char>, address: Seq<char>) -> SettingsView {
    SettingsView {
        addresses: put(settings.addresses, name, address),
        default_alias: match settings.default_alias {
            Some(d) => Some(d),
            None => Some(name),
        },
        ..settings
    }
}

/// The settings after an alias was taken out: where it was the default
/// alias, there is no default alias any more.
pub open spec fn without_alias(settings: SettingsView, alias: Seq<char>) -> SettingsView {
    SettingsView {
        addresses: without(settings.addresses, alias),
        default_alias: if settings.default_alias == Some(alias) {
            None
        } else {
            settings.default_alias
        },
        ..settings
    }
}

/// The settings after an alias was made the default alias.
pub open spec fn with_default_alias(settings: SettingsView, alias: Seq<char>) -> SettingsView {
    SettingsView { default_alias: Some(alias), ..settings }
}

pub open spec fn set_as_default_line(name: Seq<char>) -> Seq<char> {
    "Alias '"@ + name + "' set as default.\n"@
}

pub open spec fn set_to_line(name: Seq<char>, address: Seq<char>) -> Seq<char> {
    "Alias '"@ + name + "' set to '"@ + address + "'\n"@
}

/// What is told about the removal of an alias.
pub open spec fn removal_report(alias: Seq<char>, existed: bool, was_default: bool) -> Seq<char> {
    if existed {
        "Alias '"@ + alias + "' removed.\n"@ + (if was_default {
            "Note: '"@ + alias + "' was the default alias. Default alias is now unset.\n"@
        } else {
            Seq::empty()
        })
    } else {
        "Alias '"@ + alias + "' not found.\n"@
    }
}

/// Stores an address under a name in settings.
pub fn store_alias(settings: Settings, name: &str, address: &str) -> (r: (Settings, bool))
    ensures
        r.0@ == with_alias(settings@, name@, address@),
        r.1 == (settings@.default_alias is None),
{
    let mut settings = settings;
    settings.addresses.insert(owned(name), owned(address));
    let first = settings.default_alias.is_none();
    if first {
        settings.default_alias = Some(owned(name));
    }
    (settings, first)
}

/// Takes an alias out of settings; tells whether it was stored and whether
/// it was the default alias.
pub fn drop_alias(settings: Settings, alias: &str) -> (r: (Settings, (bool, bool)))
    ensures
        r.0@ == without_alias(settings@, alias@),
        r.1.0 == (lookup(settings@.addresses, alias@) is Some),
        r.1.1 == (settings@.default_alias == Some(alias@)),
{
    let mut settings = settings;
    let existed = settings.addresses.remove(alias).is_some();
    let was_default = match &settings.default_alias {
        Some(d) => crate::text::same_text(d.as_str(), alias),
        None => false,
    };
    if was_default {
        settings.default_alias = None;
    }
    (settings, (existed, was_default))
}

/// Makes an alias the default alias in settings.
pub fn choose_default_alias(settings: Settings, alias: &str) -> (r: (Settings, ()))
    ensures
        r.0@ == with_default_alias(settings@, alias@),
{
    let mut settings = settings;
    settings.default_alias = Some(owned(alias));
    (settings, ())
}

/// What setting an alias comes to. Without an address the alias, which
/// must be stored, becomes the default alias. With an address the address
/// is stored under the alias without the white space at its ends, after the
/// two were found acceptable. `Err` leaves the settings as they are.
pub open spec fn alias_outcome(
    settings: SettingsView,
    alias: Seq<char>,
    address: Option<Seq<char>>,
) -> Result<(SettingsView, Seq<char>, Seq<char>), ErrorView> {
    match address {
        None => if lookup(settings.addresses, alias) is Some {
            Ok((with_default_alias(settings, alias), Seq::empty(), set_as_default_line(alias)))
        } else {
            Err(ErrorView::Validation(InvalidView::AliasNotFound(alias)))
        },
        Some(a) => match alias_refusal(alias, a) {
            Some(invalid) => Err(ErrorView::Validation(invalid)),
            None => Ok(
                (
                    with_alias(settings, trimmed(alias), a),
                    if settings.default_alias is None {
                        set_as_default_line(trimmed(alias))
                    } else {
                        Seq::empty()
                    },
                    set_to_line(trimmed(alias), a),
                ),
            ),
        },
    }
}

/// The failure to write settings as a document.
pub open spec fn unwritable(settings: SettingsView, e: ErrorView) -> bool {
    rendered(settings) matches Err(message) && e == (ErrorView::ConfigIo {
        fault: ConfigFault::Format,
        cause: message,
    })
}

/// A change that is written and told about as stated.
pub open spec fn change_is(
    change: Change,
    path: Seq<char>,
    settings: SettingsView,
    notice: Seq<char>,
    report: Seq<char>,
) -> bool {
    &&& change.notice@ == notice
    &&& change.report@ == report
    &&& rendered(settings) matches Ok(text)
    &&& change.save@ == save_of(path, text)
}

fn default_alias(config: &mut AppConfig, alias: &str) -> (r: Result<Change, Error>)
    ensures
        final(config).path() == old(config).path(),
        match alias_outcome(old(config)@, alias@, None) {
            Ok((settings, notice, report)) => final(config)@ == settings && match r {
                Ok(change) => change_is(change, final(config).path(), settings, notice, report),
                Err(e) => unwritable(settings, e@),
            },
            Err(e) => final(config)@ == old(config)@ && (r matches Err(x) && x@ == e),
        },
{
    if !config.get().addresses.contains_key(alias) {
        return Err(Error::Validation(Invalid::AliasNotFound(owned(alias))));
    }
    let done = config.with_mut(
        |s: Settings| -> (o: (Settings, ()))
            ensures
                o.0@ == with_default_alias(s@, alias@)
            { choose_default_alias(s, alias) },
    );
    match done {
        Ok((_, save)) => {
            let mut report = String::new();
            report.append("Alias '");
            report.append(alias);
            report.append("' set as default.\n");
            assert(report@ =~= set_as_default_line(alias@));
            Ok(Change { notice: String::new(), save, report })
        },
        Err(e) => Err(e),
    }
}

/// Stores an address under an alias, or, without an address, makes a
/// stored alias the default alias; then asks for the settings file to be
/// written.
pub fn set_alias(config: &mut AppConfig, alias: &str, address: Option<&str>) -> (r: Result<
    Change,
    Error,
>)
    ensures
        final(config).path() == old(config).path(),
        match alias_outcome(old(config)@, alias@, crate::text::option_str_text(address)) {
            Ok((settings, notice, report)) => final(config)@ == settings && match r {
                Ok(change) => change_is(change, final(config).path(), settings, notice, report),
                Err(e) => unwritable(settings, e@),
            },
            Err(e) => final(config)@ == old(config)@ && (r matches Err(x) && x@ == e),
        },
{
    let address = match address {
        None => {
            return default_alias(config, alias);
        },
        Some(a) => a,
    };
    if trim(address).is_empty() {
        return Err(Error::Validation(Invalid::EmptyAddress));
    }
    let name = trim(alias);
    let count = name.unicode_len();
    if count == 0 || count > 5 {
        return Err(Error::Validation(Invalid::AliasLength));
    }
    let done = config.with_mut(
        |s: Settings| -> (o: (Settings, bool))
            ensures
                o.0@ == with_alias(s@, name@, address@) && o.1 == (s@.default_alias is None)
            { store_alias(s, name, address) },
    );
    match done {
        Ok((first, save)) => {
            let mut notice = String::new();
            if first {
                notice.append("Alias '");
                notice.append(name);
                notice.append("' set as default.\n");
                assert(notice@ =~= set_as_default_line(name@));
            }
            let mut report = String::new();
            report.append("Alias '");
            report.append(name);
            report.append("' set to '");
            report.append(address);
            report.append("'\n");
            assert(report@ =~= set_to_line(name@, address@));
            Ok(Change { notice, save, report })
        },
        Err(e) => Err(e),
    }
}

/// Takes an alias out and asks for the settings file to be written,
/// whether or not the alias was stored.
pub fn remove_alias(config: &mut AppConfig, alias: &str) -> (r: Result<Change, Error>)
    ensures
        final(config).path() == old(config).path(),
        final(config)@ == without_alias(old(config)@, alias@),
        match r {
            Ok(change) => change_is(
                change,
                final(config).path(),
                final(config)@,
                Seq::empty(),
                removal_report(
                    alias@,
                    lookup(old(config)@.addresses, alias@) is Some,
                    old(config)@.default_alias == Some(alias@),
                ),
            ),
            Err(e) => unwritable(final(config)@, e@),
        },
{
    let done = config.with_mut(
        |s: Settings| -> (o: (Settings, (bool, bool)))
            ensures
                o.0@ == without_alias(s@, alias@) && o.1.0 == (lookup(s@.addresses, alias@) is Some)
                    && o.1.1 == (s@.default_alias == Some(alias@))
            { drop_alias(s, alias) },
    );
    match done {
        Ok(((existed, was_default), save)) => {
            let mut report = String::new();
            report.append("Alias '");
            report.append(alias);
            if existed {
                report.append("' removed.\n");
                if was_default {
                    report.append("Note: '");
                    report.append(alias);
                    report.append("' was the default alias. Default alias is now unset.\n");
                }
            } else {
                report.append("' not found.\n");
            }
            assert(report@ =~= removal_report(alias@, existed, was_default));
            Ok(Change { notice: String::new(), save, report })
        },
        Err(e) => Err(e),
    }
}

} // verus!
