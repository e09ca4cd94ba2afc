//! The settings file as a JSON document: which members it has, how each is
//! read, and how the settings are written back.
//!
//! The document is an object. `addresses` maps each alias to its address and
//! `providers` maps each provider identifier to an object whose `key` is the
//! API key; `default_alias` and `default_provider` are texts. A member that
//! is missing counts as empty, and so does a `null` where a text is optional.
//! Members that the settings do not know are passed over. Written documents
//! have their members in ascending order of their names throughout, and
//! leave out what is not set.

use crate::error::{ConfigFault, Error, ErrorView};
use crate::json::{
    borrowed_members, object_value, owned_members, parse_value, parsed_json, print_value,
    printed_json, text_value, value_is_null, value_members, value_of, value_text, JsonView,
};
use crate::settings::{ProviderConfig, Settings, SettingsView};
use crate::text::{lemma_ascii_lt, lemma_text_lt_transitive, option_text, owned, same_text, text_lt};
use crate::text_map::{
    ascending, lemma_lookup_absent, lemma_lookup_first, lemma_put_last, lookup, put, TextMap,
};
use vstd::prelude::*;
use vstd::utf8::*;

verus! {

/// How an optional text is read from a member: a missing member and `null`
/// are no text, a text is itself, anything else is a mistake (`None`).
pub open spec fn optional_text(member: Option<JsonView>) -> Option<Option<Seq<char>>> {
    match member {
        None => Some(None),
        Some(JsonView::Null) => Some(None),
        Some(JsonView::Text(text)) => Some(Some(text)),
        Some(_) => None,
    }
}

/// How the aliases are read from the members of `addresses`: each member
/// is an alias with its address as text; of two members with one name the
/// later one stays.
pub open spec fn read_aliases(members: Seq<(Seq<char>, JsonView)>) -> Option<
    Seq<(Seq<char>, Seq<char>)>,
>
    decreases members.len(),
{
    if members.len() == 0 {
        Some(Seq::empty())
    } else {
        match (read_aliases(members.drop_last()), members.last().1) {
            (Some(before), JsonView::Text(address)) => Some(put(before, members.last().0, address)),
            _ => None,
        }
    }
}

/// How what is stored for one provider is read: from an object, of which
/// only `key` is looked at.
pub open spec fn read_provider(tree: JsonView) -> Option<Option<Seq<char>>> {
    match tree {
        JsonView::Object(members) => optional_text(lookup(members, "key"@)),
        _ => None,
    }
}

/// How the providers are read from the members of `providers`.
pub open spec fn read_providers(members: Seq<(Seq<char>, JsonView)>) -> Option<
    Seq<(Seq<char>, Option<Seq<char>>)>,
>
    decreases members.len(),
{
    if members.len() == 0 {
        Some(Seq::empty())
    } else {
        match (read_providers(members.drop_last()), read_provider(members.last().1)) {
            (Some(before), Some(config)) => Some(put(before, members.last().0, config)),
            _ => None,
        }
    }
}

/// The aliases of a document: none where `addresses` is missing.
pub open spec fn alias_section(member: Option<JsonView>) -> Option<Seq<(Seq<char>, Seq<char>)>> {
    match member {
        None => Some(Seq::empty()),
        Some(JsonView::Object(members)) => read_aliases(members),
        Some(_) => None,
    }
}

/// The providers of a document: none where `providers` is missing.
pub open spec fn provider_section(member: Option<JsonView>) -> Option<
    Seq<(Seq<char>, Option<Seq<char>>)>,
> {
    match member {
        None => Some(Seq::empty()),
        Some(JsonView::Object(members)) => read_providers(members),
        Some(_) => None,
    }
}

/// The settings that a document holds, or `None` where the document does
/// not have the shape of settings.
pub open spec fn decoded(tree: JsonView) -> Option<SettingsView> {
    match tree {
        JsonView::Object(members) => match (
            alias_section(lookup(members, "addresses"@)),
            optional_text(lookup(members, "default_alias"@)),
            provider_section(lookup(members, "providers"@)),
            optional_text(lookup(members, "default_provider"@)),
        ) {
            (Some(addresses), Some(default_alias), Some(providers), Some(default_provider)) => Some(
                SettingsView { addresses, default_alias, providers, default_provider },
            ),
            _ => None,
        },
        _ => None,
    }
}

/// The members that the aliases are written as.
pub open spec fn alias_members(aliases: Seq<(Seq<char>, Seq<char>)>) -> Seq<(Seq<char>, JsonView)> {
    Seq::new(aliases.len(), |i: int| (aliases[i].0, JsonView::Text(aliases[i].1)))
}

/// The object that is written for one provider: its key, if it has one.
pub open spec fn provider_tree(key: Option<Seq<char>>) -> JsonView {
    JsonView::Object(
        match key {
            Some(k) => seq![("key"@, JsonView::Text(k))],
            None => Seq::empty(),
        },
    )
}

/// The members that the providers are written as.
pub open spec fn provider_members(providers: Seq<(Seq<char>, Option<Seq<char>>)>) -> Seq<
    (Seq<char>, JsonView),
> {
    Seq::new(providers.len(), |i: int| (providers[i].0, provider_tree(providers[i].1)))
}

/// The member that an optional text is written as: none where it is not set.
pub open spec fn optional_member(name: Seq<char>, text: Option<Seq<char>>) -> Seq<
    (Seq<char>, JsonView),
> {
    match text {
        Some(t) => seq![(name, JsonView::Text(t))],
        None => Seq::empty(),
    }
}

/// The document that settings are written as.
pub open spec fn encoded(settings: SettingsView) -> JsonView {
    JsonView::Object(
        seq![("addresses"@, JsonView::Object(alias_members(settings.addresses)))] + optional_member(
            "default_alias"@,
            settings.default_alias,
        ) + optional_member("default_provider"@, settings.default_provider)
            + seq![("providers"@, JsonView::Object(provider_members(settings.providers)))],
    )
}

/// The text that settings are written as, as the JSON library prints their
/// document, or the message of its refusal.
pub open spec fn rendered(settings: SettingsView) -> Result<Seq<char>, Seq<char>> {
    printed_json(encoded(settings))
}

/// What reading a text as settings gives: the settings of its document, or
/// the failure, with the JSON library's message where the text is no JSON.
pub open spec fn read_settings(text: Seq<char>) -> Result<SettingsView, ErrorView> {
    match parsed_json(text) {
        Err(message) => Err(ErrorView::ConfigIo { fault: ConfigFault::Format, cause: message }),
        Ok(tree) => match decoded(tree) {
            Some(settings) => Ok(settings),
            None => Err(
                ErrorView::ConfigIo { fault: ConfigFault::Format, cause: shape_mismatch() },
            ),
        },
    }
}

/// The cause given for a document that does not have the shape of settings.
pub open spec fn shape_mismatch() -> Seq<char> {
    "the document does not have the shape of settings"@
}

/// A member handed out by reference, as a plain value.
pub open spec fn member_view(member: Option<&serde_json::Value>) -> Option<JsonView> {
    match member {
        Some(value) => Some(value_of(*value)),
        None => None,
    }
}

fn find_member<'a>(members: &Vec<(&'a str, &'a serde_json::Value)>, name: &str) -> (found: Option<
    &'a serde_json::Value,
>)
    ensures
        member_view(found) == lookup(borrowed_members(members@), name@),
{
    let ghost all = borrowed_members(members@);
    let mut i: usize = 0;
    proof {
        assert(all.skip(0) =~= all);
    }
    while i < members.len()
        invariant
            i <= members@.len(),
            all == borrowed_members(members@),
            lookup(all, name@) == lookup(all.skip(i as int), name@),
        decreases members@.len() - i,
    {
        let (n, v) = members[i];
        proof {
            assert(all.skip(i as int)[0] == all[i as int]);
            assert(all.skip(i as int).drop_first() =~= all.skip(i + 1));
        }
        if same_text(n, name) {
            return Some(v);
        }
        i += 1;
    }
    None
}

fn decode_optional_text(member: Option<&serde_json::Value>) -> (r: Option<Option<String>>)
    ensures
        match r {
            Some(text) => optional_text(member_view(member)) == Some(option_text(text)),
            None => optional_text(member_view(member)) is None,
        },
{
    match member {
        None => Some(None),
        Some(value) => {
            if value_is_null(value) {
                Some(None)
            } else {
                match value_text(value) {
                    Some(text) => Some(Some(owned(text))),
                    None => None,
                }
            }
        },
    }
}

proof fn lemma_read_aliases_prefix(members: Seq<(Seq<char>, JsonView)>, k: int)
    requires
        0 <= k <= members.len(),
        read_aliases(members.take(k)) is None,
    ensures
        read_aliases(members) is None,
    decreases members.len() - k,
{
    if k < members.len() {
        assert(members.take(k + 1).drop_last() =~= members.take(k));
        lemma_read_aliases_prefix(members, k + 1);
    } else {
        assert(members.take(k) =~= members);
    }
}

proof fn lemma_read_providers_prefix(members: Seq<(Seq<char>, JsonView)>, k: int)
    requires
        0 <= k <= members.len(),
        read_providers(members.take(k)) is None,
    ensures
        read_providers(members) is None,
    decreases members.len() - k,
{
    if k < members.len() {
        assert(members.take(k + 1).drop_last() =~= members.take(k));
        lemma_read_providers_prefix(members, k + 1);
    } else {
        assert(members.take(k) =~= members);
    }
}

fn decode_aliases(members: &Vec<(&str, &serde_json::Value)>) -> (r: Option<TextMap<String>>)
    ensures
        match r {
            Some(map) => read_aliases(borrowed_members(members@)) == Some(map.items()),
            None => read_aliases(borrowed_members(members@)) is None,
        },
{
    let ghost all = borrowed_members(members@);
    let mut map: TextMap<String> = TextMap::new();
    let mut i: usize = 0;
    proof {
        assert(all.take(0) =~= Seq::empty());
    }
    while i < members.len()
        invariant
            i <= members@.len(),
            all == borrowed_members(members@),
            read_aliases(all.take(i as int)) == Some(map.items()),
        decreases members@.len() - i,
    {
        let (name, value) = members[i];
        proof {
            assert(all.take(i + 1).drop_last() =~= all.take(i as int));
            assert(all.take(i + 1).last() == all[i as int]);
        }
        match value_text(value) {
            Some(address) => {
                map.insert(owned(name), owned(address));
            },
            None => {
                proof {
                    lemma_read_aliases_prefix(all, i + 1);
                }
                return None;
            },
        }
        i += 1;
    }
    proof {
        assert(all.take(i as int) =~= all);
    }
    Some(map)
}

fn decode_provider(value: &serde_json::Value) -> (r: Option<ProviderConfig>)
    ensures
        match r {
            Some(config) => read_provider(value_of(*value)) == Some(config@),
            None => read_provider(value_of(*value)) is None,
        },
{
    match value_members(value) {
        Some(members) => match decode_optional_text(find_member(&members, "key")) {
            Some(key) => Some(ProviderConfig { key }),
            None => None,
        },
        None => None,
    }
}

fn decode_providers(members: &Vec<(&str, &serde_json::Value)>) -> (r: Option<
    TextMap<ProviderConfig>,
>)
    ensures
        match r {
            Some(map) => read_providers(borrowed_members(members@)) == Some(map.items()),
            None => read_providers(borrowed_members(members@)) is None,
        },
{
    let ghost all = borrowed_members(members@);
    let mut map: TextMap<ProviderConfig> = TextMap::new();
    let mut i: usize = 0;
    proof {
        assert(all.take(0) =~= Seq::empty());
    }
    while i < members.len()
        invariant
            i <= members@.len(),
            all == borrowed_members(members@),
            read_providers(all.take(i as int)) == Some(map.items()),
        decreases members@.len() - i,
    {
        let (name, value) = members[i];
        proof {
            assert(all.take(i + 1).drop_last() =~= all.take(i as int));
            assert(all.take(i + 1).last() == all[i as int]);
        }
        match decode_provider(value) {
            Some(config) => {
                map.insert(owned(name), config);
            },
            None => {
                proof {
                    lemma_read_providers_prefix(all, i + 1);
                }
                return None;
            },
        }
        i += 1;
    }
    proof {
        assert(all.take(i as int) =~= all);
    }
    Some(map)
}

/// Reads settings from a document of the JSON library.
fn decode(value: &serde_json::Value) -> (r: Option<Settings>)
    ensures
        match r {
            Some(settings) => decoded(value_of(*value)) == Some(settings@),
            None => decoded(value_of(*value)) is None,
        },
{
    let members = match value_members(value) {
        Some(members) => members,
        None => {
            return None;
        },
    };
    let addresses = match find_member(&members, "addresses") {
        None => TextMap::new(),
        Some(section) => match value_members(section) {
            Some(list) => match decode_aliases(&list) {
                Some(map) => map,
                None => {
                    return None;
                },
            },
            None => {
                return None;
            },
        },
    };
    let default_alias = match decode_optional_text(find_member(&members, "default_alias")) {
        Some(text) => text,
        None => {
            return None;
        },
    };
    let providers = match find_member(&members, "providers") {
        None => TextMap::new(),
        Some(section) => match value_members(section) {
            Some(list) => match decode_providers(&list) {
                Some(map) => map,
                None => {
                    return None;
                },
            },
            None => {
                return None;
            },
        },
    };
    let default_provider = match decode_optional_text(find_member(&members, "default_provider")) {
        Some(text) => text,
        None => {
            return None;
        },
    };
    Some(Settings { addresses, default_alias, providers, default_provider })
}

/// The names of the four members are different, and in this order:
/// `addresses`, `default_alias`, `default_provider`, `providers`.
pub proof fn lemma_member_names()
    ensures
        text_lt("addresses"@, "default_alias"@),
        text_lt("addresses"@, "default_provider"@),
        text_lt("addresses"@, "providers"@),
        text_lt("default_alias"@, "default_provider"@),
        text_lt("default_alias"@, "providers"@),
        text_lt("default_provider"@, "providers"@),
        "addresses"@ != "default_alias"@,
        "addresses"@ != "default_provider"@,
        "addresses"@ != "providers"@,
        "default_alias"@ != "default_provider"@,
        "default_alias"@ != "providers"@,
        "default_provider"@ != "providers"@,
{
    reveal_strlit("addresses");
    reveal_strlit("default_alias");
    reveal_strlit("default_provider");
    reveal_strlit("providers");
    let a = "addresses"@;
    let b = "default_alias"@;
    let c = "default_provider"@;
    let d = "providers"@;
    assert(is_ascii_chars(a));
    assert(is_ascii_chars(b));
    assert(is_ascii_chars(c));
    assert(is_ascii_chars(d));
    lemma_ascii_lt(a, b, 0);
    lemma_ascii_lt(b, c, 8);
    lemma_ascii_lt(c, d, 0);
    lemma_text_lt_transitive(a, b, c);
    lemma_text_lt_transitive(a, c, d);
    lemma_text_lt_transitive(b, c, d);
    assert(a[0] != b[0]);
    assert(a[0] != d[0]);
    assert(b[8] != c[8]);
    assert(b[0] != d[0]);
    assert(c[0] != d[0]);
    assert(a[0] != c[0]);
}

fn encode_aliases(map: &TextMap<String>) -> (value: serde_json::Value)
    ensures
        value_of(value) == JsonView::Object(alias_members(map.items())),
{
    let n = map.len();
    let mut members: Vec<(String, serde_json::Value)> = Vec::new();
    let mut i: usize = 0;
    while i < n
        invariant
            i <= n,
            n == map.items().len(),
            ascending(map.items()),
            members@.len() == i,
            forall|k: int|
                0 <= k < i ==> (#[trigger] owned_members(members@)[k]) == alias_members(
                    map.items(),
                )[k],
        decreases n - i,
    {
        match map.entry(i) {
            Some((alias, address)) => {
                let ghost before = members@;
                members.push((owned(alias), text_value(address.clone())));
                proof {
                    assert forall|k: int| 0 <= k < i + 1 implies (#[trigger] owned_members(
                        members@,
                    )[k]) == alias_members(map.items())[k] by {
                        if k < i {
                            assert(owned_members(before)[k] == alias_members(map.items())[k]);
                        }
                    }
                }
            },
            None => {},
        }
        i += 1;
    }
    proof {
        assert(owned_members(members@) =~= alias_members(map.items()));
    }
    object_value(members)
}

fn encode_provider(config: &ProviderConfig) -> (value: serde_json::Value)
    ensures
        value_of(value) == provider_tree(config@),
{
    let mut members: Vec<(String, serde_json::Value)> = Vec::new();
    match &config.key {
        Some(key) => {
            members.push((owned("key"), text_value(key.clone())));
            proof {
                assert(owned_members(members@) =~= seq![("key"@, JsonView::Text(key@))]);
            }
        },
        None => {
            proof {
                assert(owned_members(members@) =~= Seq::<(Seq<char>, JsonView)>::empty());
            }
        },
    }
    object_value(members)
}

fn encode_providers(map: &TextMap<ProviderConfig>) -> (value: serde_json::Value)
    ensures
        value_of(value) == JsonView::Object(provider_members(map.items())),
{
    let n = map.len();
    let mut members: Vec<(String, serde_json::Value)> = Vec::new();
    let mut i: usize = 0;
    while i < n
        invariant
            i <= n,
            n == map.items().len(),
            ascending(map.items()),
            members@.len() == i,
            forall|k: int|
                0 <= k < i ==> (#[trigger] owned_members(members@)[k]) == provider_members(
                    map.items(),
                )[k],
        decreases n - i,
    {
        match map.entry(i) {
            Some((id, config)) => {
                let ghost before = members@;
                members.push((owned(id), encode_provider(config)));
                proof {
                    assert forall|k: int| 0 <= k < i + 1 implies (#[trigger] owned_members(
                        members@,
                    )[k]) == provider_members(map.items())[k] by {
                        if k < i {
                            assert(owned_members(before)[k] == provider_members(map.items())[k]);
                        }
                    }
                }
            },
            None => {},
        }
        i += 1;
    }
    proof {
        assert(owned_members(members@) =~= provider_members(map.items()));
    }
    object_value(members)
}

/// Writes settings as a document of the JSON library.
fn encode(settings: &Settings) -> (value: serde_json::Value)
    ensures
        value_of(value) == encoded(settings@),
{
    let mut members: Vec<(String, serde_json::Value)> = Vec::new();
    members.push((owned("addresses"), encode_aliases(&settings.addresses)));
    match &settings.default_alias {
        Some(alias) => {
            members.push((owned("default_alias"), text_value(alias.clone())));
        },
        None => {},
    }
    match &settings.default_provider {
        Some(id) => {
            members.push((owned("default_provider"), text_value(id.clone())));
        },
        None => {},
    }
    members.push((owned("providers"), encode_providers(&settings.providers)));
    proof {
        lemma_member_names();
        assert(encoded(settings@) == JsonView::Object(owned_members(members@))) by {
            assert(owned_members(members@) =~= seq![
                ("addresses"@, JsonView::Object(alias_members(settings@.addresses))),
            ] + optional_member("default_alias"@, settings@.default_alias) + optional_member(
                "default_provider"@,
                settings@.default_provider,
            ) + seq![("providers"@, JsonView::Object(provider_members(settings@.providers)))]);
        }
    }
    object_value(members)
}

impl Settings {
    /// Reads settings from the text of a settings file.
    pub fn from_document(text: &str) -> (r: Result<Settings, Error>)
        ensures
            match r {
                Ok(settings) => read_settings(text@) == Ok::<SettingsView, ErrorView>(settings@),
                Err(e) => read_settings(text@) == Err::<SettingsView, ErrorView>(e@),
            },
    {
        match parse_value(text) {
            Err(message) => Err(Error::ConfigIo { fault: ConfigFault::Format, cause: message }),
            Ok(value) => match decode(&value) {
                Some(settings) => Ok(settings),
                None => Err(
                    Error::ConfigIo {
                        fault: ConfigFault::Format,
                        cause: owned("the document does not have the shape of settings"),
                    },
                ),
            },
        }
    }

    /// Writes the settings as the text of a settings file: indented, the
    /// members in ascending order of their names, without what is not set.
    pub fn to_document(&self) -> (r: Result<String, Error>)
        ensures
            match r {
                Ok(text) => rendered(self@) == Ok::<Seq<char>, Seq<char>>(text@),
                Err(e) => rendered(self@) matches Err(message) && e@ == (ErrorView::ConfigIo {
                    fault: ConfigFault::Format,
                    cause: message,
                }),
            },
    {
        let value = encode(self);
        match print_value(&value) {
            Ok(text) => Ok(text),
            Err(message) => Err(Error::ConfigIo { fault: ConfigFault::Format, cause: message }),
        }
    }
}

proof fn lemma_aliases_read_back(aliases: Seq<(Seq<char>, Seq<char>)>)
    requires
        ascending(aliases),
    ensures
        read_aliases(alias_members(aliases)) == Some(aliases),
    decreases aliases.len(),
{
    let members = alias_members(aliases);
    if aliases.len() == 0 {
        assert(aliases =~= Seq::empty());
    } else {
        let front = aliases.drop_last();
        assert(members.drop_last() =~= alias_members(front));
        lemma_aliases_read_back(front);
        assert forall|i: int| 0 <= i < front.len() implies text_lt(
            (#[trigger] front[i]).0,
            aliases.last().0,
        ) by {
            assert(front[i] == aliases[i]);
        }
        lemma_put_last(front, aliases.last().0, aliases.last().1);
        assert(front.push(aliases.last()) =~= aliases);
    }
}

proof fn lemma_providers_read_back(providers: Seq<(Seq<char>, Option<Seq<char>>)>)
    requires
        ascending(providers),
    ensures
        read_providers(provider_members(providers)) == Some(providers),
    decreases providers.len(),
{
    let members = provider_members(providers);
    if providers.len() == 0 {
        assert(providers =~= Seq::empty());
    } else {
        let front = providers.drop_last();
        assert(members.drop_last() =~= provider_members(front));
        lemma_providers_read_back(front);
        assert forall|i: int| 0 <= i < front.len() implies text_lt(
            (#[trigger] front[i]).0,
            providers.last().0,
        ) by {
            assert(front[i] == providers[i]);
        }
        lemma_put_last(front, providers.last().0, providers.last().1);
        assert(front.push(providers.last()) =~= providers);
        let key = providers.last().1;
        assert(read_provider(provider_tree(key)) == Some(key)) by {
            match key {
                Some(k) => {
                    let inner = seq![("key"@, JsonView::Text(k))];
                    assert(inner[0].0 == "key"@);
                },
                None => {},
            }
        }
    }
}

/// Settings that are written as a document and read back from it are the
/// same settings.
pub proof fn lemma_document_round_trip(settings: SettingsView)
    requires
        ascending(settings.addresses),
        ascending(settings.providers),
    ensures
        decoded(encoded(settings)) == Some(settings),
{
    lemma_member_names();
    lemma_aliases_read_back(settings.addresses);
    lemma_providers_read_back(settings.providers);
    let first = ("addresses"@, JsonView::Object(alias_members(settings.addresses)));
    let last = ("providers"@, JsonView::Object(provider_members(settings.providers)));
    let members = seq![first] + optional_member("default_alias"@, settings.default_alias)
        + optional_member("default_provider"@, settings.default_provider) + seq![last];
    assert(encoded(settings) == JsonView::Object(members));
    lemma_lookup_first(members, "addresses"@, 0);
    lemma_lookup_first(members, "providers"@, members.len() - 1);
    match settings.default_alias {
        Some(alias) => {
            lemma_lookup_first(members, "default_alias"@, 1);
        },
        None => {
            lemma_lookup_absent(members, "default_alias"@);
        },
    }
    match settings.default_provider {
        Some(id) => {
            lemma_lookup_first(members, "default_provider"@, members.len() - 2);
        },
        None => {
            lemma_lookup_absent(members, "default_provider"@);
        },
    }
}

} // verus!
