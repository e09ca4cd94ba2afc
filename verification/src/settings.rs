//! The stored preferences: address aliases, provider keys and the defaults.

use crate::text::{option_text, owned};
use crate::text_map::{lookup, put, TextMap};
use vstd::prelude::*;

verus! {

/// What is stored for one provider.
#[derive(Debug, PartialEq, Eq)]
pub struct ProviderConfig {
    /// The API key, if one was set.
    pub key: Option<String>,
}

impl View for ProviderConfig {
    type V = Option<Seq<char>>;

    open spec fn view(&self) -> Option<Seq<char>> {
        option_text(self.key)
    }
}

impl Clone for ProviderConfig {
    fn clone(&self) -> (copy: ProviderConfig)
        ensures
            copy == *self,
    {
        ProviderConfig {
            key: match &self.key {
                Some(key) => Some(key.clone()),
                None => None,
            },
        }
    }
}

impl Default for ProviderConfig {
    fn default() -> (config: ProviderConfig)
        ensures
            config@ is None,
    {
        ProviderConfig { key: None }
    }
}

/// The stored preferences.
#[derive(Debug, PartialEq, Eq)]
pub struct Settings {
    /// From alias to address.
    pub addresses: TextMap<String>,
    /// The alias used when a request names no address. It may name an alias
    /// that is not stored.
    pub default_alias: Option<String>,
    /// From provider identifier to what is stored for that provider.
    pub providers: TextMap<ProviderConfig>,
    /// The provider used when a request names none. It may hold any text.
    pub default_provider: Option<String>,
}

/// The preferences as plain values, the maps as entries in key order.
pub struct SettingsView {
    pub addresses: Seq<(Seq<char>, Seq<char>)>,
    pub default_alias: Option<Seq<char>>,
    pub providers: Seq<(Seq<char>, Option<Seq<char>>)>,
    pub default_provider: Option<Seq<char>>,
}

impl SettingsView {
    /// The address that an alias stands for.
    pub open spec fn address(self, alias: Seq<char>) -> Option<Seq<char>> {
        lookup(self.addresses, alias)
    }

    /// The key stored for a provider identifier.
    pub open spec fn key(self, id: Seq<char>) -> Option<Seq<char>> {
        match lookup(self.providers, id) {
            Some(Some(key)) => Some(key),
            _ => None,
        }
    }

    /// The key stored for a provider identifier, unless it is empty.
    pub open spec fn usable_key(self, id: Seq<char>) -> Option<Seq<char>> {
        match self.key(id) {
            Some(key) if key.len() > 0 => Some(key),
            _ => None,
        }
    }

    /// The preferences of a first start: no alias, no defaults, and a
    /// placeholder key for each of the two mock providers.
    pub open spec fn initial() -> SettingsView {
        SettingsView {
            addresses: Seq::empty(),
            default_alias: None,
            providers: put(
                put(Seq::empty(), "mock"@, Some("mock-key"@)),
                "grpc"@,
                Some("grpc-mock-key"@),
            ),
            default_provider: None,
        }
    }

    /// Preferences that hold nothing at all.
    pub open spec fn blank() -> SettingsView {
        SettingsView {
            addresses: Seq::empty(),
            default_alias: None,
            providers: Seq::empty(),
            default_provider: None,
        }
    }
}

impl View for Settings {
    type V = SettingsView;

    open spec fn view(&self) -> SettingsView {
        SettingsView {
            addresses: self.addresses.items(),
            default_alias: option_text(self.default_alias),
            providers: self.providers.items(),
            default_provider: option_text(self.default_provider),
        }
    }
}

impl Clone for Settings {
    fn clone(&self) -> (copy: Settings)
        ensures
            copy@ == self@,
    {
        let copy = Settings {
            addresses: self.addresses.clone(),
            default_alias: match &self.default_alias {
                Some(alias) => Some(alias.clone()),
                None => None,
            },
            providers: self.providers.clone(),
            default_provider: match &self.default_provider {
                Some(id) => Some(id.clone()),
                None => None,
            },
        };
        proof {
            self.addresses.lemma_values();
            copy.addresses.lemma_values();
            self.providers.lemma_values();
            copy.providers.lemma_values();
            assert(copy.addresses.items() =~= self.addresses.items());
            assert(copy.providers.items() =~= self.providers.items());
        }
        copy
    }
}

impl Default for Settings {
    /// The preferences of a first start.
    fn default() -> (settings: Settings)
        ensures
            settings@ == SettingsView::initial(),
    {
        let mut providers: TextMap<ProviderConfig> = TextMap::new();
        providers.insert(owned("mock"), ProviderConfig { key: Some(owned("mock-key")) });
        providers.insert(owned("grpc"), ProviderConfig { key: Some(owned("grpc-mock-key")) });
        Settings {
            addresses: TextMap::new(),
            default_alias: None,
            providers,
            default_provider: None,
        }
    }
}

impl Settings {
    /// Preferences that hold nothing at all.
    pub fn empty() -> (settings: Settings)
        ensures
            settings@ == SettingsView::blank(),
    {
        Settings {
            addresses: TextMap::new(),
            default_alias: None,
            providers: TextMap::new(),
            default_provider: None,
        }
    }

    /// The key stored for a provider identifier.
    pub fn stored_key(&self, id: &str) -> (key: Option<&str>)
        ensures
            crate::text::option_str_text(key) == self@.key(id@),
    {
        match self.providers.get(id) {
            Some(config) => match &config.key {
                Some(key) => Some(key.as_str()),
                None => None,
            },
            None => None,
        }
    }

    /// The key stored for a provider identifier, unless it is empty.
    pub fn usable_key(&self, id: &str) -> (key: Option<&str>)
        ensures
            crate::text::option_str_text(key) == self@.usable_key(id@),
    {
        match self.stored_key(id) {
            Some(key) => if key.is_empty() {
                None
            } else {
                Some(key)
            },
            None => None,
        }
    }
}

} // verus!
