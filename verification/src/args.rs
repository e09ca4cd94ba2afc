//! The commands as they arrive from the command line, and what each of them
//! asks the program to do.

use crate::text::{option_str_text, owned, same_text};
use vstd::prelude::*;
use vstd::string::*;

verus! {

/// The command line once it was read.
#[derive(Debug, PartialEq, Eq)]
pub struct Cli {
    /// Whether debug output was asked for.
    pub debug: bool,
    /// The command, if one was given.
    pub command: Option<AppCommands>,
}

/// The commands.
#[derive(Debug, PartialEq, Eq)]
pub enum AppCommands {
    /// Ask for the weather.
    Get {
        /// The address or an alias for it.
        address: Option<String>,
        date: Option<String>,
        provider: Option<String>,
    },
    /// Manage the providers.
    Provider {
        provider: Option<String>,
        /// The API key to store for the provider.
        key: Option<String>,
        /// List the providers instead.
        list: bool,
    },
    /// Manage the aliases.
    Alias {
        name: Option<String>,
        /// The address to store under the alias.
        address: Option<String>,
        /// Remove the alias instead.
        remove: bool,
        /// List the aliases instead.
        list: bool,
    },
}

/// What a command line asks the program to do.
#[derive(Debug, PartialEq, Eq)]
pub enum Action {
    /// Nothing at all.
    Nothing,
    GetWeather { address: Option<String>, date: Option<String>, provider: Option<String> },
    ListProviders,
    SetProvider { provider: String, key: Option<String> },
    ListAliases,
    RemoveAlias { name: String },
    SetAlias { name: String, address: Option<String> },
}

impl Action {
    /// Whether the action is the one that the command asks for. Listing
    /// comes before everything else in its command, and removing before
    /// setting; a command about a provider or an alias that names none, and
    /// does not list, asks for nothing.
    pub open spec fn answers(self, command: Option<AppCommands>) -> bool {
        match command {
            None => self is Nothing,
            Some(AppCommands::Get { address, date, provider }) => self matches Action::GetWeather {
                address: a,
                date: d,
                provider: p,
            } && a == address && d == date && p == provider,
            Some(AppCommands::Provider { provider, key, list }) => if list {
                self is ListProviders
            } else {
                match provider {
                    Some(id) => self matches Action::SetProvider { provider: p, key: k } && p == id
                        && k == key,
                    None => self is Nothing,
                }
            },
            Some(AppCommands::Alias { name, address, remove, list }) => if list {
                self is ListAliases
            } else {
                match name {
                    Some(alias) => if remove {
                        self matches Action::RemoveAlias { name: n } && n == alias
                    } else {
                        self matches Action::SetAlias { name: n, address: a } && n == alias && a
                            == address
                    },
                    None => self is Nothing,
                }
            },
        }
    }
}

/// Decides what a command line asks the program to do.
pub fn run(cli: Cli) -> (action: Action)
    ensures
        action.answers(cli.command),
{
    match cli.command {
        None => Action::Nothing,
        Some(AppCommands::Get { address, date, provider }) => Action::GetWeather {
            address,
            date,
            provider,
        },
        Some(AppCommands::Provider { provider, key, list }) => {
            if list {
                Action::ListProviders
            } else {
                match provider {
                    Some(id) => Action::SetProvider { provider: id, key },
                    None => Action::Nothing,
                }
            }
        },
        Some(AppCommands::Alias { name, address, remove, list }) => {
            if list {
                Action::ListAliases
            } else {
                match name {
                    Some(alias) => if remove {
                        Action::RemoveAlias { name: alias }
                    } else {
                        Action::SetAlias { name: alias, address }
                    },
                    None => Action::Nothing,
                }
            }
        },
    }
}

} // verus!

verus! {

/// Where in the command line the reading stands.
#[derive(Debug, Clone, Copy, PartialEq, Eq, Structural)]
pub enum Level {
    /// Before any command.
    Top,
    Get,
    Provider,
    Alias,
}

/// The things that a command line can set.
#[derive(Debug, Clone, Copy, PartialEq, Eq, Structural)]
pub enum Opt {
    /// `--debug`, anywhere.
    Debug,
    /// The location of `get`, the provider of `provider`, the name of `alias`.
    Name,
    /// `--date` or `-d` of `get`.
    Date,
    /// `--provider` or `-p` of `get`.
    Provider,
    /// `--key` or `-k` of `provider`.
    Key,
    /// `--address` or `-a` of `alias`.
    Address,
    /// `--remove` or `-r` of `alias`.
    Remove,
    /// `--list` or `-l` of `provider` and of `alias`.
    List,
}

/// Why a command line was not taken.
#[derive(Debug, PartialEq, Eq)]
pub enum UsageError {
    /// Help was asked for.
    Help,
    /// The version was asked for.
    Version,
    /// Nothing was given where something is needed.
    NothingGiven,
    /// A word that is neither a command nor an option at its place.
    Unknown(String),
    /// An option that takes a value stands without one.
    MissingValue(Opt),
    /// An option that takes no value was given one.
    UnexpectedValue(Opt),
    /// The same thing was set twice.
    Repeated(Opt),
    /// A word for which there is no place left.
    Surplus(String),
    /// The first cannot be used together with the second.
    Conflict(Opt, Opt),
    /// The first needs the second.
    Requires(Opt, Opt),
}

/// A refusal as plain values.
pub enum UsageErrorView {
    Help,
    Version,
    NothingGiven,
    Unknown(Seq<char>),
    MissingValue(Opt),
    UnexpectedValue(Opt),
    Repeated(Opt),
    Surplus(Seq<char>),
    Conflict(Opt, Opt),
    Requires(Opt, Opt),
}

impl View for UsageError {
    type V = UsageErrorView;

    open spec fn view(&self) -> UsageErrorView {
        match self {
            UsageError::Help => UsageErrorView::Help,
            UsageError::Version => UsageErrorView::Version,
            UsageError::NothingGiven => UsageErrorView::NothingGiven,
            UsageError::Unknown(word) => UsageErrorView::Unknown(word@),
            UsageError::MissingValue(o) => UsageErrorView::MissingValue(*o),
            UsageError::UnexpectedValue(o) => UsageErrorView::UnexpectedValue(*o),
            UsageError::Repeated(o) => UsageErrorView::Repeated(*o),
            UsageError::Surplus(word) => UsageErrorView::Surplus(word@),
            UsageError::Conflict(a, b) => UsageErrorView::Conflict(*a, *b),
            UsageError::Requires(a, b) => UsageErrorView::Requires(*a, *b),
        }
    }
}

/// A command as plain values.
pub enum CommandView {
    Get { address: Option<Seq<char>>, date: Option<Seq<char>>, provider: Option<Seq<char>> },
    Provider { provider: Option<Seq<char>>, key: Option<Seq<char>>, list: bool },
    Alias { name: Option<Seq<char>>, address: Option<Seq<char>>, remove: bool, list: bool },
}

/// A command line as plain values.
pub struct CliView {
    pub debug: bool,
    pub command: Option<CommandView>,
}

impl View for AppCommands {
    type V = CommandView;

    open spec fn view(&self) -> CommandView {
        match self {
            AppCommands::Get { address, date, provider } => CommandView::Get {
                address: crate::text::option_text(*address),
                date: crate::text::option_text(*date),
                provider: crate::text::option_text(*provider),
            },
            AppCommands::Provider { provider, key, list } => CommandView::Provider {
                provider: crate::text::option_text(*provider),
                key: crate::text::option_text(*key),
                list: *list,
            },
            AppCommands::Alias { name, address, remove, list } => CommandView::Alias {
                name: crate::text::option_text(*name),
                address: crate::text::option_text(*address),
                remove: *remove,
                list: *list,
            },
        }
    }
}

impl View for Cli {
    type V = CliView;

    open spec fn view(&self) -> CliView {
        CliView {
            debug: self.debug,
            command: match self.command {
                Some(c) => Some(c@),
                None => None,
            },
        }
    }
}

/// What was read of a command line so far.
pub struct Draft {
    pub debug: bool,
    pub level: Level,
    /// Whether anything was given since the level was entered.
    pub touched: bool,
    /// The one word of a command that is no option.
    pub name: Option<String>,
    /// The value of the first option of the command: the date of `get`,
    /// the key of `provider`, the address of `alias`.
    pub first: Option<String>,
    /// The value of the second option: the provider of `get`.
    pub second: Option<String>,
    pub remove: bool,
    pub list: bool,
    /// The option whose value the next word is.
    pub pending: Option<Opt>,
    /// Whether `--` was passed, after which no word is an option.
    pub literal: bool,
}

/// What was read so far, as plain values.
pub struct DraftView {
    pub debug: bool,
    pub level: Level,
    pub touched: bool,
    pub name: Option<Seq<char>>,
    pub first: Option<Seq<char>>,
    pub second: Option<Seq<char>>,
    pub remove: bool,
    pub list: bool,
    pub pending: Option<Opt>,
    pub literal: bool,
}

impl View for Draft {
    type V = DraftView;

    open spec fn view(&self) -> DraftView {
        DraftView {
            debug: self.debug,
            level: self.level,
            touched: self.touched,
            name: crate::text::option_text(self.name),
            first: crate::text::option_text(self.first),
            second: crate::text::option_text(self.second),
            remove: self.remove,
            list: self.list,
            pending: self.pending,
            literal: self.literal,
        }
    }
}

/// The position of the first `=` at or after `from`, or the length where
/// there is none.
pub open spec fn first_equals(s: Seq<char>, from: int) -> int
    decreases s.len() - from,
{
    if from < 0 || from >= s.len() {
        s.len() as int
    } else if s[from] == '=' {
        from
    } else {
        first_equals(s, from + 1)
    }
}

/// Whether a word has the form of an option: a dash and something more.
pub open spec fn dashed(word: Seq<char>) -> bool {
    word.len() >= 2 && word[0] == '-'
}

/// Whether a word has the long form: two dashes and something more, or
/// nothing more.
pub open spec fn long_form(word: Seq<char>) -> bool {
    word.len() >= 2 && word[0] == '-' && word[1] == '-'
}

/// The name in a word of the long form: what stands between the dashes
/// and the first `=`.
pub open spec fn long_name(word: Seq<char>) -> Seq<char> {
    word.subrange(2, first_equals(word, 2))
}

/// The value in a word of the long form: what follows the first `=`.
pub open spec fn long_value(word: Seq<char>) -> Option<Seq<char>> {
    if first_equals(word, 2) < word.len() {
        Some(word.subrange(first_equals(word, 2) + 1, word.len() as int))
    } else {
        None
    }
}

/// The option that a long name stands for at a level.
pub open spec fn long_option(level: Level, name: Seq<char>) -> Option<Opt> {
    if name == "debug"@ {
        Some(Opt::Debug)
    } else {
        match level {
            Level::Top => None,
            Level::Get => if name == "date"@ {
                Some(Opt::Date)
            } else if name == "provider"@ {
                Some(Opt::Provider)
            } else {
                None
            },
            Level::Provider => if name == "key"@ {
                Some(Opt::Key)
            } else if name == "list"@ {
                Some(Opt::List)
            } else {
                None
            },
            Level::Alias => if name == "address"@ {
                Some(Opt::Address)
            } else if name == "remove"@ {
                Some(Opt::Remove)
            } else if name == "list"@ {
                Some(Opt::List)
            } else {
                None
            },
        }
    }
}

/// The option that a letter stands for at a level.
pub open spec fn short_option(level: Level, letter: char) -> Option<Opt> {
    match level {
        Level::Top => None,
        Level::Get => if letter == 'd' {
            Some(Opt::Date)
        } else if letter == 'p' {
            Some(Opt::Provider)
        } else {
            None
        },
        Level::Provider => if letter == 'k' {
            Some(Opt::Key)
        } else if letter == 'l' {
            Some(Opt::List)
        } else {
            None
        },
        Level::Alias => if letter == 'a' {
            Some(Opt::Address)
        } else if letter == 'r' {
            Some(Opt::Remove)
        } else if letter == 'l' {
            Some(Opt::List)
        } else {
            None
        },
    }
}

/// Whether an option takes a value.
pub open spec fn takes_value(o: Opt) -> bool {
    o == Opt::Date || o == Opt::Provider || o == Opt::Key || o == Opt::Address
}

/// What a value is stored as: the second of the two options of `get` is
/// its provider, every other valued option is the first of its command.
pub open spec fn with_value(draft: DraftView, o: Opt, value: Seq<char>) -> Result<
    DraftView,
    UsageErrorView,
> {
    if o == Opt::Provider {
        if draft.second is Some {
            Err(UsageErrorView::Repeated(o))
        } else {
            Ok(DraftView { second: Some(value), pending: None, touched: true, ..draft })
        }
    } else {
        if draft.first is Some {
            Err(UsageErrorView::Repeated(o))
        } else {
            Ok(DraftView { first: Some(value), pending: None, touched: true, ..draft })
        }
    }
}

/// What a flag does: it may be given once.
pub open spec fn with_flag(draft: DraftView, o: Opt) -> Result<DraftView, UsageErrorView> {
    if o == Opt::Debug {
        if draft.debug {
            Err(UsageErrorView::Repeated(o))
        } else {
            Ok(DraftView { debug: true, touched: true, ..draft })
        }
    } else if o == Opt::Remove {
        if draft.remove {
            Err(UsageErrorView::Repeated(o))
        } else {
            Ok(DraftView { remove: true, touched: true, ..draft })
        }
    } else {
        if draft.list {
            Err(UsageErrorView::Repeated(o))
        } else {
            Ok(DraftView { list: true, touched: true, ..draft })
        }
    }
}

/// What an option does, with the value that was written with it, if any.
/// An option that takes a value and has none waits for the next word.
pub open spec fn with_option(draft: DraftView, o: Opt, value: Option<Seq<char>>) -> Result<
    DraftView,
    UsageErrorView,
> {
    if takes_value(o) {
        match value {
            Some(v) => with_value(draft, o, v),
            None => if (o == Opt::Provider && draft.second is Some) || (o != Opt::Provider
                && draft.first is Some) {
                Err(UsageErrorView::Repeated(o))
            } else {
                Ok(DraftView { pending: Some(o), touched: true, ..draft })
            },
        }
    } else {
        match value {
            Some(_) => Err(UsageErrorView::UnexpectedValue(o)),
            None => with_flag(draft, o),
        }
    }
}

/// What a word does that is no option: before any command it names the
/// command; within a command it is the one word that the command takes.
pub open spec fn with_word(draft: DraftView, word: Seq<char>) -> Result<DraftView, UsageErrorView> {
    match draft.level {
        Level::Top => {
            let entered = DraftView { touched: false, literal: false, ..draft };
            if word == "get"@ {
                Ok(DraftView { level: Level::Get, ..entered })
            } else if word == "provider"@ {
                Ok(DraftView { level: Level::Provider, ..entered })
            } else if word == "alias"@ {
                Ok(DraftView { level: Level::Alias, ..entered })
            } else {
                Err(UsageErrorView::Unknown(word))
            }
        },
        _ => if draft.name is Some {
            Err(UsageErrorView::Surplus(word))
        } else {
            Ok(DraftView { name: Some(word), touched: true, ..draft })
        },
    }
}

/// What one word does to what was read so far.
pub open spec fn stepped(draft: DraftView, word: Seq<char>) -> Result<DraftView, UsageErrorView> {
    match draft.pending {
        Some(o) => if dashed(word) {
            Err(UsageErrorView::MissingValue(o))
        } else {
            with_value(draft, o, word)
        },
        None => if draft.literal {
            with_word(draft, word)
        } else if word == "--"@ {
            Ok(DraftView { literal: true, touched: true, ..draft })
        } else if long_form(word) {
            if long_name(word) == "help"@ {
                Err(UsageErrorView::Help)
            } else if long_name(word) == "version"@ && draft.level == Level::Top {
                Err(UsageErrorView::Version)
            } else {
                match long_option(draft.level, long_name(word)) {
                    Some(o) => with_option(draft, o, long_value(word)),
                    None => Err(UsageErrorView::Unknown(word)),
                }
            }
        } else if dashed(word) {
            if word.len() != 2 {
                Err(UsageErrorView::Unknown(word))
            } else if word[1] == 'h' {
                Err(UsageErrorView::Help)
            } else if word[1] == 'V' && draft.level == Level::Top {
                Err(UsageErrorView::Version)
            } else {
                match short_option(draft.level, word[1]) {
                    Some(o) => with_option(draft, o, None),
                    None => Err(UsageErrorView::Unknown(word)),
                }
            }
        } else {
            with_word(draft, word)
        },
    }
}

/// What the words from `from` on do, one after the other, up to the first
/// that is refused.
pub open spec fn read_words(draft: DraftView, words: Seq<Seq<char>>, from: int) -> Result<
    DraftView,
    UsageErrorView,
>
    decreases words.len() - from,
{
    if from < 0 || from >= words.len() {
        Ok(draft)
    } else {
        match stepped(draft, words[from]) {
            Ok(next) => read_words(next, words, from + 1),
            Err(e) => Err(e),
        }
    }
}

/// The state before any word was read.
pub open spec fn blank_draft() -> DraftView {
    DraftView {
        debug: false,
        level: Level::Top,
        touched: false,
        name: None,
        first: None,
        second: None,
        remove: false,
        list: false,
        pending: None,
        literal: false,
    }
}

/// The command line that a finished reading stands for, or what is wrong
/// with it as a whole. An option may not be left waiting for its value.
/// A bare program name is refused, and so is a bare `provider` or `alias`.
/// Listing goes with nothing else of its command; removing goes with no
/// address; an address and removing need the name of the alias.
pub open spec fn finished(draft: DraftView) -> Result<CliView, UsageErrorView> {
    if draft.pending is Some {
        Err(UsageErrorView::MissingValue(draft.pending->0))
    } else {
        match draft.level {
            Level::Top => if draft.touched {
                Ok(CliView { debug: draft.debug, command: None })
            } else {
                Err(UsageErrorView::NothingGiven)
            },
            Level::Get => Ok(
                CliView {
                    debug: draft.debug,
                    command: Some(
                        CommandView::Get {
                            address: draft.name,
                            date: draft.first,
                            provider: draft.second,
                        },
                    ),
                },
            ),
            Level::Provider => if !draft.touched {
                Err(UsageErrorView::NothingGiven)
            } else if draft.list && draft.name is Some {
                Err(UsageErrorView::Conflict(Opt::List, Opt::Name))
            } else if draft.list && draft.first is Some {
                Err(UsageErrorView::Conflict(Opt::List, Opt::Key))
            } else {
                Ok(
                    CliView {
                        debug: draft.debug,
                        command: Some(
                            CommandView::Provider {
                                provider: draft.name,
                                key: draft.first,
                                list: draft.list,
                            },
                        ),
                    },
                )
            },
            Level::Alias => if !draft.touched {
                Err(UsageErrorView::NothingGiven)
            } else if draft.list && draft.name is Some {
                Err(UsageErrorView::Conflict(Opt::List, Opt::Name))
            } else if draft.list && draft.first is Some {
                Err(UsageErrorView::Conflict(Opt::List, Opt::Address))
            } else if draft.list && draft.remove {
                Err(UsageErrorView::Conflict(Opt::List, Opt::Remove))
            } else if draft.remove && draft.first is Some {
                Err(UsageErrorView::Conflict(Opt::Remove, Opt::Address))
            } else if draft.first is Some && draft.name is None {
                Err(UsageErrorView::Requires(Opt::Address, Opt::Name))
            } else if draft.remove && draft.name is None {
                Err(UsageErrorView::Requires(Opt::Remove, Opt::Name))
            } else {
                Ok(
                    CliView {
                        debug: draft.debug,
                        command: Some(
                            CommandView::Alias {
                                name: draft.name,
                                address: draft.first,
                                remove: draft.remove,
                                list: draft.list,
                            },
                        ),
                    },
                )
            },
        }
    }
}

/// What a command line is read as. The first word is the name of the
/// program and is passed over.
pub open spec fn parsed_cli(words: Seq<Seq<char>>) -> Result<CliView, UsageErrorView> {
    match read_words(blank_draft(), words, 1) {
        Ok(draft) => finished(draft),
        Err(e) => Err(e),
    }
}

} // verus!

verus! {

/// The outcome of a step as plain values.
pub open spec fn draft_result(r: Result<Draft, UsageError>) -> Result<DraftView, UsageErrorView> {
    match r {
        Ok(d) => Ok(d@),
        Err(e) => Err(e@),
    }
}

/// The outcome of a reading as plain values.
pub open spec fn cli_result(r: Result<Cli, UsageError>) -> Result<CliView, UsageErrorView> {
    match r {
        Ok(c) => Ok(c@),
        Err(e) => Err(e@),
    }
}

/// The words as plain values.
pub open spec fn slice_text(words: Seq<&str>) -> Seq<Seq<char>> {
    Seq::new(words.len(), |i: int| words[i]@)
}

fn is_dashed(word: &str) -> (r: bool)
    ensures
        r == dashed(word@),
{
    word.unicode_len() >= 2 && word.get_char(0) == '-'
}

fn is_long(word: &str) -> (r: bool)
    ensures
        r == long_form(word@),
{
    word.unicode_len() >= 2 && word.get_char(0) == '-' && word.get_char(1) == '-'
}

fn long_parts(word: &str) -> (parts: (&str, Option<&str>))
    requires
        long_form(word@),
    ensures
        parts.0@ == long_name(word@),
        option_str_text(parts.1) == long_value(word@),
{
    let n = word.unicode_len();
    let mut k: usize = 2;
    while k < n && word.get_char(k) != '='
        invariant
            2 <= k <= n,
            n == word@.len(),
            first_equals(word@, 2) == first_equals(word@, k as int),
        decreases n - k,
    {
        k += 1;
    }
    let name = word.substring_char(2, k);
    if k < n {
        (name, Some(word.substring_char(k + 1, n)))
    } else {
        (name, None)
    }
}

fn long_opt(level: Level, name: &str) -> (o: Option<Opt>)
    ensures
        o == long_option(level, name@),
{
    if same_text(name, "debug") {
        return Some(Opt::Debug);
    }
    match level {
        Level::Top => None,
        Level::Get => if same_text(name, "date") {
            Some(Opt::Date)
        } else if same_text(name, "provider") {
            Some(Opt::Provider)
        } else {
            None
        },
        Level::Provider => if same_text(name, "key") {
            Some(Opt::Key)
        } else if same_text(name, "list") {
            Some(Opt::List)
        } else {
            None
        },
        Level::Alias => if same_text(name, "address") {
            Some(Opt::Address)
        } else if same_text(name, "remove") {
            Some(Opt::Remove)
        } else if same_text(name, "list") {
            Some(Opt::List)
        } else {
            None
        },
    }
}

fn short_opt(level: Level, letter: char) -> (o: Option<Opt>)
    ensures
        o == short_option(level, letter),
{
    match level {
        Level::Top => None,
        Level::Get => if letter == 'd' {
            Some(Opt::Date)
        } else if letter == 'p' {
            Some(Opt::Provider)
        } else {
            None
        },
        Level::Provider => if letter == 'k' {
            Some(Opt::Key)
        } else if letter == 'l' {
            Some(Opt::List)
        } else {
            None
        },
        Level::Alias => if letter == 'a' {
            Some(Opt::Address)
        } else if letter == 'r' {
            Some(Opt::Remove)
        } else if letter == 'l' {
            Some(Opt::List)
        } else {
            None
        },
    }
}

fn valued(o: Opt) -> (r: bool)
    ensures
        r == takes_value(o),
{
    match o {
        Opt::Date => true,
        Opt::Provider => true,
        Opt::Key => true,
        Opt::Address => true,
        _ => false,
    }
}

fn is_provider_option(o: Opt) -> (r: bool)
    ensures
        r == (o == Opt::Provider),
{
    match o {
        Opt::Provider => true,
        _ => false,
    }
}

impl Draft {
    /// The state before any word was read.
    pub fn new() -> (draft: Draft)
        ensures
            draft@ == blank_draft(),
    {
        Draft {
            debug: false,
            level: Level::Top,
            touched: false,
            name: None,
            first: None,
            second: None,
            remove: false,
            list: false,
            pending: None,
            literal: false,
        }
    }

    fn set_value(self, o: Opt, value: &str) -> (r: Result<Draft, UsageError>)
        ensures
            draft_result(r) == with_value(self@, o, value@),
    {
        let mut draft = self;
        if is_provider_option(o) {
            if draft.second.is_some() {
                return Err(UsageError::Repeated(o));
            }
            draft.second = Some(owned(value));
        } else {
            if draft.first.is_some() {
                return Err(UsageError::Repeated(o));
            }
            draft.first = Some(owned(value));
        }
        draft.pending = None;
        draft.touched = true;
        Ok(draft)
    }

    fn set_flag(self, o: Opt) -> (r: Result<Draft, UsageError>)
        ensures
            draft_result(r) == with_flag(self@, o),
    {
        let mut draft = self;
        match o {
            Opt::Debug => {
                if draft.debug {
                    return Err(UsageError::Repeated(o));
                }
                draft.debug = true;
            },
            Opt::Remove => {
                if draft.remove {
                    return Err(UsageError::Repeated(o));
                }
                draft.remove = true;
            },
            _ => {
                if draft.list {
                    return Err(UsageError::Repeated(o));
                }
                draft.list = true;
            },
        }
        draft.touched = true;
        Ok(draft)
    }

    fn set_option(self, o: Opt, value: Option<&str>) -> (r: Result<Draft, UsageError>)
        ensures
            draft_result(r) == with_option(self@, o, option_str_text(value)),
    {
        if valued(o) {
            match value {
                Some(v) => self.set_value(o, v),
                None => {
                    let taken = if is_provider_option(o) {
                        self.second.is_some()
                    } else {
                        self.first.is_some()
                    };
                    if taken {
                        return Err(UsageError::Repeated(o));
                    }
                    let mut draft = self;
                    draft.pending = Some(o);
                    draft.touched = true;
                    Ok(draft)
                },
            }
        } else {
            match value {
                Some(_) => Err(UsageError::UnexpectedValue(o)),
                None => self.set_flag(o),
            }
        }
    }

    fn set_word(self, word: &str) -> (r: Result<Draft, UsageError>)
        ensures
            draft_result(r) == with_word(self@, word@),
    {
        let mut draft = self;
        match draft.level {
            Level::Top => {
                let level = if same_text(word, "get") {
                    Level::Get
                } else if same_text(word, "provider") {
                    Level::Provider
                } else if same_text(word, "alias") {
                    Level::Alias
                } else {
                    return Err(UsageError::Unknown(owned(word)));
                };
                draft.level = level;
                draft.touched = false;
                draft.literal = false;
                Ok(draft)
            },
            _ => {
                if draft.name.is_some() {
                    return Err(UsageError::Surplus(owned(word)));
                }
                draft.name = Some(owned(word));
                draft.touched = true;
                Ok(draft)
            },
        }
    }

    /// Takes in the next word of the command line.
    pub fn step(self, word: &str) -> (r: Result<Draft, UsageError>)
        ensures
            draft_result(r) == stepped(self@, word@),
    {
        match self.pending {
            Some(o) => {
                if is_dashed(word) {
                    return Err(UsageError::MissingValue(o));
                }
                return self.set_value(o, word);
            },
            None => {},
        }
        if self.literal {
            return self.set_word(word);
        }
        if same_text(word, "--") {
            let mut draft = self;
            draft.literal = true;
            draft.touched = true;
            return Ok(draft);
        }
        if is_long(word) {
            let (name, value) = long_parts(word);
            if same_text(name, "help") {
                return Err(UsageError::Help);
            }
            let top = match self.level {
                Level::Top => true,
                _ => false,
            };
            if same_text(name, "version") && top {
                return Err(UsageError::Version);
            }
            return match long_opt(self.level, name) {
                Some(o) => self.set_option(o, value),
                None => Err(UsageError::Unknown(owned(word))),
            };
        }
        if is_dashed(word) {
            if word.unicode_len() != 2 {
                return Err(UsageError::Unknown(owned(word)));
            }
            let letter = word.get_char(1);
            if letter == 'h' {
                return Err(UsageError::Help);
            }
            let top = match self.level {
                Level::Top => true,
                _ => false,
            };
            if letter == 'V' && top {
                return Err(UsageError::Version);
            }
            return match short_opt(self.level, letter) {
                Some(o) => self.set_option(o, None),
                None => Err(UsageError::Unknown(owned(word))),
            };
        }
        self.set_word(word)
    }

    /// Closes the reading once every word was taken in.
    pub fn finish(self) -> (r: Result<Cli, UsageError>)
        ensures
            cli_result(r) == finished(self@),
    {
        match self.pending {
            Some(o) => {
                return Err(UsageError::MissingValue(o));
            },
            None => {},
        }
        match self.level {
            Level::Top => {
                if self.touched {
                    Ok(Cli { debug: self.debug, command: None })
                } else {
                    Err(UsageError::NothingGiven)
                }
            },
            Level::Get => Ok(
                Cli {
                    debug: self.debug,
                    command: Some(
                        AppCommands::Get {
                            address: self.name,
                            date: self.first,
                            provider: self.second,
                        },
                    ),
                },
            ),
            Level::Provider => {
                if !self.touched {
                    Err(UsageError::NothingGiven)
                } else if self.list && self.name.is_some() {
                    Err(UsageError::Conflict(Opt::List, Opt::Name))
                } else if self.list && self.first.is_some() {
                    Err(UsageError::Conflict(Opt::List, Opt::Key))
                } else {
                    Ok(
                        Cli {
                            debug: self.debug,
                            command: Some(
                                AppCommands::Provider {
                                    provider: self.name,
                                    key: self.first,
                                    list: self.list,
                                },
                            ),
                        },
                    )
                }
            },
            Level::Alias => {
                if !self.touched {
                    Err(UsageError::NothingGiven)
                } else if self.list && self.name.is_some() {
                    Err(UsageError::Conflict(Opt::List, Opt::Name))
                } else if self.list && self.first.is_some() {
                    Err(UsageError::Conflict(Opt::List, Opt::Address))
                } else if self.list && self.remove {
                    Err(UsageError::Conflict(Opt::List, Opt::Remove))
                } else if self.remove && self.first.is_some() {
                    Err(UsageError::Conflict(Opt::Remove, Opt::Address))
                } else if self.first.is_some() && self.name.is_none() {
                    Err(UsageError::Requires(Opt::Address, Opt::Name))
                } else if self.remove && self.name.is_none() {
                    Err(UsageError::Requires(Opt::Remove, Opt::Name))
                } else {
                    Ok(
                        Cli {
                            debug: self.debug,
                            command: Some(
                                AppCommands::Alias {
                                    name: self.name,
                                    address: self.first,
                                    remove: self.remove,
                                    list: self.list,
                                },
                            ),
                        },
                    )
                }
            },
        }
    }
}

impl Cli {
    /// Reads a command line, the name of the program first.
    pub fn try_parse_from(words: &[&str]) -> (r: Result<Cli, UsageError>)
        ensures
            cli_result(r) == parsed_cli(slice_text(words@)),
    {
        let ghost all = slice_text(words@);
        let mut draft = Draft::new();
        let mut i: usize = 1;
        while i < words.len()
            invariant
                1 <= i,
                all == slice_text(words@),
                read_words(blank_draft(), all, 1) == read_words(draft@, all, i as int),
            decreases words@.len() - i,
        {
            proof {
                assert(all[i as int] == words@[i as int]@);
            }
            match draft.step(words[i]) {
                Ok(next) => {
                    draft = next;
                },
                Err(e) => {
                    return Err(e);
                },
            }
            i += 1;
        }
        draft.finish()
    }
}

/// The text that tells how the program is called.
pub open spec fn usage_text() -> Seq<char> {
    "Usage: weather [OPTIONS] [COMMAND]\n\nCommands:\n  get       Retrieve weather information\n  provider  Manage weather service providers\n  alias     Manage location aliases, e.g., \"home\" -> \"London, UK\"\n\nOptions:\n      --debug    Enable debug console output\n  -h, --help     Print help\n  -V, --version  Print version\n\nweather get [LOCATION] [-d, --date <DATE>] [-p, --provider <PROVIDER>]\nweather provider [PROVIDER] [-k, --key <API_KEY>] [-l, --list]\nweather alias [ALIAS] [-a, --address <ADDRESS>] [-r, --remove] [-l, --list]\n"@
}

/// Writes the text that tells how the program is called.
pub fn usage() -> (text: String)
    ensures
        text@ == usage_text(),
{
    owned(
        "Usage: weather [OPTIONS] [COMMAND]\n\nCommands:\n  get       Retrieve weather information\n  provider  Manage weather service providers\n  alias     Manage location aliases, e.g., \"home\" -> \"London, UK\"\n\nOptions:\n      --debug    Enable debug console output\n  -h, --help     Print help\n  -V, --version  Print version\n\nweather get [LOCATION] [-d, --date <DATE>] [-p, --provider <PROVIDER>]\nweather provider [PROVIDER] [-k, --key <API_KEY>] [-l, --list]\nweather alias [ALIAS] [-a, --address <ADDRESS>] [-r, --remove] [-l, --list]\n",
    )
}

} // verus!
