//! The keeper of the settings file: the settings as loaded, every change
//! followed by a request to write the file, and the steps by which the file
//! is replaced without ever being seen half written.

use crate::document::{read_settings, rendered};
use crate::error::{ConfigFault, Error, ErrorView};
use crate::settings::{Settings, SettingsView};
use crate::text::option_text;
use vstd::prelude::*;
use vstd::string::*;

verus! {

/// The path with its extension replaced by `tmp`, as the standard library
/// forms it.
pub uninterp spec fn sibling_temp(path: Seq<char>) -> Seq<char>;

/// The directory that holds a path, as the standard library finds it.
pub uninterp spec fn parent_dir(path: Seq<char>) -> Option<Seq<char>>;

/// Calls `std::path::Path::with_extension` with `tmp`. Trusted: the result
/// depends on the path alone.
#[verifier::external_body]
fn temp_path(path: &str) -> (temp: String)
    ensures
        temp@ == sibling_temp(path@),
{
    std::path::Path::new(path).with_extension("tmp").to_string_lossy().into_owned()
}

/// Calls `std::path::Path::parent`. Trusted: the result depends on the
/// path alone.
#[verifier::external_body]
fn parent_of(path: &str) -> (parent: Option<String>)
    ensures
        option_text(parent) == parent_dir(path@),
{
    match std::path::Path::new(path).parent() {
        Some(dir) => Some(dir.to_string_lossy().into_owned()),
        None => None,
    }
}

/// What reading the settings file gave.
#[derive(Debug, PartialEq, Eq)]
pub enum FileRead {
    /// There is no such file.
    Missing,
    /// The file could not be read, with the cause.
    Failed(String),
    /// The text of the file.
    Text(String),
}

/// The settings that a store starts with: those of the file where it was
/// read and holds settings, otherwise those of a first start.
pub open spec fn opened_settings(file: FileRead) -> SettingsView {
    match file {
        FileRead::Text(text) => match read_settings(text@) {
            Ok(settings) => settings,
            Err(_) => SettingsView::initial(),
        },
        _ => SettingsView::initial(),
    }
}

/// Why a store starts with the settings of a first start although a file
/// was there: `None` where the file was used or missing.
pub open spec fn load_failure(file: FileRead) -> Option<ErrorView> {
    match file {
        FileRead::Missing => None,
        FileRead::Failed(cause) => Some(
            ErrorView::ConfigIo { fault: ConfigFault::Io, cause: cause@ },
        ),
        FileRead::Text(text) => match read_settings(text@) {
            Ok(_) => None,
            Err(e) => Some(e),
        },
    }
}

/// The line that tells why the settings of a first start are used.
pub open spec fn load_notice(failure: ErrorView) -> Seq<char> {
    "Failed to load config file.\n\t"@ + failure.text() + "\n\tUsing default settings."@
}

/// All that is needed to write the settings file.
#[derive(Debug, PartialEq, Eq)]
pub struct SaveRequest {
    /// The settings file.
    pub path: String,
    /// The file beside it that is written first.
    pub temp_path: String,
    /// The directory to make sure of before writing, if the path has one.
    pub parent: Option<String>,
    /// The text to write.
    pub document: String,
}

/// A request to write the settings file, as plain values.
pub struct SaveView {
    pub path: Seq<char>,
    pub temp_path: Seq<char>,
    pub parent: Option<Seq<char>>,
    pub document: Seq<char>,
}

impl View for SaveRequest {
    type V = SaveView;

    open spec fn view(&self) -> SaveView {
        SaveView {
            path: self.path@,
            temp_path: self.temp_path@,
            parent: option_text(self.parent),
            document: self.document@,
        }
    }
}

/// The request that writes a text to a settings file.
pub open spec fn save_of(path: Seq<char>, document: Seq<char>) -> SaveView {
    SaveView { path, temp_path: sibling_temp(path), parent: parent_dir(path), document }
}

/// The sole owner of the settings file.
#[derive(Debug, PartialEq, Eq)]
pub struct AppConfig {
    settings_file: String,
    settings: Settings,
    notice: Option<String>,
}

impl AppConfig {
    /// The path of the settings file.
    pub closed spec fn path(&self) -> Seq<char> {
        self.settings_file@
    }

    /// The settings as they are held.
    pub closed spec fn held(&self) -> Settings {
        self.settings
    }

    /// The settings as plain values.
    pub open spec fn view(&self) -> SettingsView {
        self.held()@
    }

    /// The line to log about the loading, as plain values.
    pub closed spec fn spec_notice(&self) -> Option<Seq<char>> {
        option_text(self.notice)
    }

    /// Opens the store on what reading the settings file gave. A missing
    /// file gives the settings of a first start without a word. A file that
    /// could not be read, or that does not hold settings, gives them too,
    /// with a line to log that tells the cause. Opening never fails.
    pub fn new(path: String, file: FileRead) -> (config: AppConfig)
        ensures
            config.path() == path@,
            config@ == opened_settings(file),
            config.spec_notice() == match load_failure(file) {
                Some(failure) => Some(load_notice(failure)),
                None => None,
            },
    {
        let (settings, failure) = match file {
            FileRead::Missing => (Settings::default(), None),
            FileRead::Failed(cause) => (
                Settings::default(),
                Some(Error::ConfigIo { fault: ConfigFault::Io, cause }),
            ),
            FileRead::Text(text) => match Settings::from_document(text.as_str()) {
                Ok(settings) => (settings, None),
                Err(e) => (Settings::default(), Some(e)),
            },
        };
        let notice = match failure {
            Some(e) => {
                let mut line = String::new();
                line.append("Failed to load config file.\n\t");
                line.append(e.message().as_str());
                line.append("\n\tUsing default settings.");
                assert(line@ =~= load_notice(e@));
                Some(line)
            },
            None => None,
        };
        AppConfig { settings_file: path, settings, notice }
    }

    /// The line to log about the loading, if there is one.
    pub fn notice(&self) -> (line: Option<&str>)
        ensures
            crate::text::option_str_text(line) == self.spec_notice(),
    {
        match &self.notice {
            Some(line) => Some(line.as_str()),
            None => None,
        }
    }

    /// The settings, for reading.
    pub fn get(&self) -> (settings: &Settings)
        ensures
            *settings == self.held(),
            settings@ == self@,
    {
        &self.settings
    }

    /// The request that writes the settings as they are held.
    pub fn save_request(&self) -> (r: Result<SaveRequest, Error>)
        ensures
            match r {
                Ok(request) => rendered(self@) matches Ok(text) && request@ == save_of(
                    self.path(),
                    text,
                ),
                Err(e) => rendered(self@) matches Err(message) && e@ == (ErrorView::ConfigIo {
                    fault: ConfigFault::Format,
                    cause: message,
                }),
            },
    {
        match self.settings.to_document() {
            Ok(document) => Ok(
                SaveRequest {
                    path: self.settings_file.clone(),
                    temp_path: temp_path(self.settings_file.as_str()),
                    parent: parent_of(self.settings_file.as_str()),
                    document,
                },
            ),
            Err(e) => Err(e),
        }
    }

    /// Changes the settings and asks for the file to be written. The change
    /// is handed the settings and hands back the settings to hold from now
    /// on, together with a result of its own. The settings handed back are
    /// held whatever follows: where they cannot be written as a document,
    /// the failure is returned and the result of the change is lost, but the
    /// settings stay changed.
    pub fn with_mut<R, F: FnOnce(Settings) -> (Settings, R)>(&mut self, f: F) -> (r: Result<
        (R, SaveRequest),
        Error,
    >)
        requires
            f.requires((old(self).held(),)),
        ensures
            final(self).path() == old(self).path(),
            final(self).spec_notice() == old(self).spec_notice(),
            match r {
                Ok((result, request)) => {
                    &&& f.ensures((old(self).held(),), (final(self).held(), result))
                    &&& rendered(final(self)@) matches Ok(text)
                    &&& request@ == save_of(final(self).path(), text)
                },
                Err(e) => {
                    &&& exists|result: R|
                        f.ensures((old(self).held(),), (final(self).held(), result))
                    &&& rendered(final(self)@) matches Err(message)
                    &&& e@ == (ErrorView::ConfigIo { fault: ConfigFault::Format, cause: message })
                },
            },
    {
        let mut taken = Settings::empty();
        std::mem::swap(&mut taken, &mut self.settings);
        let (next, result) = f(taken);
        self.settings = next;
        match self.save_request() {
            Ok(request) => Ok((result, request)),
            Err(e) => Err(e),
        }
    }
}

/// Where the writing of the settings file stands. Each step but the last
/// two names the one thing to do next to the file system.
#[derive(Debug, PartialEq, Eq)]
pub enum SaveStep {
    /// Make sure that the directory and those above it exist.
    CreateDirectory(SaveRequest),
    /// Create the temporary file, write the document, flush it and force it
    /// to stable storage.
    WriteTemporary(SaveRequest),
    /// Rename the temporary file over the settings file.
    Replace(SaveRequest),
    /// Delete the temporary file, after the renaming failed with `cause`.
    Cleanup { request: SaveRequest, cause: String },
    /// The settings file holds the document.
    Saved,
    /// The settings file is as it was.
    Failed(Error),
}

/// Where the writing of the settings file stands, as plain values.
pub enum SaveStepView {
    CreateDirectory(SaveView),
    WriteTemporary(SaveView),
    Replace(SaveView),
    Cleanup { request: SaveView, cause: Seq<char> },
    Saved,
    Failed(ErrorView),
}

impl View for SaveStep {
    type V = SaveStepView;

    open spec fn view(&self) -> SaveStepView {
        match self {
            SaveStep::CreateDirectory(request) => SaveStepView::CreateDirectory(request@),
            SaveStep::WriteTemporary(request) => SaveStepView::WriteTemporary(request@),
            SaveStep::Replace(request) => SaveStepView::Replace(request@),
            SaveStep::Cleanup { request, cause } => SaveStepView::Cleanup {
                request: request@,
                cause: cause@,
            },
            SaveStep::Saved => SaveStepView::Saved,
            SaveStep::Failed(e) => SaveStepView::Failed(e@),
        }
    }
}

/// A failure of the file system while the file was written.
pub open spec fn io_failure(cause: Seq<char>) -> SaveStepView {
    SaveStepView::Failed(ErrorView::ConfigIo { fault: ConfigFault::Io, cause })
}

/// The first step: the directory where the path has one, otherwise the
/// temporary file at once.
pub open spec fn first_save_step(request: SaveView) -> SaveStepView {
    match request.parent {
        Some(_) => SaveStepView::CreateDirectory(request),
        None => SaveStepView::WriteTemporary(request),
    }
}

/// The step that follows on the outcome of a step: `None` for success, the
/// cause for a failure. The temporary file is renamed only once it is
/// written in full; a failed renaming is followed by the deletion of the
/// temporary file and then reported with its own cause, however the
/// deletion went.
pub open spec fn next_save_step(step: SaveStepView, failure: Option<Seq<char>>) -> SaveStepView {
    match step {
        SaveStepView::CreateDirectory(request) => match failure {
            None => SaveStepView::WriteTemporary(request),
            Some(cause) => io_failure(cause),
        },
        SaveStepView::WriteTemporary(request) => match failure {
            None => SaveStepView::Replace(request),
            Some(cause) => io_failure(cause),
        },
        SaveStepView::Replace(request) => match failure {
            None => SaveStepView::Saved,
            Some(cause) => SaveStepView::Cleanup { request, cause },
        },
        SaveStepView::Cleanup { request, cause } => io_failure(cause),
        SaveStepView::Saved => SaveStepView::Saved,
        SaveStepView::Failed(e) => SaveStepView::Failed(e),
    }
}

/// The outcome of a step as plain values.
pub open spec fn failure_of(outcome: Result<(), String>) -> Option<Seq<char>> {
    match outcome {
        Ok(_) => None,
        Err(cause) => Some(cause@),
    }
}

fn fail_io(cause: String) -> (step: SaveStep)
    ensures
        step@ == io_failure(cause@),
{
    SaveStep::Failed(Error::ConfigIo { fault: ConfigFault::Io, cause })
}

impl SaveRequest {
    /// Starts the writing of the file.
    pub fn begin(self) -> (step: SaveStep)
        ensures
            step@ == first_save_step(self@),
    {
        if self.parent.is_some() {
            SaveStep::CreateDirectory(self)
        } else {
            SaveStep::WriteTemporary(self)
        }
    }
}

impl SaveStep {
    /// Goes on after the step was tried, with the cause where it failed.
    pub fn next(self, outcome: Result<(), String>) -> (step: SaveStep)
        ensures
            step@ == next_save_step(self@, failure_of(outcome)),
    {
        match self {
            SaveStep::CreateDirectory(request) => match outcome {
                Ok(_) => SaveStep::WriteTemporary(request),
                Err(cause) => fail_io(cause),
            },
            SaveStep::WriteTemporary(request) => match outcome {
                Ok(_) => SaveStep::Replace(request),
                Err(cause) => fail_io(cause),
            },
            SaveStep::Replace(request) => match outcome {
                Ok(_) => SaveStep::Saved,
                Err(cause) => SaveStep::Cleanup { request, cause },
            },
            SaveStep::Cleanup { request, cause } => fail_io(cause),
            SaveStep::Saved => SaveStep::Saved,
            SaveStep::Failed(e) => SaveStep::Failed(e),
        }
    }
}

/// The settings file is replaced only by a temporary file that was written
/// in full: the step before `Saved` is the renaming, and the step before the
/// renaming is the writing, each with success.
pub proof fn lemma_saved_only_after_replace(step: SaveStepView, failure: Option<Seq<char>>)
    requires
        !(step is Saved),
        next_save_step(step, failure) is Saved,
    ensures
        step is Replace,
        failure is None,
{
}

/// A failed renaming is reported with its own cause, whether or not the
/// temporary file could be deleted.
pub proof fn lemma_rename_failure_is_reported(
    request: SaveView,
    cause: Seq<char>,
    cleanup: Option<Seq<char>>,
)
    ensures
        next_save_step(next_save_step(SaveStepView::Replace(request), Some(cause)), cleanup)
            == io_failure(cause),
{
}

/// A change that leaves the settings as they are asks for the same text to
/// be written to the same file as the last writing did: the file stays as
/// it is, byte for byte.
pub proof fn lemma_unchanged_settings_same_request(
    path: Seq<char>,
    before: SettingsView,
    after: SettingsView,
)
    requires
        before == after,
    ensures
        rendered(after) == rendered(before),
        rendered(before) matches Ok(text) ==> save_of(path, rendered(after)->Ok_0) == save_of(
            path,
            text,
        ),
{
}

/// The store that serves the whole program.
#[derive(Debug, PartialEq, Eq)]
pub struct AppState {
    pub config: AppConfig,
}

impl AppState {
    /// Opens the store on what reading the settings file at `config_file`
    /// gave.
    pub fn new(config_file: String, file: FileRead) -> (state: AppState)
        ensures
            state.config.path() == config_file@,
            state.config@ == opened_settings(file),
    {
        AppState { config: AppConfig::new(config_file, file) }
    }
}

} // verus!
