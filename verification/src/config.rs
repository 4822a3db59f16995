//! The application's configuration: its fields, their defaults, and how a
//! configuration is read from the text of a TOML file.

use figment::providers::{Format, Serialized, Toml};
use figment::Figment;
use vstd::prelude::*;

verus! {

/// Where the application keeps its data.
#[derive(Debug, Clone, PartialEq, Eq)]
pub struct Storage {
    /// Directory that holds the database, when the user overrides the
    /// platform's data directory.
    pub path: Option<String>,
}

/// Every setting of the application. Each field has a default, so that a
/// missing or partial file still gives a usable configuration.
#[derive(Debug, Clone, PartialEq, Eq)]
pub struct AppConfig {
    pub storage: Storage,
}

/// The mathematical value of a [`Storage`].
pub struct StorageView {
    pub path: Option<Seq<char>>,
}

/// The mathematical value of an [`AppConfig`].
pub struct AppConfigView {
    pub storage: StorageView,
}

/// The text of an optional string, where there is one.
pub open spec fn text_of(s: Option<String>) -> Option<Seq<char>> {
    match s {
        Some(t) => Some(t@),
        None => None,
    }
}

impl View for Storage {
    type V = StorageView;

    open spec fn view(&self) -> StorageView {
        StorageView { path: text_of(self.path) }
    }
}

impl View for AppConfig {
    type V = AppConfigView;

    open spec fn view(&self) -> AppConfigView {
        AppConfigView { storage: self.storage@ }
    }
}

/// The storage settings of an installation that overrides nothing.
pub open spec fn default_storage() -> StorageView {
    StorageView { path: None }
}

/// The configuration of an installation that overrides nothing.
pub open spec fn default_config() -> AppConfigView {
    AppConfigView { storage: default_storage() }
}

impl Default for Storage {
    fn default() -> (r: Self)
        ensures
            r@ == default_storage(),
    {
        Storage { path: None }
    }
}

impl Default for AppConfig {
    fn default() -> (r: Self)
        ensures
            r@ == default_config(),
    {
        AppConfig { storage: Storage::default() }
    }
}

/// The configuration whose only override is the storage path `path`.
pub open spec fn config_with_path(path: Option<Seq<char>>) -> AppConfigView {
    AppConfigView { storage: StorageView { path } }
}

/// Why a configuration text gave no configuration.
#[derive(Debug, Clone, Copy, PartialEq, Eq, Structural)]
pub enum ConfigError {
    /// The file is there, but its text could not be read.
    Unreadable,
    /// The text is no TOML, or a setting in it has the wrong type.
    Invalid,
}

/// `figment::Error`, carried from the extraction to the point where it is
/// turned into a [`ConfigError`].
#[verifier::external_type_specification]
#[verifier::external_body]
pub struct ExFigmentError(figment::Error);

/// What figment extracts from the TOML document `text` at the key path
/// `key`, as an optional string whose absence in the document counts as
/// `None`: `Some` of it, or `None` where figment reports an error (the text
/// is no TOML, or the value at `key` is no string).
pub uninterp spec fn toml_text_at(text: Seq<char>, key: Seq<char>) -> Option<Option<Seq<char>>>;

/// What an extraction's result says, without the error's detail.
pub open spec fn extracted_text(r: Result<Option<String>, figment::Error>) -> Option<Option<Seq<char>>> {
    match r {
        Ok(value) => Some(text_of(value)),
        Err(_) => None,
    }
}

/// `Figment::extract_inner` for an `Option<String>` at `key`, on a figment
/// made of the TOML string `text` joined with `None` as the default at
/// `key`. The result depends on the two strings alone; [`toml_text_at`]
/// names it.
#[verifier::external_body]
fn extract_optional_text(text: &str, key: &str) -> (r: Result<Option<String>, figment::Error>)
    ensures
        extracted_text(r) == toml_text_at(text@, key@),
{
    Figment::new()
        .join(Toml::string(text))
        .join(Serialized::default(key, None::<String>))
        .extract_inner::<Option<String>>(key)
}

/// The configuration that an extracted storage path gives, or the error
/// that the failed extraction stands for.
pub fn config_from_extracted(extracted: Option<Option<String>>) -> (r: Result<AppConfig, ConfigError>)
    ensures
        match extracted {
            Some(path) => r matches Ok(c) && c@ == config_with_path(text_of(path)),
            None => r == Err::<AppConfig, ConfigError>(ConfigError::Invalid),
        },
{
    match extracted {
        Some(path) => Ok(AppConfig { storage: Storage { path } }),
        None => Err(ConfigError::Invalid),
    }
}

/// What the TOML document `text` configures: its settings, with the default
/// for each one that it leaves out, or `Invalid` where figment rejects it.
pub open spec fn parsed_config(text: Seq<char>) -> Result<AppConfigView, ConfigError> {
    match toml_text_at(text, "storage.path"@) {
        Some(path) => Ok(config_with_path(path)),
        None => Err(ConfigError::Invalid),
    }
}

/// What a result of reading a configuration says: the view of the
/// configuration, or the error.
pub open spec fn outcome_view(r: Result<AppConfig, ConfigError>) -> Result<AppConfigView, ConfigError> {
    match r {
        Ok(c) => Ok(c@),
        Err(e) => Err(e),
    }
}

/// Reads a configuration from the text of a TOML file. Settings that the
/// text leaves out take their defaults.
pub fn load_existing_config(text: &str) -> (r: Result<AppConfig, ConfigError>)
    ensures
        outcome_view(r) == parsed_config(text@),
{
    let extracted = match extract_optional_text(text, "storage.path") {
        Ok(path) => Some(path),
        Err(_) => None,
    };
    config_from_extracted(extracted)
}

/// Why loading fell back to the defaults.
#[derive(Debug, Clone, Copy, PartialEq, Eq, Structural)]
pub enum LoadFailure {
    /// The file was there and gave no configuration.
    Existing(ConfigError),
    /// The file was missing, was created, and then gave no configuration.
    NewlyCreated(ConfigError),
    /// The file was missing and could not be created.
    NotCreated,
}

/// Where loading stands: what the caller is to do on disk next, or the
/// configuration that loading ended with.
#[derive(Debug, Clone, PartialEq, Eq)]
pub enum LoadStep {
    /// Find out whether the configuration file exists.
    Probe,
    /// Create the file's directory and write the example configuration.
    Create,
    /// Read the file's text; `fresh` says that this run created the file.
    Read { fresh: bool },
    /// Loading is over. `failure` says why `config` holds the defaults, or
    /// is `None` where the file was read.
    Done { config: AppConfig, failure: Option<LoadFailure> },
}

/// The mathematical value of a [`LoadStep`].
pub enum LoadStepView {
    Probe,
    Create,
    Read { fresh: bool },
    Done { config: AppConfigView, failure: Option<LoadFailure> },
}

impl View for LoadStep {
    type V = LoadStepView;

    open spec fn view(&self) -> LoadStepView {
        match *self {
            LoadStep::Probe => LoadStepView::Probe,
            LoadStep::Create => LoadStepView::Create,
            LoadStep::Read { fresh } => LoadStepView::Read { fresh },
            LoadStep::Done { config, failure } => LoadStepView::Done { config: config@, failure },
        }
    }
}

/// What the disk answered to a [`LoadStep`].
#[derive(Debug, Clone, PartialEq, Eq)]
pub enum DiskReply {
    /// To `Probe`: whether the file exists.
    Exists(bool),
    /// To `Create`: whether the file was written.
    Created(bool),
    /// To `Read`: the file's text, or `None` where it could not be read.
    Contents(Option<String>),
}

/// The mathematical value of a [`DiskReply`].
pub enum DiskReplyView {
    Exists(bool),
    Created(bool),
    Contents(Option<Seq<char>>),
}

impl View for DiskReply {
    type V = DiskReplyView;

    open spec fn view(&self) -> DiskReplyView {
        match *self {
            DiskReply::Exists(found) => DiskReplyView::Exists(found),
            DiskReply::Created(written) => DiskReplyView::Created(written),
            DiskReply::Contents(text) => DiskReplyView::Contents(text_of(text)),
        }
    }
}

/// What a read of the configuration file gives: `Unreadable` without a
/// text, else what the text configures.
pub open spec fn read_outcome(contents: Option<Seq<char>>) -> Result<AppConfigView, ConfigError> {
    match contents {
        Some(text) => parsed_config(text),
        None => Err(ConfigError::Unreadable),
    }
}

/// The failure that an error stands for, by whether this run created the
/// file.
pub open spec fn failure_of(error: ConfigError, fresh: bool) -> LoadFailure {
    if fresh {
        LoadFailure::NewlyCreated(error)
    } else {
        LoadFailure::Existing(error)
    }
}

/// The end of loading after a read: the configuration read, or the defaults
/// and the reason.
pub open spec fn settled(outcome: Result<AppConfigView, ConfigError>, fresh: bool) -> LoadStepView {
    match outcome {
        Ok(config) => LoadStepView::Done { config, failure: None },
        Err(error) => LoadStepView::Done {
            config: default_config(),
            failure: Some(failure_of(error, fresh)),
        },
    }
}

/// The step that follows `step` once the disk has answered `reply`. An
/// answer to another question than the one `step` asks changes nothing.
pub open spec fn next_step(step: LoadStepView, reply: DiskReplyView) -> LoadStepView {
    match (step, reply) {
        (LoadStepView::Probe, DiskReplyView::Exists(true)) => LoadStepView::Read { fresh: false },
        (LoadStepView::Probe, DiskReplyView::Exists(false)) => LoadStepView::Create,
        (LoadStepView::Create, DiskReplyView::Created(true)) => LoadStepView::Read { fresh: true },
        (LoadStepView::Create, DiskReplyView::Created(false)) => LoadStepView::Done {
            config: default_config(),
            failure: Some(LoadFailure::NotCreated),
        },
        (LoadStepView::Read { fresh }, DiskReplyView::Contents(contents)) => settled(
            read_outcome(contents),
            fresh,
        ),
        _ => step,
    }
}

/// Ends loading with what a read gave: the configuration, or the defaults
/// together with the reason.
pub fn settle(outcome: Result<AppConfig, ConfigError>, fresh: bool) -> (r: LoadStep)
    ensures
        r@ == settled(outcome_view(outcome), fresh),
{
    match outcome {
        Ok(config) => LoadStep::Done { config, failure: None },
        Err(error) => {
            let failure = if fresh {
                LoadFailure::NewlyCreated(error)
            } else {
                LoadFailure::Existing(error)
            };
            LoadStep::Done { config: AppConfig::default(), failure: Some(failure) }
        },
    }
}

/// One step of loading the configuration: takes where loading stands and
/// what the disk answered, and says what to do next. Loading starts at
/// `LoadStep::Probe` and is over at `LoadStep::Done`, which always holds a
/// usable configuration: an existing file is read; a missing one is created
/// from the example and then read; whatever goes wrong gives the defaults.
pub fn load_config(step: LoadStep, reply: DiskReply) -> (r: LoadStep)
    ensures
        r@ == next_step(step@, reply@),
{
    match (step, reply) {
        (LoadStep::Probe, DiskReply::Exists(found)) => {
            if found {
                LoadStep::Read { fresh: false }
            } else {
                LoadStep::Create
            }
        },
        (LoadStep::Create, DiskReply::Created(written)) => {
            if written {
                LoadStep::Read { fresh: true }
            } else {
                LoadStep::Done {
                    config: AppConfig::default(),
                    failure: Some(LoadFailure::NotCreated),
                }
            }
        },
        (LoadStep::Read { fresh }, DiskReply::Contents(contents)) => {
            let outcome = match contents {
                Some(text) => load_existing_config(text.as_str()),
                None => Err(ConfigError::Unreadable),
            };
            settle(outcome, fresh)
        },
        (step, _) => step,
    }
}

/// The text that a missing configuration file is created with: every
/// setting commented out, so that it configures the defaults.
pub const EXAMPLE_CONFIG: &'static str =
    "# Settings of Noted. Remove the '#' in front of a line to override its default.\n\n[storage]\n# Directory that holds the database, in place of the platform's data directory.\n# path = \"/path/to/directory\"\n";

/// Where loading ends on a disk that answers `found` to the probe,
/// `written` to the creation and `contents` to the read, each where it is
/// asked.
pub open spec fn load_run(found: bool, written: bool, contents: Option<Seq<char>>) -> LoadStepView {
    let probed = next_step(LoadStepView::Probe, DiskReplyView::Exists(found));
    let ready = if probed is Create {
        next_step(probed, DiskReplyView::Created(written))
    } else {
        probed
    };
    if ready is Read {
        next_step(ready, DiskReplyView::Contents(contents))
    } else {
        ready
    }
}

/// Loading always ends, after at most three answers, with a configuration.
pub proof fn lemma_load_ends(found: bool, written: bool, contents: Option<Seq<char>>)
    ensures
        load_run(found, written, contents) is Done,
{
}

/// A text that configures something is loaded as it is, from a file that
/// was there and from one that this run created.
pub proof fn lemma_load_reads_valid_file(found: bool, contents: Seq<char>)
    ensures
        parsed_config(contents) matches Ok(config) ==> load_run(found, true, Some(contents)) == (
        LoadStepView::Done { config, failure: None }),
{
}

/// Whatever goes wrong gives the defaults and the reason: a text that is
/// rejected, a file that cannot be read, a file that cannot be created.
pub proof fn lemma_load_falls_back_to_defaults(
    found: bool,
    written: bool,
    contents: Option<Seq<char>>,
)
    ensures
        (!found && !written) || read_outcome(contents) is Err ==> {
            &&& load_run(found, written, contents)->config == default_config()
            &&& load_run(found, written, contents)->failure is Some
        },
        !found && !written ==> load_run(found, written, contents)->failure == Some(
            LoadFailure::NotCreated,
        ),
        contents is None && (found || written) ==> load_run(found, written, contents)->failure
            == Some(failure_of(ConfigError::Unreadable, !found)),
{
}

} // verus!
