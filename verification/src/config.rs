//! The configuration file: where it lies, and what loading and saving
//! send and report for each thing that the file system may answer.

use crate::text::option_text;
use vstd::prelude::*;

verus! {

/// Where the configuration file lies.
#[derive(Debug, PartialEq, Eq)]
pub enum ConfigFilePath {
    /// In the user's configuration directory, in the directory of the
    /// application and under the given file name.
    Config {
        /// The name of the application's directory.
        app_name: &'static str,
        /// The name of the file in that directory.
        file_name: &'static str,
    },
    /// At the given path.
    Path(String),
}

/// The model of a `ConfigFilePath`.
pub enum ConfigPathModel {
    /// In the user's configuration directory.
    Config {
        /// The name of the application's directory.
        app_name: Seq<char>,
        /// The name of the file in that directory.
        file_name: Seq<char>,
    },
    /// At the given path.
    Path(Seq<char>),
}

impl View for ConfigFilePath {
    type V = ConfigPathModel;

    open spec fn view(&self) -> ConfigPathModel {
        match self {
            ConfigFilePath::Config { app_name, file_name } => ConfigPathModel::Config {
                app_name: app_name@,
                file_name: file_name@,
            },
            ConfigFilePath::Path(path) => ConfigPathModel::Path(path@),
        }
    }
}

impl Clone for ConfigFilePath {
    fn clone(&self) -> (copy: Self)
        ensures
            copy@ == self@,
    {
        match self {
            ConfigFilePath::Config { app_name, file_name } => ConfigFilePath::Config {
                app_name: *app_name,
                file_name: *file_name,
            },
            ConfigFilePath::Path(path) => ConfigFilePath::Path(path.clone()),
        }
    }
}

/// The path that `std::path::Path::join` gives for a base path and a
/// component, as characters.
pub uninterp spec fn joined_path(base: Seq<char>, component: Seq<char>) -> Seq<char>;

/// Joins a component to a base path, by `std::path::Path::join`: the
/// result is the path that `join` gives for the two, which is a function
/// of them alone on a given platform.
#[verifier::external_body]
fn join_path(base: &str, component: &str) -> (joined: String)
    ensures
        joined@ == joined_path(base@, component@),
{
    std::path::Path::new(base).join(component).to_string_lossy().into_owned()
}

/// The user's configuration directory, by `dirs::config_dir`, or `None`
/// where the environment names none. Nothing is claimed of the directory:
/// it depends on the environment. A name that is not Unicode is given with
/// replacement characters.
#[verifier::external_body]
fn config_dir() -> (dir: Option<String>) {
    match dirs::config_dir() {
        Some(dir) => Some(dir.to_string_lossy().into_owned()),
        None => None,
    }
}

impl ConfigFilePath {
    /// The path of the file where the user's configuration directory is
    /// `config_dir`: an explicit path as it is; else the file name joined
    /// to the application name joined to the directory, and `None` where
    /// there is no directory.
    pub open spec fn resolved_in(self, config_dir: Option<Seq<char>>) -> Option<Seq<char>> {
        match self@ {
            ConfigPathModel::Path(path) => Some(path),
            ConfigPathModel::Config { app_name, file_name } => match config_dir {
                Some(dir) => Some(joined_path(joined_path(dir, app_name), file_name)),
                None => None,
            },
        }
    }

    /// The path of the file where the user's configuration directory is
    /// `config_dir`.
    pub fn resolve(&self, config_dir: Option<String>) -> (path: Option<String>)
        ensures
            match path {
                Some(p) => self.resolved_in(option_text(config_dir)) == Some(p@),
                None => self is Config && config_dir is None,
            },
    {
        match self {
            ConfigFilePath::Config { app_name, file_name } => {
                match config_dir {
                    Some(dir) => {
                        let app_dir = join_path(dir.as_str(), app_name);
                        Some(join_path(app_dir.as_str(), file_name))
                    },
                    None => None,
                }
            },
            ConfigFilePath::Path(path) => Some(path.clone()),
        }
    }

    /// The path of the file, with the user's configuration directory as
    /// the environment gives it at the time of the call. An explicit path
    /// always resolves, to itself; the other form resolves to a path in
    /// some directory, or not at all where the environment names none.
    pub fn path_buf(&self) -> (path: Option<String>)
        ensures
            match path {
                Some(p) => exists|dir: Option<Seq<char>>| self.resolved_in(dir) == Some(p@),
                None => self is Config,
            },
    {
        match self {
            ConfigFilePath::Config { .. } => {
                let dir = config_dir();
                self.resolve(dir)
            },
            ConfigFilePath::Path(_) => self.resolve(None),
        }
    }
}

/// The request to load the bindings from the configuration file.
#[derive(Clone, Copy, Debug, PartialEq, Eq, Hash, Structural)]
pub struct LoadSchminputConfig;

/// The request to save the bindings to the configuration file.
#[derive(Clone, Copy, Debug, PartialEq, Eq, Hash, Structural)]
pub struct SaveSchminputConfig;

/// The notice that an attempt to write the configuration file is over,
/// whether or not the file was written.
#[derive(Clone, Copy, Debug, PartialEq, Eq, Hash, Structural)]
pub struct FinnishedSavingSchminputConfig;

impl Default for LoadSchminputConfig {
    fn default() -> (event: Self) {
        LoadSchminputConfig
    }
}

impl Default for SaveSchminputConfig {
    fn default() -> (event: Self) {
        SaveSchminputConfig
    }
}

impl Default for FinnishedSavingSchminputConfig {
    fn default() -> (event: Self) {
        FinnishedSavingSchminputConfig
    }
}

/// The request to read bindings out of the text of a configuration file.
#[derive(Debug, PartialEq, Eq)]
pub struct DeserializeSchminputConfig {
    /// The text of the file.
    pub config: String,
}

/// The request to write the bindings into a text. The parts of the base
/// text that are not bindings are kept.
#[derive(Debug, PartialEq, Eq)]
pub struct SerializeSchminputConfig {
    /// The text that the file held so far, or an empty text.
    pub base_config: String,
}

/// The notice that the bindings were written into a text.
#[derive(Debug, PartialEq, Eq)]
pub struct FinnishedSchminputConfigSerialization {
    /// The text to write to the configuration file.
    pub output: String,
}

/// What reading the configuration file gave.
#[derive(Debug, PartialEq, Eq)]
pub enum ConfigFileState {
    /// The location of the file could not be resolved.
    NoConfigPath,
    /// There is no file at the location.
    NotAFile,
    /// There is a file, and it could not be read as text.
    Unreadable,
    /// The text of the file.
    Text(String),
}

/// The model of a `ConfigFileState`.
pub enum ConfigFileModel {
    /// The location of the file could not be resolved.
    NoConfigPath,
    /// There is no file at the location.
    NotAFile,
    /// There is a file, and it could not be read as text.
    Unreadable,
    /// The text of the file.
    Text(Seq<char>),
}

impl View for ConfigFileState {
    type V = ConfigFileModel;

    open spec fn view(&self) -> ConfigFileModel {
        match self {
            ConfigFileState::NoConfigPath => ConfigFileModel::NoConfigPath,
            ConfigFileState::NotAFile => ConfigFileModel::NotAFile,
            ConfigFileState::Unreadable => ConfigFileModel::Unreadable,
            ConfigFileState::Text(text) => ConfigFileModel::Text(text@),
        }
    }
}

/// What went wrong in loading or saving. Each is reported and none stops
/// the process.
#[derive(Clone, Copy, Debug, PartialEq, Eq, Hash, Structural)]
pub enum ConfigDiagnostic {
    /// The location of the file could not be resolved.
    NoConfigPath,
    /// There is no file at the location.
    NotAFile,
    /// The file could not be read as text.
    Unreadable,
    /// The directory of the file could not be created.
    CreateDirFailed,
    /// The file could not be written.
    WriteFailed,
}

/// What a load sends to the deserializer: the text of the file, and
/// nothing unless the file was read.
pub open spec fn load_text_of(file: ConfigFileModel) -> Option<Seq<char>> {
    match file {
        ConfigFileModel::Text(text) => Some(text),
        _ => None,
    }
}

/// What is reported of reading the file: nothing where it was read.
pub open spec fn read_diagnostic_of(file: ConfigFileModel) -> Option<ConfigDiagnostic> {
    match file {
        ConfigFileModel::NoConfigPath => Some(ConfigDiagnostic::NoConfigPath),
        ConfigFileModel::NotAFile => Some(ConfigDiagnostic::NotAFile),
        ConfigFileModel::Unreadable => Some(ConfigDiagnostic::Unreadable),
        ConfigFileModel::Text(_) => None,
    }
}

/// The base text that a save sends to the serializer: the text of the
/// file, an empty text where there is no file or it could not be read,
/// and nothing where the location of the file could not be resolved.
pub open spec fn save_base_of(file: ConfigFileModel) -> Option<Seq<char>> {
    match file {
        ConfigFileModel::NoConfigPath => None,
        ConfigFileModel::NotAFile => Some(Seq::<char>::empty()),
        ConfigFileModel::Unreadable => Some(Seq::<char>::empty()),
        ConfigFileModel::Text(text) => Some(text),
    }
}

/// Handles a request to load. Where the file was read, its text goes to
/// the deserializer; else the load is given up, with the reason, and the
/// bindings stay as they are.
pub fn load_config(file: ConfigFileState) -> (outcome: Result<
    DeserializeSchminputConfig,
    ConfigDiagnostic,
>)
    ensures
        match outcome {
            Ok(request) => load_text_of(file@) == Some(request.config@),
            Err(reason) => load_text_of(file@) is None && read_diagnostic_of(file@) == Some(
                reason,
            ),
        },
{
    match file {
        ConfigFileState::NoConfigPath => Err(ConfigDiagnostic::NoConfigPath),
        ConfigFileState::NotAFile => Err(ConfigDiagnostic::NotAFile),
        ConfigFileState::Unreadable => Err(ConfigDiagnostic::Unreadable),
        ConfigFileState::Text(config) => Ok(DeserializeSchminputConfig { config }),
    }
}

/// What a request to save leads to: the request to the serializer, if
/// any, and what is reported.
#[derive(Debug, PartialEq, Eq)]
pub struct SaveRequestOutcome {
    /// The request that goes to the serializer.
    pub request: Option<SerializeSchminputConfig>,
    /// What is reported of reading the file.
    pub diagnostic: Option<ConfigDiagnostic>,
}

/// Handles a request to save. The save is given up only where the
/// location of the file could not be resolved. A file that is missing or
/// unreadable is reported, and the save goes on with an empty base text.
pub fn request_save_config(file: ConfigFileState) -> (outcome: SaveRequestOutcome)
    ensures
        match outcome.request {
            Some(request) => save_base_of(file@) == Some(request.base_config@),
            None => save_base_of(file@) is None,
        },
        outcome.diagnostic == read_diagnostic_of(file@),
{
    match file {
        ConfigFileState::NoConfigPath => SaveRequestOutcome {
            request: None,
            diagnostic: Some(ConfigDiagnostic::NoConfigPath),
        },
        ConfigFileState::NotAFile => SaveRequestOutcome {
            request: Some(SerializeSchminputConfig { base_config: String::new() }),
            diagnostic: Some(ConfigDiagnostic::NotAFile),
        },
        ConfigFileState::Unreadable => SaveRequestOutcome {
            request: Some(SerializeSchminputConfig { base_config: String::new() }),
            diagnostic: Some(ConfigDiagnostic::Unreadable),
        },
        ConfigFileState::Text(base_config) => SaveRequestOutcome {
            request: Some(SerializeSchminputConfig { base_config }),
            diagnostic: None,
        },
    }
}

/// What is reported of the writes: a failure for each write that did not
/// succeed, in the order of the writes.
pub open spec fn write_failures(written: Seq<bool>) -> Seq<ConfigDiagnostic>
    decreases written.len(),
{
    if written.len() == 0 {
        Seq::empty()
    } else if written.last() {
        write_failures(written.drop_last())
    } else {
        write_failures(written.drop_last()).push(ConfigDiagnostic::WriteFailed)
    }
}

/// What is reported of an attempt to save: that the location could not
/// be resolved, and nothing else; or that the directory could not be
/// created, if so, and then each write that failed.
pub open spec fn save_diagnostics_of(resolved: bool, directory_created: bool, written: Seq<bool>)
    -> Seq<ConfigDiagnostic> {
    if !resolved {
        seq![ConfigDiagnostic::NoConfigPath]
    } else if directory_created {
        write_failures(written)
    } else {
        seq![ConfigDiagnostic::CreateDirFailed] + write_failures(written)
    }
}

/// How many notices an attempt to save sends: none where the location of
/// the file could not be resolved, else one for each serialized text,
/// whether or not it was written.
pub open spec fn finished_count(resolved: bool, written: Seq<bool>) -> nat {
    if resolved {
        written.len()
    } else {
        0
    }
}

/// What an attempt to save sends and reports.
#[derive(Debug, PartialEq, Eq)]
pub struct SaveReport {
    /// The notices that the attempt is over, one for each serialized text.
    pub finished: Vec<FinnishedSavingSchminputConfig>,
    /// What went wrong, in the order in which it did.
    pub diagnostics: Vec<ConfigDiagnostic>,
}

/// Handles the serialized texts of a pass, after the writes were tried.
/// `resolved` says whether the location of the file could be resolved,
/// `directory_created` whether the directory of the file is there, and
/// `written` for each serialized text whether it was written. Where the
/// location is resolved, one notice is sent for each text even if nothing
/// could be written: the notice says that the attempt is over, not that it
/// succeeded.
pub fn save_config(resolved: bool, directory_created: bool, written: &Vec<bool>) -> (report:
    SaveReport)
    ensures
        report.finished@.len() == finished_count(resolved, written@),
        report.diagnostics@ == save_diagnostics_of(resolved, directory_created, written@),
{
    let mut finished: Vec<FinnishedSavingSchminputConfig> = Vec::new();
    let mut diagnostics: Vec<ConfigDiagnostic> = Vec::new();
    if !resolved {
        diagnostics.push(ConfigDiagnostic::NoConfigPath);
        return SaveReport { finished, diagnostics };
    }
    if !directory_created {
        diagnostics.push(ConfigDiagnostic::CreateDirFailed);
    }
    let ghost head = diagnostics@;
    let mut i: usize = 0;
    while i < written.len()
        invariant
            i <= written@.len(),
            finished@.len() == i,
            diagnostics@ == head + write_failures(written@.take(i as int)),
        decreases written.len() - i,
    {
        if !written[i] {
            diagnostics.push(ConfigDiagnostic::WriteFailed);
        }
        finished.push(FinnishedSavingSchminputConfig);
        proof {
            assert(written@.take(i + 1).drop_last() =~= written@.take(i as int));
        }
        i += 1;
    }
    proof {
        assert(written@.take(i as int) =~= written@);
    }
    SaveReport { finished, diagnostics }
}

/// A save of a configuration whose location is resolved goes through to
/// its notice whatever the file system does: a file that is missing or
/// unreadable still gives a request to the serializer, with an empty base
/// text, and one serialized text still gives exactly one notice, whether
/// or not the directory could be created and the file be written.
pub proof fn lemma_save_always_finishes(
    file: ConfigFileModel,
    directory_created: bool,
    written: bool,
)
    requires
        !(file is NoConfigPath),
    ensures
        save_base_of(file) is Some,
        file is NotAFile || file is Unreadable ==> save_base_of(file) == Some(
            Seq::<char>::empty(),
        ),
        finished_count(true, seq![written]) == 1,
{
}

/// An attempt to save sends as many notices as there are serialized
/// texts, whatever became of the writes.
pub proof fn lemma_one_notice_per_output(written: Seq<bool>, others: Seq<bool>)
    requires
        written.len() == others.len(),
    ensures
        finished_count(true, written) == finished_count(true, others),
        finished_count(true, written) == written.len(),
{
}

} // verus!
