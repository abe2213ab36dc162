//! The installation sequence as a state machine.
//!
//! [`Installer::start`] gives the first action; after the caller performs an
//! action it reports the result as an [`Event`], and [`Installer::step`] gives
//! the next state and action, until an [`Action::Finish`].
use vstd::prelude::*;
use crate::paths::{joined, preferred_dir_of, join_path, preferred_dir};
use crate::registration::{has_substring, registered, path_with_dir};

verus! {

/// Environment variable naming the drive of the user's home directory.
pub const HOME_DRIVE_VAR: &'static str = "HOMEDRIVE";

/// Environment variable naming the user's home directory on its drive.
pub const HOME_PATH_VAR: &'static str = "HOMEPATH";

/// Environment variable naming the per-user application data directory.
pub const LOCAL_APP_DATA_VAR: &'static str = "LOCALAPPDATA";

/// Where the latest Windows build of the tool is published.
pub const DOWNLOAD_URL: &'static str =
    "https://github.com/metaplex-foundation/sugar/releases/latest/download/sugar-windows-latest.exe";

/// File name of the installed executable.
pub const BINARY_NAME: &'static str = "sugar.exe";

/// Folder created under the fallback base directory.
pub const FALLBACK_FOLDER: &'static str = "SugarCLI";

/// The platform the installer runs on.
#[derive(Clone, Copy, PartialEq, Eq, Structural, Debug)]
pub enum Platform {
    Windows,
    Unsupported,
}

/// What is installed, from where, and which fallback location is used when
/// the per-user tool directory does not exist.
#[derive(Debug)]
pub struct InstallConfig {
    pub download_url: String,
    pub binary_name: String,
    /// Environment variable holding the fallback base directory.
    pub fallback_variable: String,
    /// Folder under the fallback base directory that receives the executable.
    pub fallback_folder: String,
}

impl InstallConfig {
    pub fn new(download_url: &str, binary_name: &str, fallback_variable: &str, fallback_folder: &str) -> (r: InstallConfig)
        ensures
            r.download_url@ == download_url@,
            r.binary_name@ == binary_name@,
            r.fallback_variable@ == fallback_variable@,
            r.fallback_folder@ == fallback_folder@,
    {
        InstallConfig {
            download_url: String::from_str(download_url),
            binary_name: String::from_str(binary_name),
            fallback_variable: String::from_str(fallback_variable),
            fallback_folder: String::from_str(fallback_folder),
        }
    }

    /// The tool's own settings: the published Windows build, installed as
    /// `sugar.exe`, with `%LOCALAPPDATA%\SugarCLI` as the fallback.
    pub fn sugar() -> (r: InstallConfig)
        ensures
            r.download_url@ == DOWNLOAD_URL@,
            r.binary_name@ == BINARY_NAME@,
            r.fallback_variable@ == LOCAL_APP_DATA_VAR@,
            r.fallback_folder@ == FALLBACK_FOLDER@,
    {
        InstallConfig::new(DOWNLOAD_URL, BINARY_NAME, LOCAL_APP_DATA_VAR, FALLBACK_FOLDER)
    }
}

/// Why an installation stopped.
#[derive(Debug)]
pub enum InstallError {
    /// The named environment variable is not set.
    MissingEnvironmentVariable(String),
    /// The fallback directory at this path could not be created.
    DirectoryCreationError(String),
    /// The download failed or answered with an error status.
    DownloadError,
    /// The executable could not be written to this path.
    FileWriteError(String),
    /// Reading or writing the persisted `PATH` failed; the executable at this
    /// path was installed and is left in place.
    RegistrationReadWriteError(String),
    /// No installation procedure exists for this platform.
    UnsupportedPlatform,
}

/// The result of an action, reported back by the caller.
#[derive(Debug)]
pub enum Event {
    /// The three variables asked for, `None` where one is not set.
    EnvironmentRead { home_drive: Option<String>, home_path: Option<String>, fallback_base: Option<String> },
    /// Whether the directory asked about exists.
    DirectoryChecked(bool),
    /// Whether the directory was created.
    DirectoryCreated(bool),
    /// The whole response body, or `None` on any download failure.
    Downloaded(Option<Vec<u8>>),
    /// Whether the file was written in full.
    FileWritten(bool),
    /// The persisted `PATH` value, or `None` where it could not be read.
    RegistrationRead(Option<String>),
    /// Whether the new `PATH` value was persisted.
    RegistrationWritten(bool),
    /// Whether the environment-change broadcast was delivered; it does not
    /// change the outcome.
    Broadcasted(bool),
}

/// Outside work for the caller to do next.
#[derive(Debug)]
pub enum Action {
    /// Read the environment variables of these names.
    ReadEnvironment { home_drive: String, home_path: String, fallback_base: String },
    /// Tell whether a directory exists at this path.
    CheckDirectory { path: String },
    /// Create the directory at this path.
    CreateDirectory { path: String },
    /// Fetch the whole body at this URL with one GET.
    Download { url: String },
    /// Write these bytes to this path, creating or truncating the file.
    WriteFile { path: String, contents: Vec<u8> },
    /// Read the user's persisted `PATH` value.
    ReadRegistration,
    /// Persist this `PATH` value.
    WriteRegistration { value: String },
    /// Tell running processes that environment variables changed.
    Broadcast,
    /// Stop: `Ok` with the installation directory, or why it failed.
    Finish(Result<String, InstallError>),
}

/// Where an installation stands: which answer it waits for, and the
/// directories decided so far.
#[derive(Debug)]
pub enum Stage {
    ReadingEnvironment,
    CheckingPreferred { preferred: String, fallback: String },
    CheckingFallback { fallback: String },
    CreatingFallback { fallback: String },
    Downloading { dir: String },
    Writing { dir: String },
    ReadingRegistration { dir: String },
    WritingRegistration { dir: String },
    Broadcasting { dir: String },
    Done,
}

/// One installation run.
#[derive(Debug)]
pub struct Installer {
    pub config: InstallConfig,
    pub stage: Stage,
}

/// `a` stops the run because the variable `name` is missing.
pub open spec fn finishes_missing(a: Action, name: Seq<char>) -> bool {
    a matches Action::Finish(Err(InstallError::MissingEnvironmentVariable(n))) && n@ == name
}

/// `a` fetches the configured URL.
pub open spec fn downloads(a: Action, config: InstallConfig) -> bool {
    a matches Action::Download { url } && url@ == config.download_url@
}

/// `a` stops the run with a registration failure, naming the installed file.
pub open spec fn finishes_unregistered(a: Action, config: InstallConfig, dir: String) -> bool {
    a matches Action::Finish(Err(InstallError::RegistrationReadWriteError(p)))
        && p@ == joined(dir@, config.binary_name@)
}

impl Installer {
    /// Whether the run waits for an event of this kind.
    pub open spec fn expects(self, e: Event) -> bool {
        match self.stage {
            Stage::ReadingEnvironment => e is EnvironmentRead,
            Stage::CheckingPreferred { .. } => e is DirectoryChecked,
            Stage::CheckingFallback { .. } => e is DirectoryChecked,
            Stage::CreatingFallback { .. } => e is DirectoryCreated,
            Stage::Downloading { .. } => e is Downloaded,
            Stage::Writing { .. } => e is FileWritten,
            Stage::ReadingRegistration { .. } => e is RegistrationRead,
            Stage::WritingRegistration { .. } => e is RegistrationWritten,
            Stage::Broadcasting { .. } => e is Broadcasted,
            Stage::Done => false,
        }
    }

    /// The run after `e` in state `self` is `post`, and `a` is what it asks for next.
    pub open spec fn step_post(self, e: Event, post: Installer, a: Action) -> bool {
        let cfg = self.config;
        &&& post.config == cfg
        &&& match (self.stage, e) {
            (Stage::ReadingEnvironment, Event::EnvironmentRead { home_drive, home_path, fallback_base }) =>
                match (home_drive, home_path, fallback_base) {
                    (Some(d), Some(p), Some(b)) => {
                        &&& post.stage matches Stage::CheckingPreferred { preferred, fallback }
                        &&& preferred@ == preferred_dir_of(d@, p@)
                        &&& fallback@ == joined(b@, cfg.fallback_folder@)
                        &&& a matches Action::CheckDirectory { path } && path@ == preferred@
                    },
                    (None, _, _) => post.stage is Done && finishes_missing(a, HOME_DRIVE_VAR@),
                    (Some(_), None, _) => post.stage is Done && finishes_missing(a, HOME_PATH_VAR@),
                    (Some(_), Some(_), None) => post.stage is Done && finishes_missing(
                        a,
                        cfg.fallback_variable@,
                    ),
                },
            (Stage::CheckingPreferred { preferred, fallback }, Event::DirectoryChecked(exists)) =>
                if exists {
                    post.stage == (Stage::Downloading { dir: preferred }) && downloads(a, cfg)
                } else {
                    &&& post.stage == (Stage::CheckingFallback { fallback })
                    &&& a matches Action::CheckDirectory { path } && path@ == fallback@
                },
            (Stage::CheckingFallback { fallback }, Event::DirectoryChecked(exists)) =>
                if exists {
                    post.stage == (Stage::Downloading { dir: fallback }) && downloads(a, cfg)
                } else {
                    &&& post.stage == (Stage::CreatingFallback { fallback })
                    &&& a matches Action::CreateDirectory { path } && path@ == fallback@
                },
            (Stage::CreatingFallback { fallback }, Event::DirectoryCreated(created)) =>
                if created {
                    post.stage == (Stage::Downloading { dir: fallback }) && downloads(a, cfg)
                } else {
                    &&& post.stage is Done
                    &&& a matches Action::Finish(Err(InstallError::DirectoryCreationError(p)))
                    &&& p@ == fallback@
                },
            (Stage::Downloading { dir }, Event::Downloaded(payload)) => match payload {
                Some(bytes) => {
                    &&& post.stage == (Stage::Writing { dir })
                    &&& a matches Action::WriteFile { path, contents }
                    &&& path@ == joined(dir@, cfg.binary_name@)
                    &&& contents == bytes
                },
                None => post.stage is Done && a == Action::Finish(Err(InstallError::DownloadError)),
            },
            (Stage::Writing { dir }, Event::FileWritten(written)) =>
                if written {
                    post.stage == (Stage::ReadingRegistration { dir }) && a is ReadRegistration
                } else {
                    &&& post.stage is Done
                    &&& a matches Action::Finish(Err(InstallError::FileWriteError(p)))
                    &&& p@ == joined(dir@, cfg.binary_name@)
                },
            (Stage::ReadingRegistration { dir }, Event::RegistrationRead(current)) => match current {
                Some(v) =>
                    if has_substring(v@, dir@) {
                        post.stage == (Stage::Broadcasting { dir }) && a is Broadcast
                    } else {
                        &&& post.stage == (Stage::WritingRegistration { dir })
                        &&& a matches Action::WriteRegistration { value }
                        &&& value@ == registered(v@, dir@)
                    },
                None => post.stage is Done && finishes_unregistered(a, cfg, dir),
            },
            (Stage::WritingRegistration { dir }, Event::RegistrationWritten(written)) =>
                if written {
                    post.stage == (Stage::Broadcasting { dir }) && a is Broadcast
                } else {
                    post.stage is Done && finishes_unregistered(a, cfg, dir)
                },
            (Stage::Broadcasting { dir }, Event::Broadcasted(_)) => {
                &&& post.stage is Done
                &&& a matches Action::Finish(Ok(d)) && d@ == dir@
            },
            _ => false,
        }
    }

    /// Whether the run waits for this event.
    pub fn accepts(&self, event: &Event) -> (r: bool)
        ensures
            r == self.expects(*event),
    {
        match (&self.stage, event) {
            (Stage::ReadingEnvironment, Event::EnvironmentRead { .. }) => true,
            (Stage::CheckingPreferred { .. }, Event::DirectoryChecked(_)) => true,
            (Stage::CheckingFallback { .. }, Event::DirectoryChecked(_)) => true,
            (Stage::CreatingFallback { .. }, Event::DirectoryCreated(_)) => true,
            (Stage::Downloading { .. }, Event::Downloaded(_)) => true,
            (Stage::Writing { .. }, Event::FileWritten(_)) => true,
            (Stage::ReadingRegistration { .. }, Event::RegistrationRead(_)) => true,
            (Stage::WritingRegistration { .. }, Event::RegistrationWritten(_)) => true,
            (Stage::Broadcasting { .. }, Event::Broadcasted(_)) => true,
            _ => false,
        }
    }

    /// Begins a run. On a platform without an installation procedure the run
    /// is over at once, before any outside work; otherwise it first asks for
    /// the environment.
    pub fn start(platform: Platform, config: InstallConfig) -> (r: (Installer, Action))
        ensures
            r.0.config == config,
            platform is Unsupported ==> r.0.stage is Done && r.1 == Action::Finish(
                Err(InstallError::UnsupportedPlatform),
            ),
            platform is Windows ==> {
                &&& r.0.stage is ReadingEnvironment
                &&& r.1 matches Action::ReadEnvironment { home_drive, home_path, fallback_base }
                &&& home_drive@ == HOME_DRIVE_VAR@
                &&& home_path@ == HOME_PATH_VAR@
                &&& fallback_base@ == config.fallback_variable@
            },
    {
        match platform {
            Platform::Unsupported => (
                Installer { config, stage: Stage::Done },
                Action::Finish(Err(InstallError::UnsupportedPlatform)),
            ),
            Platform::Windows => {
                let action = Action::ReadEnvironment {
                    home_drive: String::from_str(HOME_DRIVE_VAR),
                    home_path: String::from_str(HOME_PATH_VAR),
                    fallback_base: config.fallback_variable.clone(),
                };
                (Installer { config, stage: Stage::ReadingEnvironment }, action)
            },
        }
    }

    /// Advances the run by the result of the last action.
    pub fn step(self, event: Event) -> (r: (Installer, Action))
        requires
            self.expects(event),
        ensures
            self.step_post(event, r.0, r.1),
    {
        let Installer { config, stage } = self;
        match (stage, event) {
            (Stage::ReadingEnvironment, Event::EnvironmentRead { home_drive, home_path, fallback_base }) =>
                match (home_drive, home_path, fallback_base) {
                    (Some(d), Some(p), Some(b)) => {
                        let preferred = preferred_dir(d.as_str(), p.as_str());
                        let fallback = join_path(b.as_str(), config.fallback_folder.as_str());
                        let action = Action::CheckDirectory { path: preferred.clone() };
                        (Installer { config, stage: Stage::CheckingPreferred { preferred, fallback } }, action)
                    },
                    (None, _, _) => {
                        let name = String::from_str(HOME_DRIVE_VAR);
                        let action = Action::Finish(Err(InstallError::MissingEnvironmentVariable(name)));
                        (Installer { config, stage: Stage::Done }, action)
                    },
                    (Some(_), None, _) => {
                        let name = String::from_str(HOME_PATH_VAR);
                        let action = Action::Finish(Err(InstallError::MissingEnvironmentVariable(name)));
                        (Installer { config, stage: Stage::Done }, action)
                    },
                    (Some(_), Some(_), None) => {
                        let name = config.fallback_variable.clone();
                        let action = Action::Finish(Err(InstallError::MissingEnvironmentVariable(name)));
                        (Installer { config, stage: Stage::Done }, action)
                    },
                },
            (Stage::CheckingPreferred { preferred, fallback }, Event::DirectoryChecked(exists)) =>
                if exists {
                    let action = Action::Download { url: config.download_url.clone() };
                    (Installer { config, stage: Stage::Downloading { dir: preferred } }, action)
                } else {
                    let action = Action::CheckDirectory { path: fallback.clone() };
                    (Installer { config, stage: Stage::CheckingFallback { fallback } }, action)
                },
            (Stage::CheckingFallback { fallback }, Event::DirectoryChecked(exists)) =>
                if exists {
                    let action = Action::Download { url: config.download_url.clone() };
                    (Installer { config, stage: Stage::Downloading { dir: fallback } }, action)
                } else {
                    let action = Action::CreateDirectory { path: fallback.clone() };
                    (Installer { config, stage: Stage::CreatingFallback { fallback } }, action)
                },
            (Stage::CreatingFallback { fallback }, Event::DirectoryCreated(created)) =>
                if created {
                    let action = Action::Download { url: config.download_url.clone() };
                    (Installer { config, stage: Stage::Downloading { dir: fallback } }, action)
                } else {
                    let action = Action::Finish(Err(InstallError::DirectoryCreationError(fallback)));
                    (Installer { config, stage: Stage::Done }, action)
                },
            (Stage::Downloading { dir }, Event::Downloaded(payload)) => match payload {
                Some(bytes) => {
                    let path = join_path(dir.as_str(), config.binary_name.as_str());
                    let action = Action::WriteFile { path, contents: bytes };
                    (Installer { config, stage: Stage::Writing { dir } }, action)
                },
                None => (
                    Installer { config, stage: Stage::Done },
                    Action::Finish(Err(InstallError::DownloadError)),
                ),
            },
            (Stage::Writing { dir }, Event::FileWritten(written)) =>
                if written {
                    (Installer { config, stage: Stage::ReadingRegistration { dir } }, Action::ReadRegistration)
                } else {
                    let path = join_path(dir.as_str(), config.binary_name.as_str());
                    let action = Action::Finish(Err(InstallError::FileWriteError(path)));
                    (Installer { config, stage: Stage::Done }, action)
                },
            (Stage::ReadingRegistration { dir }, Event::RegistrationRead(current)) => match current {
                Some(v) => match path_with_dir(v.as_str(), dir.as_str()) {
                    None => (Installer { config, stage: Stage::Broadcasting { dir } }, Action::Broadcast),
                    Some(value) => (
                        Installer { config, stage: Stage::WritingRegistration { dir } },
                        Action::WriteRegistration { value },
                    ),
                },
                None => {
                    let path = join_path(dir.as_str(), config.binary_name.as_str());
                    let action = Action::Finish(Err(InstallError::RegistrationReadWriteError(path)));
                    (Installer { config, stage: Stage::Done }, action)
                },
            },
            (Stage::WritingRegistration { dir }, Event::RegistrationWritten(written)) =>
                if written {
                    (Installer { config, stage: Stage::Broadcasting { dir } }, Action::Broadcast)
                } else {
                    let path = join_path(dir.as_str(), config.binary_name.as_str());
                    let action = Action::Finish(Err(InstallError::RegistrationReadWriteError(path)));
                    (Installer { config, stage: Stage::Done }, action)
                },
            (Stage::Broadcasting { dir }, Event::Broadcasted(_)) =>
                (Installer { config, stage: Stage::Done }, Action::Finish(Ok(dir))),
            _ => {
                proof {
                    assert(false);
                }
                (Installer { config, stage: Stage::Done }, Action::Broadcast)
            },
        }
    }
}

/// Process exit status for the outcome of a run: zero on success, one on
/// any failure.
pub fn exit_code(outcome: &Result<String, InstallError>) -> (r: i32)
    ensures
        outcome is Ok ==> r == 0,
        outcome is Err ==> r == 1,
{
    match outcome {
        Ok(_) => 0,
        Err(_) => 1,
    }
}

} // verus!
