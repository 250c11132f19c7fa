//! ting's configuration: the sounds for exit codes and named cues, and the
//! decisions taken while locating the config file.
use vstd::prelude::*;

use crate::cue_map::CueMap;
use crate::paths::{
    config_file_in, current_home_dir, expand_tilde_spec, expand_tilde_with_home,
    get_default_config_path,
};

verus! {

/// Sound files to play for a successful and for a failed exit code.
#[derive(Debug)]
pub struct ExitCodeSounds {
    pub success: Option<String>,
    pub error: Option<String>,
}

/// A parsed config file. A missing `[cues]` section is an empty map.
#[derive(Debug)]
pub struct Config {
    pub exit_codes: Option<ExitCodeSounds>,
    pub cues: CueMap,
}

/// What looking at a path on disk found.
#[derive(Debug)]
pub enum PathProbe {
    /// A regular file.
    File,
    /// Something that exists but is not a regular file (a directory, say).
    NotAFile,
    /// Nothing.
    Missing,
    /// The lookup itself failed, with this reason.
    Unavailable(String),
}

/// Why no config could be obtained.
#[derive(Debug)]
pub enum ConfigError {
    /// The user named a config file that does not exist.
    NoFileAtPath { path: String },
    /// The user named something that is not a file.
    NotAFile { path: String },
    /// The default config path holds something that is not a file.
    DefaultNotAFile { path: String },
    /// Whether the config file exists could not be determined.
    ExistenceUnknown { cause: String },
    /// The default config path could not be determined.
    DefaultPathUnknown { cause: String },
    /// The config file could not be read.
    ReadFailed { path: String, cause: String },
    /// The config file is not valid.
    ParseFailed { path: String, cause: String },
}

/// `'` + `s` + `'`.
pub open spec fn quoted(s: Seq<char>) -> Seq<char> {
    "'"@ + s + "'"@
}

impl ConfigError {
    /// The error's own line, without its cause.
    pub open spec fn headline_spec(&self) -> Seq<char> {
        match self {
            ConfigError::NoFileAtPath { path } => "no file exists at path "@ + quoted(path@),
            ConfigError::NotAFile { path } => "provided path is not a file: "@ + quoted(path@),
            ConfigError::DefaultNotAFile { path } => "default config path is not a file: "@
                + quoted(path@),
            ConfigError::ExistenceUnknown { .. } => "couldn't determine if config file exists"@,
            ConfigError::DefaultPathUnknown { .. } => "couldn't get ting's default config path"@,
            ConfigError::ReadFailed { path, .. } => "couldn't read config file at "@ + quoted(path@),
            ConfigError::ParseFailed { path, .. } => "couldn't parse config file at "@ + quoted(
                path@,
            ),
        }
    }

    /// The underlying cause the error reports, if it has one.
    pub open spec fn cause_spec(&self) -> Option<Seq<char>> {
        match self {
            ConfigError::ExistenceUnknown { cause } => Some(cause@),
            ConfigError::DefaultPathUnknown { cause } => Some(cause@),
            ConfigError::ReadFailed { cause, .. } => Some(cause@),
            ConfigError::ParseFailed { cause, .. } => Some(cause@),
            _ => None,
        }
    }

    /// The text of the error: its own line, then `: ` and its cause where it has one.
    pub open spec fn message_spec(&self) -> Seq<char> {
        match self.cause_spec() {
            Some(c) => self.headline_spec() + ": "@ + c,
            None => self.headline_spec(),
        }
    }

    /// The error's own line, without its cause.
    pub fn headline(&self) -> (res: String)
        ensures
            res@ == self.headline_spec(),
    {
        match self {
            ConfigError::NoFileAtPath { path } => {
                let mut s = String::from_str("no file exists at path ");
                append_quoted(&mut s, path.as_str());
                s
            },
            ConfigError::NotAFile { path } => {
                let mut s = String::from_str("provided path is not a file: ");
                append_quoted(&mut s, path.as_str());
                s
            },
            ConfigError::DefaultNotAFile { path } => {
                let mut s = String::from_str("default config path is not a file: ");
                append_quoted(&mut s, path.as_str());
                s
            },
            ConfigError::ExistenceUnknown { .. } => String::from_str(
                "couldn't determine if config file exists",
            ),
            ConfigError::DefaultPathUnknown { .. } => String::from_str(
                "couldn't get ting's default config path",
            ),
            ConfigError::ReadFailed { path, .. } => {
                let mut s = String::from_str("couldn't read config file at ");
                append_quoted(&mut s, path.as_str());
                s
            },
            ConfigError::ParseFailed { path, .. } => {
                let mut s = String::from_str("couldn't parse config file at ");
                append_quoted(&mut s, path.as_str());
                s
            },
        }
    }

    /// The underlying cause the error reports, if it has one.
    pub fn cause(&self) -> (res: Option<String>)
        ensures
            match (res, self.cause_spec()) {
                (Some(r), Some(c)) => r@ == c,
                (None, None) => true,
                _ => false,
            },
    {
        match self {
            ConfigError::ExistenceUnknown { cause } => Some(cause.clone()),
            ConfigError::DefaultPathUnknown { cause } => Some(cause.clone()),
            ConfigError::ReadFailed { cause, .. } => Some(cause.clone()),
            ConfigError::ParseFailed { cause, .. } => Some(cause.clone()),
            _ => None,
        }
    }

    /// The text of the error: its own line, then `: ` and its cause where it has one.
    pub fn message(&self) -> (res: String)
        ensures
            res@ == self.message_spec(),
    {
        let mut s = self.headline();
        match self.cause() {
            Some(c) => {
                s.append(": ");
                s.append(c.as_str());
            },
            None => {},
        }
        s
    }
}

/// Appends `'` + `text` + `'` to `s`.
pub fn append_quoted(s: &mut String, text: &str)
    ensures
        final(s)@ == old(s)@ + quoted(text@),
{
    s.append("'");
    s.append(text);
    s.append("'");
    proof {
        assert(final(s)@ =~= old(s)@ + quoted(text@));
    }
}

/// Where the config file is looked for.
#[derive(Debug)]
pub struct ConfigLocation {
    /// The path, `~` expanded.
    pub path: String,
    /// Whether the user named the path, rather than it being the default one.
    pub user_provided: bool,
}

/// `located` is `path` with `~` expanded against some home directory, or none.
pub open spec fn located_with_some_home(located: Seq<char>, path: Seq<char>) -> bool {
    exists|h: Option<Seq<char>>| located == expand_tilde_spec(path, h)
}

/// The config location for a path the user named, `~` expanded against the home
/// directory `home`.
pub fn locate_user_config(path: &str, home: Option<&str>) -> (res: ConfigLocation)
    ensures
        res.user_provided,
        res.path@ == expand_tilde_spec(
            path@,
            match home {
                Some(h) => Some(h@),
                None => None,
            },
        ),
{
    ConfigLocation { path: expand_tilde_with_home(path, home), user_provided: true }
}

/// The path the user named, `~` expanded against the current user's home directory,
/// or else ting's default config path.
pub fn locate_config(user_provided_path: Option<String>) -> (res: Result<ConfigLocation, ConfigError>)
    ensures
        match user_provided_path {
            Some(p) => match res {
                Ok(loc) => loc.user_provided && located_with_some_home(loc.path@, p@),
                Err(_) => false,
            },
            None => match res {
                Ok(loc) => !loc.user_provided && exists|d: Seq<char>| loc.path@ == config_file_in(d),
                Err(e) => e is DefaultPathUnknown,
            },
        },
{
    match user_provided_path {
        Some(p) => {
            let home = current_home_dir();
            let loc = match &home {
                Some(h) => locate_user_config(p.as_str(), Some(h.as_str())),
                None => locate_user_config(p.as_str(), None),
            };
            assert(located_with_some_home(loc.path@, p@));
            Ok(loc)
        },
        None => match get_default_config_path() {
            Ok(path) => Ok(ConfigLocation { path, user_provided: false }),
            Err(cause) => Err(ConfigError::DefaultPathUnknown { cause }),
        },
    }
}

/// What to do once the config location has been looked at.
#[derive(Debug)]
pub enum ConfigStep {
    /// Read and parse the file at this path.
    Read(String),
    /// There is no config: the default location holds nothing.
    NoConfig,
    /// Give up with this error.
    Fail(ConfigError),
}

/// The decision taken on what was found at the config location. A missing file
/// is an error when the user named it, and means "no config" at the default
/// location; anything but a regular file is an error.
pub fn config_step(location: ConfigLocation, probe: PathProbe) -> (res: ConfigStep)
    ensures
        match probe {
            PathProbe::File => res matches ConfigStep::Read(p) && p@ == location.path@,
            PathProbe::Missing => if location.user_provided {
                res matches ConfigStep::Fail(ConfigError::NoFileAtPath { path }) && path@
                    == location.path@
            } else {
                res is NoConfig
            },
            PathProbe::NotAFile => if location.user_provided {
                res matches ConfigStep::Fail(ConfigError::NotAFile { path }) && path@
                    == location.path@
            } else {
                res matches ConfigStep::Fail(ConfigError::DefaultNotAFile { path }) && path@
                    == location.path@
            },
            PathProbe::Unavailable(cause) => res matches ConfigStep::Fail(
                ConfigError::ExistenceUnknown { cause: c },
            ) && c@ == cause@,
        },
{
    match probe {
        PathProbe::File => ConfigStep::Read(location.path),
        PathProbe::Missing => if location.user_provided {
            ConfigStep::Fail(ConfigError::NoFileAtPath { path: location.path })
        } else {
            ConfigStep::NoConfig
        },
        PathProbe::NotAFile => if location.user_provided {
            ConfigStep::Fail(ConfigError::NotAFile { path: location.path })
        } else {
            ConfigStep::Fail(ConfigError::DefaultNotAFile { path: location.path })
        },
        PathProbe::Unavailable(cause) => ConfigStep::Fail(ConfigError::ExistenceUnknown { cause }),
    }
}

} // verus!
