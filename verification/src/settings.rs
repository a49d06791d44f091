//! Which tools run, and where the configuration lies.

use vstd::prelude::*;
use vstd::utf8::encode_utf8;

use crate::paths::{under, FilePath};

verus! {

/// A central configuration that cannot be used.
#[derive(Debug, Clone)]
pub enum SettingsError {
    /// The file could not be read.
    Read { path: FilePath, source: String },
    /// The file has not the right form.
    Parse { path: FilePath, source: String },
}

/// Whether a tool runs.
#[derive(Debug, Clone, Copy, PartialEq, Eq, Structural)]
pub struct ToolToggle {
    pub enabled: bool,
}

impl Default for ToolToggle {
    fn default() -> (toggle: Self)
        ensures
            !toggle.enabled,
    {
        ToolToggle { enabled: false }
    }
}

/// Which tools run.
#[derive(Debug, Clone, Copy, PartialEq, Eq, Structural)]
pub struct Settings {
    pub teleprompter: ToolToggle,
}

impl Default for Settings {
    fn default() -> (settings: Self)
        ensures
            !settings.teleprompter.enabled,
    {
        Settings { teleprompter: ToolToggle::default() }
    }
}

/// What reading the central file came to.
#[derive(Debug)]
pub enum SettingsFile {
    /// There is none.
    Missing,
    /// It is there and could not be read.
    Unreadable(String),
    /// It has not the right form.
    Malformed(String),
    /// What it holds.
    Parsed(Settings),
}

/// Where the central file lies.
pub fn settings_path(config_dir: &FilePath) -> (path: FilePath)
    ensures
        path@ == under(config_dir@, encode_utf8("kitetsu.toml"@)),
{
    config_dir.join("kitetsu.toml")
}

impl Settings {
    /// The settings of a directory, `file` being what reading its central file came to. A
    /// missing file enables nothing; any other trouble is an error.
    pub fn load(config_dir: &FilePath, file: SettingsFile) -> (settings: Result<
        Settings,
        SettingsError,
    >)
        ensures
            match file {
                SettingsFile::Missing => settings matches Ok(s) && !s.teleprompter.enabled,
                SettingsFile::Unreadable(why) => settings matches Err(
                    SettingsError::Read { path, source },
                ) && path@ == under(config_dir@, encode_utf8("kitetsu.toml"@)) && source@ == why@,
                SettingsFile::Malformed(why) => settings matches Err(
                    SettingsError::Parse { path, source },
                ) && path@ == under(config_dir@, encode_utf8("kitetsu.toml"@)) && source@ == why@,
                SettingsFile::Parsed(parsed) => settings == Ok::<Settings, SettingsError>(parsed),
            },
    {
        match file {
            SettingsFile::Missing => Ok(Settings::default()),
            SettingsFile::Unreadable(source) => Err(
                SettingsError::Read { path: settings_path(config_dir), source },
            ),
            SettingsFile::Malformed(source) => Err(
                SettingsError::Parse { path: settings_path(config_dir), source },
            ),
            SettingsFile::Parsed(parsed) => Ok(parsed),
        }
    }
}

/// The configuration directory: the one that is asked for, else the one of the
/// environment, else one below the current directory.
pub open spec fn config_place(
    asked: Option<FilePath>,
    config_home: Option<FilePath>,
    home: Option<FilePath>,
) -> Seq<u8> {
    if asked is Some {
        asked->0@
    } else if config_home is Some && config_home->0@.len() > 0 {
        under(config_home->0@, encode_utf8("kitetsu"@))
    } else if home is Some && home->0@.len() > 0 {
        under(under(home->0@, encode_utf8(".config"@)), encode_utf8("kitetsu"@))
    } else {
        under(encode_utf8(".config"@), encode_utf8("kitetsu"@))
    }
}

/// The configuration directory. A variable that is set to nothing counts as not set.
pub fn config_dir(
    asked: Option<FilePath>,
    config_home: Option<FilePath>,
    home: Option<FilePath>,
) -> (dir: FilePath)
    ensures
        dir@ == config_place(asked, config_home, home),
{
    match asked {
        Some(dir) => return dir,
        None => {},
    }
    match config_home {
        Some(dir) => {
            if dir.bytes.len() > 0 {
                return dir.join("kitetsu");
            }
        },
        None => {},
    }
    match home {
        Some(dir) => {
            if dir.bytes.len() > 0 {
                return dir.join(".config").join("kitetsu");
            }
        },
        None => {},
    }
    FilePath::of(".config").join("kitetsu")
}

/// The directory that is asked for is taken, whatever else is set. Else it is `kitetsu` below
/// the configuration home, or below `.config` in the home directory, or below `.config` here;
/// a variable that is empty is passed over.
pub proof fn law_first_place_is_taken(
    asked: Option<FilePath>,
    config_home: Option<FilePath>,
    home: Option<FilePath>,
)
    ensures
        ({
            let place = config_place(asked, config_home, home);
            let configured = config_home is Some && config_home->0@.len() > 0;
            let at_home = home is Some && home->0@.len() > 0;
            &&& asked is Some ==> place == asked->0@
            &&& asked is None && configured ==> place == under(
                config_home->0@,
                encode_utf8("kitetsu"@),
            )
            &&& asked is None && !configured && at_home ==> place == under(
                under(home->0@, encode_utf8(".config"@)),
                encode_utf8("kitetsu"@),
            )
            &&& asked is None && !configured && !at_home ==> place == under(
                encode_utf8(".config"@),
                encode_utf8("kitetsu"@),
            )
        }),
{
}

} // verus!
