//! Which application and which branch to watch.

use vstd::prelude::*;
use crate::decimal::{i64_text, int_text, parse_i32, parse_i32_spec};

verus! {

/// The settings as plain values.
pub struct SettingsView {
    pub app_id: i32,
    pub branch: Seq<char>,
}

/// Why no settings could be made of the arguments.
#[derive(Clone, Copy, Debug, PartialEq, Eq, Structural)]
pub enum ConfigError {
    /// The application id is not a decimal integer of 32 bits.
    InvalidAppId,
}

/// The application that is watched where none is named.
pub const DEFAULT_APP_ID: i32 = 420;

/// The branch that is watched where none is named.
pub open spec fn default_branch_text() -> Seq<char> {
    "public"@
}

/// The address that answers for an application, before its id.
pub open spec fn info_url_prefix() -> Seq<char> {
    "https://api.steamcmd.net/v1/info/"@
}

/// The texts of a list of strings.
pub open spec fn texts(args: Seq<String>) -> Seq<Seq<char>> {
    args.map_values(|s: String| s@)
}

/// The settings that a program's arguments ask for. The program's own
/// name comes first, then the application id, then the branch; each of
/// the two has its default where the list ends before it.
pub open spec fn settings_from_args(args: Seq<Seq<char>>) -> Result<SettingsView, ConfigError> {
    let branch = if args.len() > 2 {
        args[2]
    } else {
        default_branch_text()
    };
    if args.len() > 1 {
        match parse_i32_spec(args[1]) {
            Some(app_id) => Ok(SettingsView { app_id, branch }),
            None => Err(ConfigError::InvalidAppId),
        }
    } else {
        Ok(SettingsView { app_id: DEFAULT_APP_ID, branch })
    }
}

/// The application and branch to watch. Read-only while the watch runs.
#[derive(Debug, PartialEq, Eq)]
pub struct Settings {
    app_id: i32,
    branch: String,
}

impl View for Settings {
    type V = SettingsView;

    closed spec fn view(&self) -> SettingsView {
        SettingsView { app_id: self.app_id, branch: self.branch@ }
    }
}

impl Clone for Settings {
    fn clone(&self) -> (copy: Self)
        ensures
            copy == *self,
    {
        Settings { app_id: self.app_id, branch: self.branch.clone() }
    }
}

impl Settings {
    pub fn new(app_id: i32, branch: String) -> (s: Self)
        ensures
            s@ == (SettingsView { app_id, branch: branch@ }),
    {
        Settings { app_id, branch }
    }

    pub fn app_id(&self) -> (app_id: i32)
        ensures
            app_id == self@.app_id,
    {
        self.app_id
    }

    pub fn branch(&self) -> (branch: &str)
        ensures
            branch@ == self@.branch,
    {
        self.branch.as_str()
    }

    /// Settings from the arguments of a program, the program's name
    /// first. An application id that is no integer is an error; nothing
    /// else is.
    pub fn from_args(args: &Vec<String>) -> (r: Result<Settings, ConfigError>)
        ensures
            match r {
                Ok(s) => settings_from_args(texts(args@)) == Ok::<SettingsView, ConfigError>(s@),
                Err(e) => settings_from_args(texts(args@)) == Err::<SettingsView, ConfigError>(e),
            },
    {
        let parsed = if args.len() > 1 {
            parse_i32(args[1].as_str())
        } else {
            Some(DEFAULT_APP_ID)
        };
        let branch = if args.len() > 2 {
            args[2].clone()
        } else {
            "public".to_owned()
        };
        match parsed {
            Some(app_id) => Ok(Settings { app_id, branch }),
            None => Err(ConfigError::InvalidAppId),
        }
    }

    /// The address to ask for what is published of the application.
    pub fn info_url(&self) -> (url: String)
        ensures
            url@ == info_url_prefix() + int_text(self@.app_id as int),
    {
        let mut url = "https://api.steamcmd.net/v1/info/".to_owned();
        url.append(i64_text(self.app_id as i64).as_str());
        url
    }
}

} // verus!
