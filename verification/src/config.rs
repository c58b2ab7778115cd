//! The settings of the runner: what was read, and what a request can be
//! served with.

use vstd::prelude::*;
use crate::path::{bare_path, same_text, strip_leading_slash};

verus! {

/// The name of the variable that holds the secret path.
pub const SECRET_PATH_VAR: &'static str = "SECRET_PATH";

/// The name of the variable that holds the command.
pub const COMMAND_VAR: &'static str = "COMMAND";

/// The name of the variable that holds the address to listen on.
pub const LISTEN_ADDR_VAR: &'static str = "LISTEN_ADDR";

/// The host to listen on where no address is set, or none that can be read.
pub const DEFAULT_LISTEN_HOST: [u8; 4] = [127, 0, 0, 1];

/// The port to listen on where no address is set, or none that can be read.
pub const DEFAULT_LISTEN_PORT: u16 = 8080;

/// The two settings as they were read for one request. `None` stands for a
/// variable that is not set.
#[derive(Debug)]
pub struct Settings {
    /// The path that a request has to name.
    pub secret_path: Option<String>,
    /// The program that an authorized request runs.
    pub command: Option<String>,
}

/// What a `Settings` value holds, as text.
pub struct SettingsView {
    pub secret_path: Option<Seq<char>>,
    pub command: Option<Seq<char>>,
}

impl View for Settings {
    type V = SettingsView;

    open spec fn view(&self) -> SettingsView {
        SettingsView {
            secret_path: match self.secret_path {
                Some(text) => Some(text@),
                None => None,
            },
            command: match self.command {
                Some(text) => Some(text@),
                None => None,
            },
        }
    }
}

/// A setting counts only if it is set to something: an empty value is as
/// good as none.
pub open spec fn is_given(value: Option<Seq<char>>) -> bool {
    value matches Some(text) && text.len() > 0
}

/// Why no request can be served with the settings at hand.
#[derive(Clone, Copy, Debug, PartialEq, Eq, Structural)]
pub enum ConfigError {
    /// The secret path is not set, or is empty.
    MissingSecretPath,
    /// The secret path is there, and the command is not set or is empty.
    MissingCommand,
}

/// What a `Config` holds, as text.
pub struct ConfigView {
    pub secret_path: Seq<char>,
    pub command: Seq<char>,
}

impl ConfigView {
    /// Neither the secret path nor the command is empty.
    pub open spec fn wf(self) -> bool {
        self.secret_path.len() > 0 && self.command.len() > 0
    }

    /// The request path `path` names the secret: without its leading slash
    /// it is the secret path, character for character.
    pub open spec fn authorizes(self, path: Seq<char>) -> bool {
        bare_path(path) == self.secret_path
    }
}

/// The configuration that `settings` amount to. The secret path is looked at
/// first, so when both are missing the secret path is the one reported.
pub open spec fn checked(settings: SettingsView) -> Result<ConfigView, ConfigError> {
    if !is_given(settings.secret_path) {
        Err(ConfigError::MissingSecretPath)
    } else if !is_given(settings.command) {
        Err(ConfigError::MissingCommand)
    } else {
        Ok(
            ConfigView {
                secret_path: settings.secret_path->Some_0,
                command: settings.command->Some_0,
            },
        )
    }
}

/// Settings that a request can be served with: a secret path and a command,
/// neither of them empty.
#[derive(Debug)]
pub struct Config {
    secret_path: String,
    command: String,
}

impl View for Config {
    type V = ConfigView;

    closed spec fn view(&self) -> ConfigView {
        ConfigView { secret_path: self.secret_path@, command: self.command@ }
    }
}

impl Config {
    #[verifier::type_invariant]
    spec fn inv(&self) -> bool {
        self@.wf()
    }

    /// Checks the settings that were read. This succeeds exactly when both
    /// are given, and then keeps their text unchanged.
    pub fn from_settings(settings: Settings) -> (result: Result<Config, ConfigError>)
        ensures
            match result {
                Ok(config) => checked(settings@) == Ok::<ConfigView, ConfigError>(config@),
                Err(error) => checked(settings@) == Err::<ConfigView, ConfigError>(error),
            },
    {
        let secret_path = match settings.secret_path {
            Some(text) => text,
            None => { return Err(ConfigError::MissingSecretPath); },
        };
        if secret_path.as_str().is_empty() {
            return Err(ConfigError::MissingSecretPath);
        }
        let command = match settings.command {
            Some(text) => text,
            None => { return Err(ConfigError::MissingCommand); },
        };
        if command.as_str().is_empty() {
            return Err(ConfigError::MissingCommand);
        }
        Ok(Config { secret_path, command })
    }

    /// The secret path.
    pub fn secret_path(&self) -> (text: &str)
        ensures
            text@ == self@.secret_path,
            self@.wf(),
    {
        proof {
            use_type_invariant(self);
        }
        self.secret_path.as_str()
    }

    /// The command.
    pub fn command(&self) -> (text: &str)
        ensures
            text@ == self@.command,
            self@.wf(),
    {
        proof {
            use_type_invariant(self);
        }
        self.command.as_str()
    }

    /// Gives up the configuration for its command.
    pub fn into_command(self) -> (text: String)
        ensures
            text@ == self@.command,
            self@.wf(),
    {
        proof {
            use_type_invariant(&self);
        }
        self.command
    }

    /// Tells whether the request path `path` names the secret.
    pub fn authorizes(&self, path: &str) -> (yes: bool)
        ensures
            yes == self@.authorizes(path@),
    {
        same_text(strip_leading_slash(path), self.secret_path.as_str())
    }
}

} // verus!
