//! Failures of reading or writing the configuration file.

use vstd::prelude::*;

verus! {

/// A configuration file that could not be read or written, or whose content
/// is no configuration; `message` says why.
#[derive(Debug, Clone, PartialEq, Eq)]
pub enum ConfigError {
    Io { path: String, message: String },
    Parse { path: String, message: String },
}

/// The message shown for each failure.
pub open spec fn config_error_message(e: ConfigError) -> Seq<char> {
    match e {
        ConfigError::Io { path, message } => "failed to read config from "@ + path@ + ": "@ + message@,
        ConfigError::Parse { path, message } => "failed to parse config from "@ + path@ + ": "@ + message@,
    }
}

impl ConfigError {
    /// The message shown to the user.
    pub fn to_string(&self) -> (s: String)
        ensures
            s@ == config_error_message(*self),
    {
        let (lead, path, message) = match self {
            ConfigError::Io { path, message } => ("failed to read config from ", path, message),
            ConfigError::Parse { path, message } => ("failed to parse config from ", path, message),
        };
        let mut s = String::from_str(lead);
        s.append(path.as_str());
        s.append(": ");
        s.append(message.as_str());
        s
    }
}

} // verus!
