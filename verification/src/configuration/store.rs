//! The configuration file: where it is by default, and the store that reads
//! and writes it.

use vstd::prelude::*;
use crate::configuration::error::ConfigError;
use crate::path::{home_dir, joined, join_path};

verus! {

/// The configuration file under a home directory: `<home>/.mcp-gateway.json`.
pub open spec fn config_file_under(home: Seq<char>) -> Seq<char> {
    joined(home, ".mcp-gateway.json"@)
}

/// Returns the configuration file under `home`.
pub fn config_path_in(home: &str) -> (p: String)
    ensures
        p@ == config_file_under(home@),
{
    join_path(home, ".mcp-gateway.json")
}

/// The configuration file under the user's home directory, when that is known.
pub fn default_config_path() -> (p: Option<String>)
    ensures
        p matches Some(path) ==> exists|home: Seq<char>| path@ == #[trigger] config_file_under(home),
{
    match home_dir() {
        Some(h) => Some(config_path_in(h.as_str())),
        None => None,
    }
}

/// The configuration kept in one JSON file; a missing file reads as the
/// empty configuration.
pub struct FileConfigStore {
    path: String,
}

impl FileConfigStore {
    pub closed spec fn spec_path(&self) -> Seq<char> {
        self.path@
    }

    /// A store for the file `path`.
    pub fn new(path: &str) -> (s: Self)
        ensures
            s.spec_path() == path@,
    {
        FileConfigStore { path: String::from_str(path) }
    }

    /// The file the store reads and writes.
    pub fn path(&self) -> (p: &str)
        ensures
            p@ == self.spec_path(),
    {
        self.path.as_str()
    }

    /// The failure of reading or writing the file, for the reason given.
    pub fn io_error(&self, reason: &str) -> (e: ConfigError)
        ensures
            e matches ConfigError::Io { path, message } && path@ == self.spec_path() && message@ == reason@,
    {
        ConfigError::Io { path: self.path.clone(), message: String::from_str(reason) }
    }

    /// The failure of a file whose content is no configuration.
    pub fn parse_error(&self, reason: &str) -> (e: ConfigError)
        ensures
            e matches ConfigError::Parse { path, message } && path@ == self.spec_path() && message@ == reason@,
    {
        ConfigError::Parse { path: self.path.clone(), message: String::from_str(reason) }
    }
}

} // verus!
