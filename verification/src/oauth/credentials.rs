//! Where the credentials of a server are kept: a JSON file per server under
//! the user's home directory, unless the configuration names one.

use vstd::prelude::*;
use crate::oauth::error::OAuthError;
use crate::configuration::model::McpServerEntry;
use crate::path::{home_dir, joined, join_path};
use crate::strmap::StrMap;

verus! {

/// The credentials file of `server_name` under a home directory:
/// `<home>/.mcp-gateway/credentials/<server_name>.json`.
pub open spec fn credentials_file_under(home: Seq<char>, server_name: Seq<char>) -> Seq<char> {
    joined(joined(joined(home, ".mcp-gateway"@), "credentials"@), server_name + ".json"@)
}

/// Credentials kept in one file.
pub struct FileCredentialStore {
    path: String,
}

impl FileCredentialStore {
    pub closed spec fn spec_path(&self) -> Seq<char> {
        self.path@
    }

    /// A store that keeps its credentials in `path`.
    pub fn new(path: String) -> (s: Self)
        ensures
            s.spec_path() == path@,
    {
        FileCredentialStore { path }
    }

    /// The file that holds the credentials.
    pub fn path(&self) -> (p: &str)
        ensures
            p@ == self.spec_path(),
    {
        self.path.as_str()
    }

    /// Returns the credentials file of `server_name` under `home`.
    pub fn path_in(home: &str, server_name: &str) -> (p: String)
        ensures
            p@ == credentials_file_under(home@, server_name@),
    {
        let base = join_path(home, ".mcp-gateway");
        let dir = join_path(base.as_str(), "credentials");
        let mut name = String::from_str(server_name);
        name.append(".json");
        join_path(dir.as_str(), name.as_str())
    }

    /// The credentials file of `server_name` under the user's home
    /// directory, when that is known.
    pub fn default_path(server_name: &str) -> (p: Option<String>)
        ensures
            p matches Some(path) ==> exists|home: Seq<char>| path@ == #[trigger] credentials_file_under(home, server_name@),
    {
        match home_dir() {
            Some(h) => Some(Self::path_in(h.as_str(), server_name)),
            None => None,
        }
    }
}

/// The message for a server whose credentials have nowhere to go.
pub open spec fn no_credentials_path_message() -> Seq<char> {
    "cannot determine credentials path"@
}

/// The credentials file to use: the configured one, else the default one.
pub fn resolve_credential_path(explicit_path: Option<&str>, default_path: Option<String>) -> (r: Result<String, OAuthError>)
    ensures
        match (explicit_path, default_path) {
            (Some(e), _) => r matches Ok(p) && p@ == e@,
            (None, Some(d)) => r == Ok::<String, OAuthError>(d),
            (None, None) => r matches Err(OAuthError::CredentialStore { message })
                && message@ == no_credentials_path_message(),
        },
{
    match explicit_path {
        Some(e) => Ok(String::from_str(e)),
        None => match default_path {
            Some(d) => Ok(d),
            None => Err(OAuthError::CredentialStore { message: String::from_str("cannot determine credentials path") }),
        },
    }
}

/// The credentials file of server `name` configured as `e`, given the home
/// directory: none for a stdio server; for an HTTP server the file its OAuth
/// settings name, else the default one under the home directory.
pub open spec fn entry_credentials_file(name: Seq<char>, e: McpServerEntry, home: Option<Seq<char>>) -> Option<Seq<char>> {
    let default = match home {
        Some(h) => Some(credentials_file_under(h, name)),
        None => None,
    };
    match e {
        McpServerEntry::Stdio(_) => None,
        McpServerEntry::Http(c) => match c.auth {
            Some(a) => match a.credentials_file {
                Some(f) => Some(f@),
                None => default,
            },
            None => default,
        },
    }
}

/// The credentials files of the servers, in name order.
pub open spec fn credentials_files(ps: Seq<(Seq<char>, McpServerEntry)>, home: Option<Seq<char>>) -> Seq<Seq<char>>
    decreases ps.len(),
{
    if ps.len() == 0 {
        Seq::empty()
    } else {
        let rest = credentials_files(ps.drop_last(), home);
        match entry_credentials_file(ps.last().0, ps.last().1, home) {
            Some(f) => rest.push(f),
            None => rest,
        }
    }
}

/// What clearing credentials removes: the file of the named server (an
/// unknown server, or one without a credentials file, is refused), or with
/// no name, and only when forced, the files of all servers.
pub open spec fn clear_plan(servers: StrMap<McpServerEntry>, name: Option<Seq<char>>, force: bool, home: Option<Seq<char>>)
    -> Result<Seq<Seq<char>>, Seq<char>> {
    match name {
        Some(n) => if !servers@.contains_key(n) {
            Err("server '"@ + n + "' not found"@)
        } else {
            match entry_credentials_file(n, servers@[n], home) {
                Some(f) => Ok(seq![f]),
                None => Err("server '"@ + n + "' does not use OAuth"@),
            }
        },
        None => if !force {
            Err("clearing all credentials needs --force"@)
        } else {
            Ok(credentials_files(servers.pairs(), home))
        },
    }
}

/// An optional string slice as text.
pub open spec fn text_of(o: Option<&str>) -> Option<Seq<char>> {
    match o {
        Some(t) => Some(t@),
        None => None,
    }
}

/// A list of paths, or a message, as text.
pub open spec fn paths_view(r: Result<Vec<String>, String>) -> Result<Seq<Seq<char>>, Seq<char>> {
    match r {
        Ok(v) => Ok(v@.map_values(|p: String| p@)),
        Err(m) => Err(m@),
    }
}

fn entry_credentials_path(name: &str, e: &McpServerEntry, home: Option<&str>) -> (p: Option<String>)
    ensures
        match p {
            Some(f) => entry_credentials_file(name@, *e, match home { Some(h) => Some(h@), None => None }) == Some(f@),
            None => entry_credentials_file(name@, *e, match home { Some(h) => Some(h@), None => None }) is None,
        },
{
    let explicit = match e {
        McpServerEntry::Stdio(_) => return None,
        McpServerEntry::Http(c) => match &c.auth {
            Some(a) => match &a.credentials_file {
                Some(f) => Some(f.clone()),
                None => None,
            },
            None => None,
        },
    };
    match explicit {
        Some(f) => Some(f),
        None => match home {
            Some(h) => Some(FileCredentialStore::path_in(h, name)),
            None => None,
        },
    }
}

/// The credentials files that clearing removes, given the home directory.
pub fn credentials_to_clear_in(servers: &StrMap<McpServerEntry>, name: Option<&str>, force: bool, home: Option<&str>)
    -> (r: Result<Vec<String>, String>)
    ensures
        paths_view(r) == clear_plan(*servers, text_of(name), force, text_of(home)),
{
    let ghost hv = match home { Some(h) => Some(h@), None => None };
    match name {
        Some(n) => match servers.get(n) {
            None => {
                let mut m = String::from_str("server '");
                m.append(n);
                m.append("' not found");
                Err(m)
            },
            Some(e) => match entry_credentials_path(n, e, home) {
                Some(f) => {
                    let mut v: Vec<String> = Vec::new();
                    v.push(f);
                    assert(v@.map_values(|p: String| p@) =~= seq![v@[0]@]);
                    Ok(v)
                },
                None => {
                    let mut m = String::from_str("server '");
                    m.append(n);
                    m.append("' does not use OAuth");
                    Err(m)
                },
            },
        },
        None => {
            if !force {
                return Err(String::from_str("clearing all credentials needs --force"));
            }
            let mut v: Vec<String> = Vec::new();
            let count = servers.len();
            let mut i: usize = 0;
            while i < count
                invariant
                    i <= count,
                    count == servers.pairs().len(),
                    hv == (match home { Some(h) => Some(h@), None => None::<Seq<char>> }),
                    v@.map_values(|p: String| p@) == credentials_files(servers.pairs().take(i as int), hv),
                decreases count - i,
            {
                assert(servers.pairs().take(i + 1).drop_last() =~= servers.pairs().take(i as int));
                assert(servers.pairs().take(i + 1).last() == servers.pairs()[i as int]);
                match entry_credentials_path(servers.key_at(i).as_str(), servers.value_at(i), home) {
                    Some(f) => {
                        let ghost before = v@;
                        v.push(f);
                        assert(v@.map_values(|p: String| p@) =~= before.map_values(|p: String| p@).push(v@[before.len() as int]@));
                    },
                    None => {},
                }
                i = i + 1;
            }
            assert(servers.pairs().take(count as int) =~= servers.pairs());
            Ok(v)
        },
    }
}

/// The credentials files that clearing removes, under the user's home
/// directory as far as that is known.
pub fn credentials_to_clear(servers: &StrMap<McpServerEntry>, name: Option<&str>, force: bool) -> (r: Result<Vec<String>, String>)
    ensures
        exists|home: Option<Seq<char>>| #[trigger] clear_plan(*servers, text_of(name), force, home) == paths_view(r),
{
    let home = home_dir();
    let r = match &home {
        Some(h) => credentials_to_clear_in(servers, name, force, Some(h.as_str())),
        None => credentials_to_clear_in(servers, name, force, None),
    };
    proof {
        let hv = match home { Some(h) => Some(h@), None => None::<Seq<char>> };
        assert(clear_plan(*servers, text_of(name), force, hv) == paths_view(r));
    }
    r
}

} // verus!
