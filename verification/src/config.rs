//! The filesystem roots as seen by the client-side commands. The layout is
//! the same derivation from the user's home directory that
//! [`crate::server_config::ServerConfig`] uses on the receiving side, with
//! the working trees under `app_root`.

use vstd::prelude::*;

use crate::server_config::home_dir_string;

verus! {

/// The filesystem layout of the control plane, client side.
#[derive(Debug, Clone, PartialEq, Eq)]
pub struct Config {
    /// The control-plane root, `$HOME/.ruku`.
    pub ruku_root: String,
    /// The control-plane executable re-invoked by generated hooks.
    pub ruku_binary: String,
    /// Per-application persistent data volumes, `$HOME/.ruku/data`.
    pub data_root: String,
    /// The bare Git repositories that pushes land in, `$HOME/.ruku/repos`.
    pub git_root: String,
    /// The checked-out working trees, `$HOME/apps`.
    pub app_root: String,
}

impl Config {
    /// All five roots are the deterministic derivation from one home
    /// directory, with the fixed executable path.
    pub open spec fn derived_from(&self, home: Seq<char>) -> bool {
        &&& self.ruku_root@ == home + "/.ruku"@
        &&& self.ruku_binary@ == "/usr/bin/ruku"@
        &&& self.data_root@ == home + "/.ruku/data"@
        &&& self.git_root@ == home + "/.ruku/repos"@
        &&& self.app_root@ == home + "/apps"@
    }

    /// A well-formed configuration is one derived from some home directory.
    pub open spec fn wf(&self) -> bool {
        exists|home: Seq<char>| self.derived_from(home)
    }

    /// Derive the configuration from a home directory.
    pub fn from_home(home: &str) -> (r: Config)
        ensures
            r.derived_from(home@),
            r.wf(),
    {
        let r = Config {
            ruku_root: home.to_owned().concat("/.ruku"),
            ruku_binary: "/usr/bin/ruku".to_owned(),
            data_root: home.to_owned().concat("/.ruku/data"),
            git_root: home.to_owned().concat("/.ruku/repos"),
            app_root: home.to_owned().concat("/apps"),
        };
        proof {
            assert(r.derived_from(home@));
        }
        r
    }

    /// Load the configuration from the invoking user's home directory. The
    /// home directory comes from the process environment; when it cannot be
    /// determined, no configuration is produced.
    pub fn new() -> (r: Result<Config, String>)
        ensures
            r matches Ok(c) ==> c.wf(),
            r matches Err(e) ==> e@ == "Could not determine home directory"@,
    {
        match home_dir_string() {
            Some(home) => Ok(Config::from_home(home.as_str())),
            None => Err("Could not determine home directory".to_owned()),
        }
    }
}

} // verus!
