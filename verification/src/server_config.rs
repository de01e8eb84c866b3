//! Process-wide server configuration: the fixed filesystem roots of the
//! control plane. Read once at startup and immutable thereafter; every root
//! is derived deterministically from the invoking user's home directory.

use vstd::prelude::*;

verus! {

/// The filesystem layout of the control plane on this host.
#[derive(Debug, Clone, PartialEq, Eq)]
pub struct ServerConfig {
    /// The control-plane root, `$HOME/.ruku`.
    pub ruku_root: String,
    /// The control-plane executable re-invoked by generated hooks.
    pub ruku_binary: String,
    /// Per-application persistent data volumes, `$HOME/.ruku/data`.
    pub data_root: String,
    /// The bare Git repositories that pushes land in, `$HOME/.ruku/repos`.
    pub git_root: String,
    /// The checked-out working trees, `$HOME/apps`.
    pub apps_root: String,
}

/// Relies on `home::home_dir`: the invoking user's home directory as the
/// platform reports it, or `None` when it cannot be determined. The answer
/// depends on the process environment, so nothing is promised of it. A home
/// path that is not valid UTF-8 is treated as undetermined.
#[verifier::external_body]
pub(crate) fn home_dir_string() -> Option<String> {
    home::home_dir().and_then(|p| p.to_str().map(|s| s.to_string()))
}

impl ServerConfig {
    /// All five roots are the deterministic derivation from one home
    /// directory, with the fixed executable path.
    pub open spec fn derived_from(&self, home: Seq<char>) -> bool {
        &&& self.ruku_root@ == home + "/.ruku"@
        &&& self.ruku_binary@ == "/usr/bin/ruku"@
        &&& self.data_root@ == home + "/.ruku/data"@
        &&& self.git_root@ == home + "/.ruku/repos"@
        &&& self.apps_root@ == home + "/apps"@
    }

    /// A well-formed configuration is one derived from some home directory.
    pub open spec fn wf(&self) -> bool {
        exists|home: Seq<char>| self.derived_from(home)
    }

    /// Derive the configuration from a home directory.
    pub fn from_home(home: &str) -> (r: ServerConfig)
        ensures
            r.derived_from(home@),
            r.wf(),
    {
        let r = ServerConfig {
            ruku_root: home.to_owned().concat("/.ruku"),
            ruku_binary: "/usr/bin/ruku".to_owned(),
            data_root: home.to_owned().concat("/.ruku/data"),
            git_root: home.to_owned().concat("/.ruku/repos"),
            apps_root: home.to_owned().concat("/apps"),
        };
        proof {
            assert(r.derived_from(home@));
        }
        r
    }

    /// Load the configuration from the invoking user's home directory. The
    /// home directory comes from the process environment; when it cannot be
    /// determined, no configuration is produced.
    pub fn new() -> (r: Result<ServerConfig, String>)
        ensures
            r matches Ok(c) ==> c.wf(),
            r matches Err(e) ==> e@ == "Could not determine home directory"@,
    {
        match home_dir_string() {
            Some(home) => Ok(ServerConfig::from_home(home.as_str())),
            None => Err("Could not determine home directory".to_owned()),
        }
    }
}

/// No root of a well-formed configuration is empty: each derived path ends
/// in a fixed non-empty suffix of its home directory.
pub proof fn lemma_wf_roots_nonempty(c: ServerConfig)
    requires
        c.wf(),
    ensures
        c.ruku_root@.len() > 0,
        c.ruku_binary@.len() > 0,
        c.data_root@.len() > 0,
        c.git_root@.len() > 0,
        c.apps_root@.len() > 0,
{
    let home = choose|home: Seq<char>| c.derived_from(home);
    reveal_strlit("/.ruku");
    reveal_strlit("/usr/bin/ruku");
    reveal_strlit("/.ruku/data");
    reveal_strlit("/.ruku/repos");
    reveal_strlit("/apps");
}

} // verus!
