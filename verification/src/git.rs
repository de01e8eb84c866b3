//! The Git hook gateway and the working-tree synchronizer.
//!
//! Two entry points map onto the Git smart-protocol roles: `receive` (a
//! client pushes) bootstraps the bare repository and its post-receive hook
//! on first contact and hands the pack exchange to a restricted shell;
//! `upload` (a client fetches) is the same hand-off without the bootstrap.
//! The hook entry point then consumes one line per updated ref and
//! reconciles the working tree to the pushed revision.
//!
//! Every function here computes a plan: the ordered filesystem and Git
//! steps the binary must perform. The binary observes the world (does the
//! hook file exist? what is the current branch?) and hands those
//! observations in; the decisions are made — and verified — here.

use vstd::prelude::*;

use crate::logger::Logger;
use crate::misc::{sanitize_app_name, sanitized};
use crate::server_config::ServerConfig;
use crate::text::{
    copy_chars, path_join, path_join_spec, split_on_spaces, split_spaces, str_eq, trim_of,
    trim_spec,
};

verus! {

/// One filesystem or Git action of a gateway or synchronizer plan, in the
/// order the binary must perform them. Failure of any step is fatal to the
/// invocation and must be reported per failing step.
#[derive(Debug, Clone, PartialEq, Eq)]
pub enum GitStep {
    /// Create a directory and its missing parents.
    CreateDirAll { path: String },
    /// `git init --quiet --bare <app>`, run inside `git_root`.
    InitBareRepo { git_root: String, app: String },
    /// Write `content` to a fresh file at `path`.
    WriteFile { path: String, content: String },
    /// Add the owner-execute bit to the existing mode bits of `path`.
    AddOwnerExecute { path: String },
    /// `git-shell -c "<command>"`, run inside `git_root`.
    GitShell { git_root: String, command: String },
    /// `git clone --quiet --no-checkout <repo_path> <app_path>`: materialize
    /// the working-tree directory without checking any files out, deferring
    /// to the explicit reset that follows.
    CloneNoCheckout { repo_path: String, app_path: String },
    /// `git checkout <branch>` in the working tree at `app_path`.
    Checkout { app_path: String, branch: String },
    /// `git fetch` from the origin and `git reset --hard <new_rev>` in the
    /// working tree at `app_path`.
    FetchAndReset { app_path: String, new_rev: String },
}

/// The specification-level image of a [`GitStep`], over character
/// sequences.
#[verifier::ext_equal]
pub enum StepSpec {
    CreateDirAll { path: Seq<char> },
    InitBareRepo { git_root: Seq<char>, app: Seq<char> },
    WriteFile { path: Seq<char>, content: Seq<char> },
    AddOwnerExecute { path: Seq<char> },
    GitShell { git_root: Seq<char>, command: Seq<char> },
    CloneNoCheckout { repo_path: Seq<char>, app_path: Seq<char> },
    Checkout { app_path: Seq<char>, branch: Seq<char> },
    FetchAndReset { app_path: Seq<char>, new_rev: Seq<char> },
}

impl View for GitStep {
    type V = StepSpec;

    open spec fn view(&self) -> StepSpec {
        match self {
            GitStep::CreateDirAll { path } => StepSpec::CreateDirAll { path: path@ },
            GitStep::InitBareRepo { git_root, app } => StepSpec::InitBareRepo {
                git_root: git_root@,
                app: app@,
            },
            GitStep::WriteFile { path, content } => StepSpec::WriteFile {
                path: path@,
                content: content@,
            },
            GitStep::AddOwnerExecute { path } => StepSpec::AddOwnerExecute { path: path@ },
            GitStep::GitShell { git_root, command } => StepSpec::GitShell {
                git_root: git_root@,
                command: command@,
            },
            GitStep::CloneNoCheckout { repo_path, app_path } => StepSpec::CloneNoCheckout {
                repo_path: repo_path@,
                app_path: app_path@,
            },
            GitStep::Checkout { app_path, branch } => StepSpec::Checkout {
                app_path: app_path@,
                branch: branch@,
            },
            GitStep::FetchAndReset { app_path, new_rev } => StepSpec::FetchAndReset {
                app_path: app_path@,
                new_rev: new_rev@,
            },
        }
    }
}

/// The views of a plan's steps, in order.
pub open spec fn step_views(steps: Seq<GitStep>) -> Seq<StepSpec> {
    steps.map_values(|s: GitStep| s@)
}

/// The restricted-shell command serving a push: the sanitized name is
/// spliced as a single-quoted argument, which it cannot escape (see
/// [`crate::misc::lemma_sanitized_is_safe`]).
pub open spec fn receive_pack_command(app: Seq<char>) -> Seq<char> {
    "git-receive-pack '"@ + app + "'"@
}

/// The restricted-shell command serving a fetch.
pub open spec fn upload_pack_command(app: Seq<char>) -> Seq<char> {
    "git-upload-pack '"@ + app + "'"@
}

/// The body of the generated post-receive hook: a POSIX shell script that
/// re-invokes the control-plane executable in hook mode with the
/// control-plane root exported and the app name as argument, piping the
/// hook's standard input through unchanged.
pub open spec fn hook_script_spec(
    ruku_root: Seq<char>,
    ruku_binary: Seq<char>,
    app: Seq<char>,
) -> Seq<char> {
    "#!/usr/bin/env bash\nset -e; set -o pipefail;\ncat | RUKU_ROOT=\""@ + ruku_root + "\" "@
        + ruku_binary + " git-hook "@ + app + "\n"@
}

/// The bare repository of a sanitized app name.
pub open spec fn repo_path_spec(config: ServerConfig, app: Seq<char>) -> Seq<char> {
    path_join_spec(config.git_root@, app)
}

/// The hooks directory of a sanitized app name's bare repository.
pub open spec fn hooks_dir_spec(config: ServerConfig, app: Seq<char>) -> Seq<char> {
    path_join_spec(repo_path_spec(config, app), "hooks"@)
}

/// The post-receive hook file of a sanitized app name's bare repository.
pub open spec fn hook_path_spec(config: ServerConfig, app: Seq<char>) -> Seq<char> {
    path_join_spec(hooks_dir_spec(config, app), "post-receive"@)
}

/// The working tree of a sanitized app name.
pub open spec fn app_path_spec(config: ServerConfig, app: Seq<char>) -> Seq<char> {
    path_join_spec(config.apps_root@, app)
}

/// The persistent data volume of a sanitized app name.
pub open spec fn data_path_spec(config: ServerConfig, app: Seq<char>) -> Seq<char> {
    path_join_spec(config.data_root@, app)
}

/// The plan serving one push. When the hook is already installed, the plan
/// is the shell hand-off alone; on first contact it is preceded by the
/// bootstrap: create the hooks directory, initialize the bare repository,
/// write the hook script, and add the owner-execute bit to the hook file.
pub open spec fn receive_pack_plan(
    config: ServerConfig,
    app: Seq<char>,
    hook_installed: bool,
) -> Seq<StepSpec> {
    let a = sanitized(app);
    let shell = StepSpec::GitShell {
        git_root: config.git_root@,
        command: receive_pack_command(a),
    };
    if hook_installed {
        seq![shell]
    } else {
        seq![
            StepSpec::CreateDirAll { path: hooks_dir_spec(config, a) },
            StepSpec::InitBareRepo { git_root: config.git_root@, app: a },
            StepSpec::WriteFile {
                path: hook_path_spec(config, a),
                content: hook_script_spec(config.ruku_root@, config.ruku_binary@, a),
            },
            StepSpec::AddOwnerExecute { path: hook_path_spec(config, a) },
            shell,
        ]
    }
}

/// The plan serving one fetch: the shell hand-off alone, with no bootstrap,
/// since no local clone needs to exist to serve an upload.
pub open spec fn upload_pack_plan(config: ServerConfig, app: Seq<char>) -> Seq<StepSpec> {
    seq![
        StepSpec::GitShell { git_root: config.git_root@, command: upload_pack_command(
            sanitized(app),
        ) },
    ]
}

/// The plan that materializes the working tree for a push event: when no
/// working tree exists yet, create it, create the matching data volume if
/// that is absent too, and clone the bare repository without checking
/// anything out; when the working tree exists, nothing.
pub open spec fn sync_tree_plan(
    config: ServerConfig,
    app: Seq<char>,
    app_path_exists: bool,
    data_path_exists: bool,
) -> Seq<StepSpec> {
    let a = sanitized(app);
    if app_path_exists {
        Seq::<StepSpec>::empty()
    } else {
        let mk_data = if data_path_exists {
            Seq::<StepSpec>::empty()
        } else {
            seq![StepSpec::CreateDirAll { path: data_path_spec(config, a) }]
        };
        seq![StepSpec::CreateDirAll { path: app_path_spec(config, a) }] + mk_data + seq![
            StepSpec::CloneNoCheckout {
                repo_path: repo_path_spec(config, a),
                app_path: app_path_spec(config, a),
            },
        ]
    }
}

/// The branch a pushed ref names: the ref without its optional
/// `refs/heads/` prefix.
pub open spec fn branch_of_ref_spec(ref_name: Seq<char>) -> Seq<char> {
    if ref_name.len() >= 11 && ref_name.subrange(0, 11) == "refs/heads/"@ {
        ref_name.skip(11)
    } else {
        ref_name
    }
}

/// The plan that reconciles an existing working tree to a pushed revision:
/// switch branches only when the tree's current branch differs from the
/// target (an unconditional checkout would be redundant work for the common
/// case of repeated pushes to the same branch), then always fetch from the
/// origin and hard-reset to the new revision, so the tree matches exactly
/// what was pushed even if local modifications existed.
pub open spec fn checkout_plan(
    app_path: Seq<char>,
    new_rev: Seq<char>,
    ref_name: Seq<char>,
    current_branch: Seq<char>,
) -> Seq<StepSpec> {
    let branch = branch_of_ref_spec(ref_name);
    let switch = if trim_spec(current_branch) != branch {
        seq![StepSpec::Checkout { app_path, branch }]
    } else {
        Seq::<StepSpec>::empty()
    };
    switch + seq![StepSpec::FetchAndReset { app_path, new_rev }]
}

/// One line of hook input: the previous revision, the pushed revision and
/// the updated ref, as Git emits them on the hook's standard input.
#[derive(Debug, Clone, PartialEq, Eq)]
pub struct PushEvent {
    pub old_rev: String,
    pub new_rev: String,
    pub ref_name: String,
}

/// The space-separated fields of a hook input line, after trimming.
pub open spec fn push_line_fields(line: Seq<char>) -> Seq<Seq<char>> {
    split_spaces(trim_spec(line))
}

/// Parse one line of hook input. A line with exactly three space-separated
/// fields is a push event; any other line is skipped by the caller — not an
/// error, a defensive default for protocol extensions Git may add.
pub fn parse_push_line(line: &str) -> (r: Option<PushEvent>)
    ensures
        r is Some <==> push_line_fields(line@).len() == 3,
        r matches Some(ev) ==> {
            &&& ev.old_rev@ == push_line_fields(line@)[0]
            &&& ev.new_rev@ == push_line_fields(line@)[1]
            &&& ev.ref_name@ == push_line_fields(line@)[2]
        },
{
    let trimmed = trim_of(line);
    let mut parts = split_on_spaces(trimmed.as_str());
    if parts.len() != 3 {
        return None;
    }
    let ref_name = parts.pop().unwrap();
    let new_rev = parts.pop().unwrap();
    let old_rev = parts.pop().unwrap();
    Some(PushEvent { old_rev, new_rev, ref_name })
}

/// Strip the optional `refs/heads/` prefix from a pushed ref.
pub fn branch_of_ref(ref_name: &str) -> (r: String)
    ensures
        r@ == branch_of_ref_spec(ref_name@),
{
    let n = ref_name.unicode_len();
    if n >= 11 {
        let prefix = ref_name.substring_char(0, 11);
        if str_eq(prefix, "refs/heads/") {
            let rest = copy_chars(ref_name, 11, n);
            proof {
                assert(ref_name@.subrange(11, n as int) =~= ref_name@.skip(11));
            }
            return rest;
        }
    }
    ref_name.to_owned()
}

/// Add the owner-execute permission to a file mode, leaving every other
/// bit as it was.
pub fn add_owner_execute(mode: u32) -> (r: u32)
    ensures
        r == mode | 0o100u32,
        r & 0o100u32 == 0o100u32,
        r & !0o100u32 == mode & !0o100u32,
{
    proof {
        assert((mode | 0o100u32) & 0o100u32 == 0o100u32) by (bit_vector);
        assert((mode | 0o100u32) & !0o100u32 == mode & !0o100u32) by (bit_vector);
    }
    mode | 0o100
}

/// The Git gateway: the smart-protocol entry points and the hook-driven
/// working-tree synchronizer, bound to the server's filesystem layout.
pub struct Git<'a> {
    pub log: &'a Logger,
    pub config: &'a ServerConfig,
}

impl<'a> Git<'a> {
    pub fn new(log: &'a Logger, config: &'a ServerConfig) -> (r: Self)
        ensures
            r.log == log,
            r.config == config,
    {
        Self { log, config }
    }

    /// The post-receive hook file of `app`'s bare repository; the binary
    /// probes this path to learn whether the hook is already installed.
    pub fn hook_path(&self, app: &str) -> (r: String)
        ensures
            r@ == hook_path_spec(*self.config, sanitized(app@)),
    {
        let a = sanitize_app_name(app);
        let repo = path_join(self.config.git_root.as_str(), a.as_str());
        let hooks = path_join(repo.as_str(), "hooks");
        path_join(hooks.as_str(), "post-receive")
    }

    /// The working tree of `app`.
    pub fn app_path(&self, app: &str) -> (r: String)
        ensures
            r@ == app_path_spec(*self.config, sanitized(app@)),
    {
        let a = sanitize_app_name(app);
        path_join(self.config.apps_root.as_str(), a.as_str())
    }

    /// The persistent data volume of `app`.
    pub fn data_path(&self, app: &str) -> (r: String)
        ensures
            r@ == data_path_spec(*self.config, sanitized(app@)),
    {
        let a = sanitize_app_name(app);
        path_join(self.config.data_root.as_str(), a.as_str())
    }

    /// The plan serving a push of `app`. `hook_installed` reports whether
    /// the post-receive hook file already exists: installation is
    /// idempotent, so an existing hook is never recreated or modified.
    pub fn cmd_git_receive_pack(&self, app: &str, hook_installed: bool) -> (r: Vec<GitStep>)
        ensures
            step_views(r@) == receive_pack_plan(*self.config, app@, hook_installed),
    {
        let a = sanitize_app_name(app);
        let command = "git-receive-pack '".to_owned().concat(a.as_str()).concat("'");
        proof {
            assert(command@ =~= receive_pack_command(a@));
        }
        let mut r: Vec<GitStep> = Vec::new();
        if !hook_installed {
            let repo = path_join(self.config.git_root.as_str(), a.as_str());
            let hooks = path_join(repo.as_str(), "hooks");
            let hook = path_join(hooks.as_str(), "post-receive");
            let content = hook_script(
                self.config.ruku_root.as_str(),
                self.config.ruku_binary.as_str(),
                a.as_str(),
            );
            r.push(GitStep::CreateDirAll { path: hooks });
            r.push(GitStep::InitBareRepo { git_root: self.config.git_root.clone(), app: a });
            r.push(GitStep::WriteFile { path: hook.clone(), content });
            r.push(GitStep::AddOwnerExecute { path: hook });
        }
        r.push(GitStep::GitShell { git_root: self.config.git_root.clone(), command });
        proof {
            assert(step_views(r@) =~= receive_pack_plan(*self.config, app@, hook_installed));
        }
        r
    }

    /// The plan serving a fetch of `app`: the restricted-shell hand-off
    /// alone.
    pub fn cmd_git_upload_pack(&self, app: &str) -> (r: Vec<GitStep>)
        ensures
            step_views(r@) == upload_pack_plan(*self.config, app@),
    {
        let a = sanitize_app_name(app);
        let command = "git-upload-pack '".to_owned().concat(a.as_str()).concat("'");
        proof {
            assert(command@ =~= upload_pack_command(a@));
        }
        let mut r: Vec<GitStep> = Vec::new();
        r.push(GitStep::GitShell { git_root: self.config.git_root.clone(), command });
        proof {
            assert(step_views(r@) =~= upload_pack_plan(*self.config, app@));
        }
        r
    }

    /// The plan that ensures a working tree (and its data volume) exists
    /// for `app` before a push event is applied. The binary reports whether
    /// the two directories exist.
    pub fn hook_sync_steps(
        &self,
        app: &str,
        app_path_exists: bool,
        data_path_exists: bool,
    ) -> (r: Vec<GitStep>)
        ensures
            step_views(r@) == sync_tree_plan(
                *self.config,
                app@,
                app_path_exists,
                data_path_exists,
            ),
    {
        let a = sanitize_app_name(app);
        let mut r: Vec<GitStep> = Vec::new();
        if !app_path_exists {
            let repo = path_join(self.config.git_root.as_str(), a.as_str());
            let app_dir = path_join(self.config.apps_root.as_str(), a.as_str());
            let data_dir = path_join(self.config.data_root.as_str(), a.as_str());
            r.push(GitStep::CreateDirAll { path: app_dir.clone() });
            if !data_path_exists {
                r.push(GitStep::CreateDirAll { path: data_dir });
            }
            r.push(GitStep::CloneNoCheckout { repo_path: repo, app_path: app_dir });
        }
        proof {
            assert(step_views(r@) =~= sync_tree_plan(
                *self.config,
                app@,
                app_path_exists,
                data_path_exists,
            ));
        }
        r
    }

    /// The plan that reconciles the working tree at `app_path` to the
    /// pushed revision. `current_branch` is what the tree currently has
    /// checked out, as Git reports it (trailing newline and all).
    pub fn checkout_steps(
        &self,
        app_path: &str,
        new_rev: &str,
        ref_name: &str,
        current_branch: &str,
    ) -> (r: Vec<GitStep>)
        ensures
            step_views(r@) == checkout_plan(app_path@, new_rev@, ref_name@, current_branch@),
    {
        let branch = branch_of_ref(ref_name);
        let cur = trim_of(current_branch);
        let mut r: Vec<GitStep> = Vec::new();
        if !str_eq(cur.as_str(), branch.as_str()) {
            r.push(GitStep::Checkout { app_path: app_path.to_owned(), branch });
        }
        r.push(GitStep::FetchAndReset {
            app_path: app_path.to_owned(),
            new_rev: new_rev.to_owned(),
        });
        proof {
            assert(step_views(r@) =~= checkout_plan(
                app_path@,
                new_rev@,
                ref_name@,
                current_branch@,
            ));
        }
        r
    }
}

/// Build the post-receive hook script for a sanitized app name.
fn hook_script(ruku_root: &str, ruku_binary: &str, app: &str) -> (r: String)
    ensures
        r@ == hook_script_spec(ruku_root@, ruku_binary@, app@),
{
    let r = "#!/usr/bin/env bash\nset -e; set -o pipefail;\ncat | RUKU_ROOT=\"".to_owned().concat(
        ruku_root,
    ).concat("\" ").concat(ruku_binary).concat(" git-hook ").concat(app).concat("\n");
    proof {
        assert(r@ =~= hook_script_spec(ruku_root@, ruku_binary@, app@));
    }
    r
}

/// On first-ever contact with an app name the push plan writes the hook
/// file exactly once — one write, at the hook path, followed by adding the
/// owner-execute bit to that same file's existing mode — and once the hook
/// exists, a later push neither creates nor modifies any file: its plan is
/// the shell hand-off alone.
pub proof fn lemma_hook_installed_exactly_once(config: ServerConfig, app: Seq<char>)
    ensures
        ({
            let first = receive_pack_plan(config, app, false);
            let hook = hook_path_spec(config, sanitized(app));
            &&& forall|i: int|
                0 <= i < first.len() ==> ((#[trigger] first[i]) is WriteFile <==> i == 2)
            &&& first[2] matches StepSpec::WriteFile { path, content } && path == hook
            &&& first[3] matches StepSpec::AddOwnerExecute { path } && path == hook
        }),
        ({
            let again = receive_pack_plan(config, app, true);
            forall|i: int| 0 <= i < again.len() ==> (#[trigger] again[i]) is GitShell
        }),
{
}

} // verus!
