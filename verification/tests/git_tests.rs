use ruku::git::{add_owner_execute, branch_of_ref, parse_push_line, Git, GitStep};
use ruku::logger::Logger;
use ruku::server_config::ServerConfig;

fn server_config() -> ServerConfig {
    ServerConfig::from_home("/home/deploy")
}

#[test]
fn well_formed_push_line_parses() {
    let event = parse_push_line("abc123 def456 refs/heads/main").expect("three fields");
    assert_eq!(event.old_rev, "abc123");
    assert_eq!(event.new_rev, "def456");
    assert_eq!(event.ref_name, "refs/heads/main");
}

#[test]
fn short_push_line_is_skipped() {
    assert_eq!(parse_push_line("only two"), None);
    assert_eq!(parse_push_line("onefield"), None);
    assert_eq!(parse_push_line(""), None);
}

#[test]
fn push_line_with_extra_fields_is_skipped() {
    assert_eq!(parse_push_line("a b c d"), None);
    // A doubled space makes an empty fourth field.
    assert_eq!(parse_push_line("a  b c"), None);
}

#[test]
fn push_line_is_trimmed_before_splitting() {
    let event = parse_push_line("  abc123 def456 refs/heads/main \n").expect("three fields");
    assert_eq!(event.old_rev, "abc123");
    assert_eq!(event.ref_name, "refs/heads/main");
}

#[test]
fn branch_strips_the_ref_prefix_once() {
    assert_eq!(branch_of_ref("refs/heads/main"), "main");
    assert_eq!(branch_of_ref("main"), "main");
    assert_eq!(branch_of_ref("refs/heads/"), "");
    assert_eq!(
        branch_of_ref("refs/heads/refs/heads/x"),
        "refs/heads/x"
    );
    assert_eq!(branch_of_ref("refs/tags/v1"), "refs/tags/v1");
}

#[test]
fn owner_execute_bit_is_added_to_prior_bits() {
    assert_eq!(add_owner_execute(0o644), 0o744);
    assert_eq!(add_owner_execute(0o755), 0o755);
    assert_eq!(add_owner_execute(0o000), 0o100);
    assert_eq!(add_owner_execute(0o4621), 0o4721);
}

#[test]
fn receive_pack_bootstraps_a_new_repository_once() {
    let log = Logger::new();
    let config = server_config();
    let git = Git::new(&log, &config);
    let steps = git.cmd_git_receive_pack("app", false);
    assert_eq!(steps.len(), 5);
    assert_eq!(
        steps[0],
        GitStep::CreateDirAll {
            path: "/home/deploy/.ruku/repos/app/hooks".to_string()
        }
    );
    assert_eq!(
        steps[1],
        GitStep::InitBareRepo {
            git_root: "/home/deploy/.ruku/repos".to_string(),
            app: "app".to_string()
        }
    );
    assert_eq!(
        steps[2],
        GitStep::WriteFile {
            path: "/home/deploy/.ruku/repos/app/hooks/post-receive".to_string(),
            content: "#!/usr/bin/env bash\nset -e; set -o pipefail;\ncat | RUKU_ROOT=\"/home/deploy/.ruku\" /usr/bin/ruku git-hook app\n"
                .to_string()
        }
    );
    assert_eq!(
        steps[3],
        GitStep::AddOwnerExecute {
            path: "/home/deploy/.ruku/repos/app/hooks/post-receive".to_string()
        }
    );
    assert_eq!(
        steps[4],
        GitStep::GitShell {
            git_root: "/home/deploy/.ruku/repos".to_string(),
            command: "git-receive-pack 'app'".to_string()
        }
    );
}

#[test]
fn receive_pack_with_installed_hook_only_hands_off() {
    let log = Logger::new();
    let config = server_config();
    let git = Git::new(&log, &config);
    let steps = git.cmd_git_receive_pack("app", true);
    assert_eq!(
        steps,
        vec![GitStep::GitShell {
            git_root: "/home/deploy/.ruku/repos".to_string(),
            command: "git-receive-pack 'app'".to_string()
        }]
    );
}

#[test]
fn receive_pack_sanitizes_the_untrusted_name() {
    let log = Logger::new();
    let config = server_config();
    let git = Git::new(&log, &config);
    let steps = git.cmd_git_receive_pack("../own'ed; rm -rf /", true);
    assert_eq!(
        steps,
        vec![GitStep::GitShell {
            git_root: "/home/deploy/.ruku/repos".to_string(),
            command: "git-receive-pack '..ownedrm-rf'".to_string()
        }]
    );
}

#[test]
fn upload_pack_never_bootstraps() {
    let log = Logger::new();
    let config = server_config();
    let git = Git::new(&log, &config);
    let steps = git.cmd_git_upload_pack("app");
    assert_eq!(
        steps,
        vec![GitStep::GitShell {
            git_root: "/home/deploy/.ruku/repos".to_string(),
            command: "git-upload-pack 'app'".to_string()
        }]
    );
}

#[test]
fn hook_path_names_the_post_receive_file() {
    let log = Logger::new();
    let config = server_config();
    let git = Git::new(&log, &config);
    assert_eq!(
        git.hook_path("app"),
        "/home/deploy/.ruku/repos/app/hooks/post-receive"
    );
    assert_eq!(git.app_path("app"), "/home/deploy/apps/app");
    assert_eq!(git.data_path("app"), "/home/deploy/.ruku/data/app");
}

#[test]
fn first_push_materializes_tree_and_data_volume() {
    let log = Logger::new();
    let config = server_config();
    let git = Git::new(&log, &config);
    let steps = git.hook_sync_steps("app", false, false);
    assert_eq!(
        steps,
        vec![
            GitStep::CreateDirAll {
                path: "/home/deploy/apps/app".to_string()
            },
            GitStep::CreateDirAll {
                path: "/home/deploy/.ruku/data/app".to_string()
            },
            GitStep::CloneNoCheckout {
                repo_path: "/home/deploy/.ruku/repos/app".to_string(),
                app_path: "/home/deploy/apps/app".to_string()
            },
        ]
    );
}

#[test]
fn existing_data_volume_is_not_recreated() {
    let log = Logger::new();
    let config = server_config();
    let git = Git::new(&log, &config);
    let steps = git.hook_sync_steps("app", false, true);
    assert_eq!(
        steps,
        vec![
            GitStep::CreateDirAll {
                path: "/home/deploy/apps/app".to_string()
            },
            GitStep::CloneNoCheckout {
                repo_path: "/home/deploy/.ruku/repos/app".to_string(),
                app_path: "/home/deploy/apps/app".to_string()
            },
        ]
    );
}

#[test]
fn existing_tree_needs_no_materialization() {
    let log = Logger::new();
    let config = server_config();
    let git = Git::new(&log, &config);
    assert_eq!(git.hook_sync_steps("app", true, false), vec![]);
    assert_eq!(git.hook_sync_steps("app", true, true), vec![]);
}

#[test]
fn same_branch_push_skips_the_checkout() {
    let log = Logger::new();
    let config = server_config();
    let git = Git::new(&log, &config);
    let steps = git.checkout_steps(
        "/home/deploy/apps/app",
        "def456",
        "refs/heads/main",
        "main\n",
    );
    assert_eq!(
        steps,
        vec![GitStep::FetchAndReset {
            app_path: "/home/deploy/apps/app".to_string(),
            new_rev: "def456".to_string()
        }]
    );
}

#[test]
fn branch_switch_checks_out_first() {
    let log = Logger::new();
    let config = server_config();
    let git = Git::new(&log, &config);
    let steps = git.checkout_steps(
        "/home/deploy/apps/app",
        "def456",
        "refs/heads/feature",
        "main\n",
    );
    assert_eq!(
        steps,
        vec![
            GitStep::Checkout {
                app_path: "/home/deploy/apps/app".to_string(),
                branch: "feature".to_string()
            },
            GitStep::FetchAndReset {
                app_path: "/home/deploy/apps/app".to_string(),
                new_rev: "def456".to_string()
            },
        ]
    );
}
