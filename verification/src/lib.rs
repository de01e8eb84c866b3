//! Push-to-deploy control plane for a single host.
//!
//! A developer pushes a Git branch over SSH; the receiving host builds a
//! container image from the pushed tree and runs it, replacing any previous
//! instance of the application. This library holds the verified core of that
//! control plane: application-name sanitization, manifest resolution and
//! validation, push-event parsing, working-tree synchronization plans, the
//! git-hook bootstrap plan, and the container lifecycle reconciliation state
//! machine. The surrounding binary performs the filesystem, Git, build-engine
//! and container-engine calls that the plans computed here describe.

pub mod config;
pub mod container;
pub mod deploy;
pub mod errors;
pub mod git;
pub mod logger;
pub mod misc;
pub mod model;
pub mod server_config;
pub mod text;
