//! The per-application manifest (`ruku.yml`) and its resolution: a manifest
//! declares the single published `port` (required) and an optional short
//! `version` tag. The manifest is read fresh from the working tree on every
//! deployment and never persisted by this system; a manifest that is
//! missing, unparsable or invalid aborts the deployment before any build or
//! container action occurs.

use vstd::prelude::*;

use crate::errors::RukuError;

verus! {

/// The parsed `ruku.yml` manifest of one application.
#[derive(Debug, Clone, PartialEq, Eq)]
pub struct RukuConfig {
    /// The single TCP port the application publishes; must lie in the
    /// user/ephemeral range and be currently unbound on the host.
    pub port: u16,
    /// An optional short image tag, 1 to 20 characters when present.
    pub version: Option<String>,
}

/// The deployment-time settings handed to the orchestrator and the
/// container reconciler. Unlike the manifest, the port may be absent here:
/// the orchestrator fails fast on a deployment without one.
#[derive(Debug, Clone, PartialEq, Eq)]
pub struct Config {
    pub port: Option<u16>,
    pub version: Option<String>,
}

/// What a read of the manifest file produced: no file at the working-tree
/// root, a file the parser rejected (with its message), or a parsed
/// manifest awaiting validation.
#[derive(Debug, Clone, PartialEq, Eq)]
pub enum ManifestFile {
    Missing,
    Unparsable { message: String },
    Parsed { config: RukuConfig },
}

/// The acceptable range of a published port: the user/ephemeral range.
pub open spec fn port_in_range(port: u16) -> bool {
    1024 <= port <= 65535
}

/// A version tag, when present, holds 1 to 20 characters.
pub open spec fn version_len_ok(version: Option<Seq<char>>) -> bool {
    match version {
        Some(v) => 1 <= v.len() <= 20,
        None => true,
    }
}

/// `r` is a `ConfigInvalid` rejection of `field` with `reason`.
pub open spec fn is_config_invalid<T>(
    r: Result<T, RukuError>,
    field: Seq<char>,
    reason: Seq<char>,
) -> bool {
    &&& r matches Err(e)
    &&& e matches RukuError::ConfigInvalid { field: f, reason: why }
    &&& f@ == field
    &&& why@ == reason
}

/// Relies on `port_selector::is_free`: whether `port` is currently unbound
/// on the host, probed by test-binding a TCP listener and a UDP socket. The
/// answer depends on the host's state at the moment of the call, so nothing
/// is promised of it.
#[verifier::external_body]
fn probe_port_free(port: u16) -> bool {
    port_selector::is_free(port)
}

impl RukuConfig {
    /// The version tag as a sequence of characters, when present.
    pub open spec fn version_view(&self) -> Option<Seq<char>> {
        match self.version {
            Some(v) => Some(v@),
            None => None,
        }
    }

    /// The checks on a manifest that do not depend on the host's state:
    /// the port range and the version-tag length.
    pub open spec fn statically_valid(&self) -> bool {
        port_in_range(self.port) && version_len_ok(self.version_view())
    }

    /// Validate the manifest against a given answer to the port probe:
    /// the port must lie in `[1024, 65535]` and be free, and the version
    /// tag, when present, must hold 1 to 20 characters.
    pub fn validate_with_probe(&self, port_free: bool) -> (r: Result<(), RukuError>)
        ensures
            !port_in_range(self.port) ==> is_config_invalid(
                r,
                "port"@,
                "port must lie between 1024 and 65535"@,
            ),
            port_in_range(self.port) && !port_free ==> is_config_invalid(
                r,
                "port"@,
                "port is already in use"@,
            ),
            port_in_range(self.port) && port_free && !version_len_ok(self.version_view())
                ==> is_config_invalid(r, "version"@, "version must hold 1 to 20 characters"@),
            r is Ok <==> self.statically_valid() && port_free,
    {
        if self.port < 1024 {
            return Err(
                RukuError::ConfigInvalid {
                    field: "port".to_owned(),
                    reason: "port must lie between 1024 and 65535".to_owned(),
                },
            );
        }
        if !port_free {
            return Err(
                RukuError::ConfigInvalid {
                    field: "port".to_owned(),
                    reason: "port is already in use".to_owned(),
                },
            );
        }
        if let Some(v) = &self.version {
            let len = v.as_str().unicode_len();
            if len < 1 || len > 20 {
                return Err(
                    RukuError::ConfigInvalid {
                        field: "version".to_owned(),
                        reason: "version must hold 1 to 20 characters".to_owned(),
                    },
                );
            }
        }
        Ok(())
    }

    /// Validate the manifest, probing the host for the port. The probe's
    /// answer depends on the host, so a statically valid manifest is
    /// accepted or rejected only on the port's availability.
    pub fn validate(&self) -> (r: Result<(), RukuError>)
        ensures
            r is Ok ==> self.statically_valid(),
            !port_in_range(self.port) ==> is_config_invalid(
                r,
                "port"@,
                "port must lie between 1024 and 65535"@,
            ),
            port_in_range(self.port) && !self.statically_valid() ==> is_config_invalid(
                r,
                "port"@,
                "port is already in use"@,
            ) || is_config_invalid(r, "version"@, "version must hold 1 to 20 characters"@),
            self.statically_valid() ==> r is Ok || is_config_invalid(
                r,
                "port"@,
                "port is already in use"@,
            ),
    {
        let free = probe_port_free(self.port);
        self.validate_with_probe(free)
    }

    /// The deployment-time settings this manifest induces: its port,
    /// published, and its version tag.
    pub fn to_deploy_config(&self) -> (r: Config)
        ensures
            r.port == Some(self.port),
            r.version == self.version,
    {
        Config { port: Some(self.port), version: self.version.clone() }
    }
}

/// Resolve what a read of `ruku.yml` produced into a validated manifest:
/// a missing file fails with `ConfigMissing`, an unparsable one with
/// `ConfigParseError` carrying the parser's message, and a parsed manifest
/// is validated before use. No partial manifest is ever returned.
pub fn resolve_manifest(file: ManifestFile) -> (r: Result<RukuConfig, RukuError>)
    ensures
        file is Missing ==> r == Err::<RukuConfig, RukuError>(RukuError::ConfigMissing),
        file matches ManifestFile::Unparsable { message } ==> (r matches Err(e) && e matches
            RukuError::ConfigParseError { message: m } && m@ == message@),
        file matches ManifestFile::Parsed { config } ==> {
            &&& r matches Ok(c) ==> c == config && config.statically_valid()
            &&& !port_in_range(config.port) ==> is_config_invalid(
                r,
                "port"@,
                "port must lie between 1024 and 65535"@,
            )
            &&& port_in_range(config.port) && !version_len_ok(config.version_view())
                ==> is_config_invalid(r, "port"@, "port is already in use"@)
                || is_config_invalid(r, "version"@, "version must hold 1 to 20 characters"@)
            &&& config.statically_valid() ==> r == Ok::<RukuConfig, RukuError>(config)
                || is_config_invalid(r, "port"@, "port is already in use"@)
        },
{
    match file {
        ManifestFile::Missing => Err(RukuError::ConfigMissing),
        ManifestFile::Unparsable { message } => Err(RukuError::ConfigParseError { message }),
        ManifestFile::Parsed { config } => {
            match config.validate() {
                Ok(()) => Ok(config),
                Err(e) => Err(e),
            }
        },
    }
}

} // verus!
