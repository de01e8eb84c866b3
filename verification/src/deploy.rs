//! The deployment orchestrator. Pure composition: validate that a port is
//! configured, compute the canonical image reference, describe the build
//! the external engine must perform, and leave the container reconciliation
//! to [`crate::container::Container`]. Errors at any step short-circuit the
//! remaining steps; the orchestrator holds no state of its own.

use vstd::prelude::*;

use crate::container::Container;
use crate::errors::RukuError;
use crate::logger::Logger;
use crate::misc::{get_image_name_with_version, image_reference};
use crate::model::Config;

verus! {

/// What the external build engine is asked to do: produce a tagged,
/// runnable container image from the source tree at `path`.
#[derive(Debug, Clone, PartialEq, Eq)]
pub struct BuildRequest {
    /// The destination image name.
    pub name: String,
    /// The source tree the image is built from.
    pub path: String,
    /// The tags the image is published under: exactly the canonical
    /// `name:version` reference.
    pub tags: Vec<String>,
    /// Build from the current directory of the source tree.
    pub current_dir: bool,
}

/// A validated deployment, ready for the build engine and the reconciler.
#[derive(Debug, Clone, PartialEq, Eq)]
pub struct DeployPlan {
    /// The canonical `name:version` image reference.
    pub image: String,
    /// The single published port, bound 1:1 on host and container.
    pub port: u16,
    /// The build the external engine must perform first.
    pub build: BuildRequest,
}

/// The deployment orchestrator for one application.
pub struct Deploy<'a> {
    pub log: &'a Logger,
    pub name: &'a str,
    pub path: &'a str,
    pub config: &'a Config,
    pub container: &'a Container<'a>,
}

impl<'a> Deploy<'a> {
    pub fn new(
        log: &'a Logger,
        name: &'a str,
        path: &'a str,
        config: &'a Config,
        container: &'a Container<'a>,
    ) -> (r: Deploy<'a>)
        ensures
            r.log == log,
            r.name@ == name@,
            r.path@ == path@,
            r.config == config,
            r.container == container,
    {
        Deploy { log, name, path, config, container }
    }

    /// Validate and plan one deployment. A deployment without a published
    /// port is meaningless and must not silently proceed, so it fails fast;
    /// otherwise the plan names the image to build — tagged with the
    /// canonical reference — and the port to publish. The binary then runs
    /// the build (surfacing the engine's message verbatim as `BuildFailed`
    /// on failure) and, on success, reconciles the container onto the new
    /// image.
    pub fn run(&self) -> (r: Result<DeployPlan, RukuError>)
        ensures
            r is Ok <==> self.config.port is Some,
            self.config.port is None ==> r == Err::<DeployPlan, RukuError>(
                RukuError::PortUnavailable,
            ),
            r matches Ok(p) ==> {
                &&& p.port == self.config.port->0
                &&& p.image@ == image_reference(
                    self.name@,
                    match self.config.version {
                        Some(v) => Some(v@),
                        None => None,
                    },
                )
                &&& p.build.name@ == self.name@
                &&& p.build.path@ == self.path@
                &&& p.build.tags@.len() == 1
                &&& p.build.tags@[0]@ == p.image@
                &&& p.build.current_dir
            },
    {
        let port = match self.config.port {
            Some(p) => p,
            None => {
                return Err(RukuError::PortUnavailable);
            },
        };
        let image = get_image_name_with_version(self.name, &self.config.version);
        let mut tags: Vec<String> = Vec::new();
        tags.push(image.clone());
        let build = BuildRequest {
            name: self.name.to_owned(),
            path: self.path.to_owned(),
            tags,
            current_dir: true,
        };
        Ok(DeployPlan { image, port, build })
    }
}

} // verus!
