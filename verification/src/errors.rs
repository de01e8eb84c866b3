//! The error taxonomy of the control plane. Every error is terminal for the
//! invocation that raised it: there is no retry, no rollback and no local
//! recovery anywhere in the core. The outermost command dispatch alone
//! decides to terminate the process and with which exit code.

use vstd::prelude::*;

verus! {

/// A terminal failure of a deployment or Git-gateway invocation.
#[derive(Debug, Clone, PartialEq, Eq)]
pub enum RukuError {
    /// No manifest file was found at the working-tree root.
    ConfigMissing,
    /// The manifest file exists but could not be parsed; carries the
    /// underlying parser message.
    ConfigParseError { message: String },
    /// The manifest parsed but one of its fields is unacceptable.
    ConfigInvalid { field: String, reason: String },
    /// A filesystem or Git command step failed; `step` names which one, so
    /// that operators can tell the failing steps apart.
    GitOperationFailed { step: String },
    /// A container-engine call failed; `operation` names the call.
    EngineCallFailed { operation: String },
    /// The build engine reported a failure; carries its message verbatim.
    BuildFailed { message: String },
    /// No published port is configured, so the deployment is meaningless
    /// and must not proceed.
    PortUnavailable,
}

impl RukuError {
    /// A human-readable description of the failure, for the error channel.
    pub fn describe(&self) -> (r: String)
        ensures
            r@ == self.describe_spec(),
    {
        match self {
            RukuError::ConfigMissing => "ruku.yml file is missing in the repository".to_owned(),
            RukuError::ConfigParseError { message } => "Error parsing ruku.yml file: ".to_owned()
                .concat(message.as_str()),
            RukuError::ConfigInvalid { field, reason } => "Error validating ruku.yml file: "
                .to_owned().concat(field.as_str()).concat(": ").concat(reason.as_str()),
            RukuError::GitOperationFailed { step } => "Error executing git step: ".to_owned()
                .concat(step.as_str()),
            RukuError::EngineCallFailed { operation } => "Failed to ".to_owned().concat(
                operation.as_str(),
            ).concat(" container"),
            RukuError::BuildFailed { message } => "Error creating Docker image: ".to_owned()
                .concat(message.as_str()),
            RukuError::PortUnavailable => "No port specified, skipping deployment".to_owned(),
        }
    }

    /// What [`RukuError::describe`] returns for each variant.
    pub open spec fn describe_spec(&self) -> Seq<char> {
        match self {
            RukuError::ConfigMissing => "ruku.yml file is missing in the repository"@,
            RukuError::ConfigParseError { message } => "Error parsing ruku.yml file: "@
                + message@,
            RukuError::ConfigInvalid { field, reason } => "Error validating ruku.yml file: "@
                + field@ + ": "@ + reason@,
            RukuError::GitOperationFailed { step } => "Error executing git step: "@ + step@,
            RukuError::EngineCallFailed { operation } => "Failed to "@ + operation@
                + " container"@,
            RukuError::BuildFailed { message } => "Error creating Docker image: "@ + message@,
            RukuError::PortUnavailable => "No port specified, skipping deployment"@,
        }
    }
}

} // verus!
