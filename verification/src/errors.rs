//! Failure kinds surfaced by the lifecycle core.

use vstd::prelude::*;
use vstd::string::StringExecFns;

verus! {

/// The runtime operation that a failure report names.
#[derive(Clone, Copy, PartialEq, Eq, Structural, Debug)]
pub enum Operation {
    CreateContainer,
    CopyInitScript,
    StartContainer,
    StopContainer,
    RemoveContainer,
    EnterContainer,
    ExecCommand,
}

/// Everything that can go wrong while driving the container runtime.
#[derive(Clone, Copy, PartialEq, Eq, Structural, Debug)]
pub enum Error {
    /// No candidate runtime executable could be spawned.
    RuntimeNotFound,
    /// A runtime subcommand exited non-zero or could not be spawned.
    OperationFailed(Operation),
    /// The in-container initialization command exited non-zero.
    InitScriptFailed,
    /// The temporary script file could not be written or made executable.
    ResourceIO,
}

impl Operation {
    pub open spec fn spec_label(&self) -> Seq<char> {
        match self {
            Operation::CreateContainer => "create container"@,
            Operation::CopyInitScript => "copy init script to container"@,
            Operation::StartContainer => "start container"@,
            Operation::StopContainer => "stop container"@,
            Operation::RemoveContainer => "remove container"@,
            Operation::EnterContainer => "enter container"@,
            Operation::ExecCommand => "exec command"@,
        }
    }

    /// The human-readable label of this operation.
    pub fn label(&self) -> (r: String)
        ensures
            r@ == self.spec_label(),
    {
        match self {
            Operation::CreateContainer => "create container".to_owned(),
            Operation::CopyInitScript => "copy init script to container".to_owned(),
            Operation::StartContainer => "start container".to_owned(),
            Operation::StopContainer => "stop container".to_owned(),
            Operation::RemoveContainer => "remove container".to_owned(),
            Operation::EnterContainer => "enter container".to_owned(),
            Operation::ExecCommand => "exec command".to_owned(),
        }
    }
}

impl Error {
    pub open spec fn spec_message(&self) -> Seq<char> {
        match self {
            Error::RuntimeNotFound => "Neither podman nor docker found in PATH"@,
            Error::OperationFailed(op) => "Failed to "@ + op.spec_label(),
            Error::InitScriptFailed => "Failed to run init script"@,
            Error::ResourceIO => "Failed to write init script"@,
        }
    }

    /// The human-readable report for this failure.
    pub fn message(&self) -> (r: String)
        ensures
            r@ == self.spec_message(),
    {
        match self {
            Error::RuntimeNotFound => "Neither podman nor docker found in PATH".to_owned(),
            Error::OperationFailed(op) => {
                let label = op.label();
                "Failed to ".to_owned().concat(label.as_str())
            },
            Error::InitScriptFailed => "Failed to run init script".to_owned(),
            Error::ResourceIO => "Failed to write init script".to_owned(),
        }
    }
}

} // verus!
