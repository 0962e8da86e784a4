use vstd::prelude::*;

verus! {

/// The failure taxonomy of a build run. Every variant is fatal to the run
/// that raises it; icon generation is the one graceful-degradation path and
/// never raises one of these.
#[derive(Debug)]
pub enum BuildError {
    /// A required external command is not installed; raised before any
    /// mutation.
    ToolchainMissing { tool: String },
    /// A synchronously executed command exited with a non-zero status.
    /// `exit_status` is `None` when the process was ended by a signal.
    CommandFailed { program: String, args: Vec<String>, exit_status: Option<i32> },
    /// A command could not be launched at all.
    ExecutableNotFound { program: String },
    /// An asynchronously executed stage failed; surfaced in registration
    /// order once the stage is waited on.
    TaskFailed { name: String, status: Option<i32> },
    /// A prerequisite artifact was absent when bundle assembly began.
    MissingArtifact { stage: String },
    /// An I/O failure outside the library's decisions; carried through
    /// unchanged and fatal.
    Filesystem { detail: String },
}

} // verus!
