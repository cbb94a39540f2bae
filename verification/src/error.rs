//! The error taxonomy of the pipeline.
//!
//! Every fallible pipeline operation reports one of these variants; the host
//! converts them into its own user-visible failure mechanism. The pipeline
//! itself never retries.

use vstd::prelude::*;

verus! {

/// One error for each way the compile/load/evaluate pipeline can fail.
#[derive(Debug, Clone, PartialEq, Eq)]
pub enum PlRustError {
    /// The source body failed syntactic validation and cannot be rendered
    /// into the scaffold.
    Template,
    /// Provisioning the generated unit onto the working directory failed;
    /// the message is the host's description of the filesystem failure.
    Io(String),
    /// The toolchain exited unsuccessfully; the captured process output is
    /// returned verbatim for display.
    Compile { stdout: String, stderr: String },
    /// The artifact could not be opened or mapped at evaluate time; the
    /// message is the host's description of the failure.
    Load(String),
    /// The artifact was mapped but the expected exported entry point was
    /// absent from it.
    SymbolNotFound(String),
    /// The call context handed to the call handler was null.
    NullFunctionCallInfo,
    /// The function manager record behind the call context was null.
    NullFmgrInfo,
    /// The host refused validator access for the function being checked.
    CheckFunctionValidatorAccess,
}

} // verus!
