//! The runner's rules: how a compiled program's exit status is judged,
//! and the pipeline's environment set-up and tear-down hooks. Launching
//! the child process itself is the caller's work; the judgement of its
//! exit status is made here.
use vstd::prelude::*;

use crate::diag::CompileError;

pub mod stdlib;

verus! {

/// Prepares the runtime environment for a pipeline run. Nothing needs
/// setting up today; the hook stays so callers have one place to call.
pub fn init() -> (r: Result<(), CompileError>)
    ensures
        r is Ok,
{
    Ok(())
}

/// Releases runtime resources after a pipeline run; the pipeline owns no
/// state that outlives it, so there is nothing to release.
pub fn cleanup() -> (r: Result<(), CompileError>)
    ensures
        r is Ok,
{
    Ok(())
}

/// How the runner judges the compiled program's exit: status zero is
/// success; any other status is the program's own failure, reported as
/// such and never as a pipeline defect.
pub fn exit_status_outcome(status: i32) -> (r: Result<(), CompileError>)
    ensures
        status == 0 <==> r is Ok,
        (match r {
            Ok(_) => true,
            Err(e) => e == (CompileError::RuntimeFailure { exit_code: status }),
        }),
{
    if status == 0 {
        Ok(())
    } else {
        Err(CompileError::RuntimeFailure { exit_code: status })
    }
}

} // verus!
