//! Runtime support for the C standard library functions the compiler
//! recognizes: today only initialization, as the host C runtime provides
//! the functions themselves at link time.
use vstd::prelude::*;

use crate::diag::CompileError;

verus! {

/// Prepares standard library support; the host C runtime needs no help.
pub fn init() -> (r: Result<(), CompileError>)
    ensures
        r is Ok,
{
    Ok(())
}

} // verus!
