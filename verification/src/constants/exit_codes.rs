//! Process exit codes.
use vstd::prelude::*;

verus! {

/// Exit code of a successful run.
pub const SUCCESS: i32 = 0;

/// Exit code of a failed run.
pub const FAILURE: i32 = 1;

} // verus!
