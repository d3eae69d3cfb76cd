//! Verbosity levels, counted by `-v` flags.
use vstd::prelude::*;

verus! {

/// No `-v` flag: errors only.
pub const OFF: u8 = 0;

/// One `-v` flag.
pub const INFO: u8 = 1;

/// Two `-v` flags.
pub const DEBUG: u8 = 2;

/// Three or more `-v` flags.
pub const TRACE: u8 = 3;

} // verus!
