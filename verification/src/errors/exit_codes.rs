//! Exit codes for the CLI process, following standard Unix conventions.

use vstd::prelude::*;

verus! {

/// Command completed successfully.
pub const SUCCESS: i32 = 0;

/// Error caused by invalid user input or state.
/// Examples: invalid input, missing file, validation failure, asset not found.
pub const USER_ERROR: i32 = 1;

/// Error caused by environment or system issues.
/// Examples: database failure, disk full, SDK not found, unexpected panic.
pub const SYSTEM_ERROR: i32 = 2;

} // verus!
