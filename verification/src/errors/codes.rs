//! Error codes organized by range.
//!
//! Ranges:
//! - `-31xxx`: validation errors (schema, field, format)
//! - `-30xxx`: asset errors (not found, already exists, in use)
//! - `-29xxx`: project errors (not initialized, not registered, already exists)
//! - `-28xxx`: SDK errors (not found, schema load failed)

use vstd::prelude::*;

verus! {

/// Schema validation failed (e.g., JSON doesn't match expected structure)
pub const ERR_VALIDATION_SCHEMA: i32 = -31001;

/// Field validation failed (e.g., required field missing, invalid value)
pub const ERR_VALIDATION_FIELD: i32 = -31002;

/// Format validation failed (e.g., invalid date format, malformed ID)
pub const ERR_VALIDATION_FORMAT: i32 = -31003;

/// Asset not found in the project
pub const ERR_ASSET_NOT_FOUND: i32 = -30001;

/// Asset with this name/ID already exists
pub const ERR_ASSET_ALREADY_EXISTS: i32 = -30002;

/// Asset is referenced by other assets and cannot be modified/deleted
pub const ERR_ASSET_IN_USE: i32 = -30003;

/// Project directory exists but has no .amproject file
pub const ERR_PROJECT_NOT_INITIALIZED: i32 = -29001;

/// Project exists on disk but is not registered in the database
pub const ERR_PROJECT_NOT_REGISTERED: i32 = -29002;

/// A project with this name already exists
pub const ERR_PROJECT_ALREADY_EXISTS: i32 = -29003;

/// Failed to copy template files during project initialization
pub const ERR_TEMPLATE_COPY_FAILED: i32 = -29004;

/// Amplitude SDK installation not found (AM_SDK_PATH not set or invalid)
pub const ERR_SDK_NOT_FOUND: i32 = -28001;

/// Failed to load SDK schema files (.bfbs files)
pub const ERR_SDK_SCHEMA_LOAD_FAILED: i32 = -28002;

/// The error code lies in the validation range (`-31xxx`).
pub open spec fn in_validation_range(code: int) -> bool {
    -31999 <= code <= -31000
}

/// The error code lies in the asset range (`-30xxx`).
pub open spec fn in_asset_range(code: int) -> bool {
    -30999 <= code <= -30000
}

/// The error code lies in the project range (`-29xxx`).
pub open spec fn in_project_range(code: int) -> bool {
    -29999 <= code <= -29000
}

/// The error code lies in the SDK/environment range (`-28xxx`).
pub open spec fn in_sdk_range(code: int) -> bool {
    -28999 <= code <= -28000
}

} // verus!
