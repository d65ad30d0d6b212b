//! Structured error handling: the error taxonomy, the `CliError` type with
//! What/Why/Fix components, and the mapping from errors to process exit codes.

pub mod codes;
pub mod exit_codes;

use vstd::prelude::*;
use vstd::string::StringExecFns;

verus! {

/// Structured CLI error with What/Why/Fix components.
#[derive(Debug)]
pub struct CliError {
    /// Error code from the `codes` module
    pub code: i32,
    /// What operation failed
    pub what: String,
    /// Why it failed
    pub why: String,
    /// How to fix it (defaults to a suggestion based on the error code)
    pub suggestion: String,
    /// Optional context (file path, asset name, etc.)
    pub context: Option<String>,
}

/// The error type name that `error_type_name` returns for a code:
/// a specific name for a specific code, the generic name of the code's
/// range otherwise, and `"unknown_error"` outside every range.
pub open spec fn spec_error_type_name(code: int) -> Seq<char> {
    if code == codes::ERR_VALIDATION_SCHEMA {
        "schema_validation_error"@
    } else if code == codes::ERR_VALIDATION_FIELD {
        "field_validation_error"@
    } else if code == codes::ERR_VALIDATION_FORMAT {
        "format_validation_error"@
    } else if codes::in_validation_range(code) {
        "validation_error"@
    } else if code == codes::ERR_ASSET_NOT_FOUND {
        "asset_not_found"@
    } else if code == codes::ERR_ASSET_ALREADY_EXISTS {
        "asset_already_exists"@
    } else if code == codes::ERR_ASSET_IN_USE {
        "asset_in_use"@
    } else if codes::in_asset_range(code) {
        "asset_error"@
    } else if code == codes::ERR_PROJECT_NOT_INITIALIZED {
        "project_not_initialized"@
    } else if code == codes::ERR_PROJECT_NOT_REGISTERED {
        "project_not_registered"@
    } else if code == codes::ERR_PROJECT_ALREADY_EXISTS {
        "project_already_exists"@
    } else if code == codes::ERR_TEMPLATE_COPY_FAILED {
        "template_copy_failed"@
    } else if codes::in_project_range(code) {
        "project_error"@
    } else if code == codes::ERR_SDK_NOT_FOUND {
        "sdk_not_found"@
    } else if code == codes::ERR_SDK_SCHEMA_LOAD_FAILED {
        "schema_load_failed"@
    } else if codes::in_sdk_range(code) {
        "sdk_error"@
    } else {
        "unknown_error"@
    }
}

/// The default suggestion that `error_suggestion` returns for a code:
/// a specific suggestion for a specific code, a generic fallback for the
/// code's range otherwise.
pub open spec fn spec_error_suggestion(code: int) -> Seq<char> {
    if code == codes::ERR_PROJECT_NOT_REGISTERED {
        "Register the project with 'am project register <path>'"@
    } else if code == codes::ERR_PROJECT_NOT_INITIALIZED {
        "Initialize a project with 'am project init <name>'"@
    } else if code == codes::ERR_PROJECT_ALREADY_EXISTS {
        "Use a different name or remove the existing project first"@
    } else if code == codes::ERR_TEMPLATE_COPY_FAILED {
        "Check file permissions and ensure the template path is correct"@
    } else if code == codes::ERR_SDK_NOT_FOUND {
        "Set the AM_SDK_PATH environment variable to your SDK installation"@
    } else if code == codes::ERR_SDK_SCHEMA_LOAD_FAILED {
        "Verify your SDK installation is complete and AM_SDK_PATH is correct"@
    } else if code == codes::ERR_ASSET_NOT_FOUND {
        "Verify the asset name or create it with the appropriate create command"@
    } else if code == codes::ERR_ASSET_ALREADY_EXISTS {
        "Use a different name or delete the existing asset first"@
    } else if code == codes::ERR_ASSET_IN_USE {
        "Remove references to this asset from other assets before modifying"@
    } else if code == codes::ERR_VALIDATION_SCHEMA {
        "Check that your JSON structure matches the expected schema"@
    } else if code == codes::ERR_VALIDATION_FIELD {
        "Check your input values and correct the invalid field"@
    } else if code == codes::ERR_VALIDATION_FORMAT {
        "Check the format of your input and try again"@
    } else if codes::in_validation_range(code) {
        "Check your input values and try again"@
    } else if codes::in_asset_range(code) {
        "Verify the asset exists or create it first"@
    } else if codes::in_project_range(code) {
        "Initialize a project or register an existing one"@
    } else if codes::in_sdk_range(code) {
        "Set AM_SDK_PATH environment variable"@
    } else {
        "Check the error message for details"@
    }
}

/// Map an error code to a human-readable error type name, used by the JSON
/// renderer so machine consumers get a stable `type` field.
pub fn error_type_name(code: i32) -> (r: String)
    ensures
        r@ == spec_error_type_name(code as int),
{
    if code == codes::ERR_VALIDATION_SCHEMA {
        "schema_validation_error".to_owned()
    } else if code == codes::ERR_VALIDATION_FIELD {
        "field_validation_error".to_owned()
    } else if code == codes::ERR_VALIDATION_FORMAT {
        "format_validation_error".to_owned()
    } else if -31999 <= code && code <= -31000 {
        "validation_error".to_owned()
    } else if code == codes::ERR_ASSET_NOT_FOUND {
        "asset_not_found".to_owned()
    } else if code == codes::ERR_ASSET_ALREADY_EXISTS {
        "asset_already_exists".to_owned()
    } else if code == codes::ERR_ASSET_IN_USE {
        "asset_in_use".to_owned()
    } else if -30999 <= code && code <= -30000 {
        "asset_error".to_owned()
    } else if code == codes::ERR_PROJECT_NOT_INITIALIZED {
        "project_not_initialized".to_owned()
    } else if code == codes::ERR_PROJECT_NOT_REGISTERED {
        "project_not_registered".to_owned()
    } else if code == codes::ERR_PROJECT_ALREADY_EXISTS {
        "project_already_exists".to_owned()
    } else if code == codes::ERR_TEMPLATE_COPY_FAILED {
        "template_copy_failed".to_owned()
    } else if -29999 <= code && code <= -29000 {
        "project_error".to_owned()
    } else if code == codes::ERR_SDK_NOT_FOUND {
        "sdk_not_found".to_owned()
    } else if code == codes::ERR_SDK_SCHEMA_LOAD_FAILED {
        "schema_load_failed".to_owned()
    } else if -28999 <= code && code <= -28000 {
        "sdk_error".to_owned()
    } else {
        "unknown_error".to_owned()
    }
}

/// Get the default suggestion for an error code.
pub fn error_suggestion(code: i32) -> (r: String)
    ensures
        r@ == spec_error_suggestion(code as int),
{
    if code == codes::ERR_PROJECT_NOT_REGISTERED {
        "Register the project with 'am project register <path>'".to_owned()
    } else if code == codes::ERR_PROJECT_NOT_INITIALIZED {
        "Initialize a project with 'am project init <name>'".to_owned()
    } else if code == codes::ERR_PROJECT_ALREADY_EXISTS {
        "Use a different name or remove the existing project first".to_owned()
    } else if code == codes::ERR_TEMPLATE_COPY_FAILED {
        "Check file permissions and ensure the template path is correct".to_owned()
    } else if code == codes::ERR_SDK_NOT_FOUND {
        "Set the AM_SDK_PATH environment variable to your SDK installation".to_owned()
    } else if code == codes::ERR_SDK_SCHEMA_LOAD_FAILED {
        "Verify your SDK installation is complete and AM_SDK_PATH is correct".to_owned()
    } else if code == codes::ERR_ASSET_NOT_FOUND {
        "Verify the asset name or create it with the appropriate create command".to_owned()
    } else if code == codes::ERR_ASSET_ALREADY_EXISTS {
        "Use a different name or delete the existing asset first".to_owned()
    } else if code == codes::ERR_ASSET_IN_USE {
        "Remove references to this asset from other assets before modifying".to_owned()
    } else if code == codes::ERR_VALIDATION_SCHEMA {
        "Check that your JSON structure matches the expected schema".to_owned()
    } else if code == codes::ERR_VALIDATION_FIELD {
        "Check your input values and correct the invalid field".to_owned()
    } else if code == codes::ERR_VALIDATION_FORMAT {
        "Check the format of your input and try again".to_owned()
    } else if -31999 <= code && code <= -31000 {
        "Check your input values and try again".to_owned()
    } else if -30999 <= code && code <= -30000 {
        "Verify the asset exists or create it first".to_owned()
    } else if -29999 <= code && code <= -29000 {
        "Initialize a project or register an existing one".to_owned()
    } else if -28999 <= code && code <= -28000 {
        "Set AM_SDK_PATH environment variable".to_owned()
    } else {
        "Check the error message for details".to_owned()
    }
}

impl CliError {
    /// Create a new CliError with the given code, what, and why.
    ///
    /// The suggestion is automatically populated based on the error code.
    /// Use `with_suggestion()` to override with a custom suggestion.
    pub fn new(code: i32, what: &str, why: &str) -> (r: CliError)
        ensures
            r.code == code,
            r.what@ == what@,
            r.why@ == why@,
            r.suggestion@ == spec_error_suggestion(code as int),
            r.context is None,
    {
        CliError {
            code,
            what: what.to_owned(),
            why: why.to_owned(),
            suggestion: error_suggestion(code),
            context: None,
        }
    }

    /// Override the default suggestion with a custom one.
    pub fn with_suggestion(self, suggestion: &str) -> (r: CliError)
        ensures
            r.code == self.code,
            r.what@ == self.what@,
            r.why@ == self.why@,
            r.suggestion@ == suggestion@,
            r.context == self.context,
    {
        CliError { suggestion: suggestion.to_owned(), ..self }
    }

    /// Add optional context (file path, asset name, etc.).
    pub fn with_context(self, context: &str) -> (r: CliError)
        ensures
            r.code == self.code,
            r.what@ == self.what@,
            r.why@ == self.why@,
            r.suggestion@ == self.suggestion@,
            r.context matches Some(c) && c@ == context@,
    {
        CliError { context: Some(context.to_owned()), ..self }
    }

    /// Get the error type label for JSON serialization.
    pub fn type_label(&self) -> (r: String)
        ensures
            r@ == spec_error_type_name(self.code as int),
    {
        error_type_name(self.code)
    }

    /// The one-line human-readable message for this error:
    /// `what: why` with the context appended in parentheses when present.
    pub open spec fn spec_message(self) -> Seq<char> {
        match self.context {
            Some(c) => self.what@ + ": "@ + self.why@ + " ("@ + c@ + ")"@,
            None => self.what@ + ": "@ + self.why@,
        }
    }

    /// Render the one-line message (`what: why`, plus context if present).
    pub fn message(&self) -> (r: String)
        ensures
            r@ == self.spec_message(),
    {
        let base = self.what.clone().concat(": ").concat(self.why.as_str());
        match &self.context {
            Some(c) => base.concat(" (").concat(c.as_str()).concat(")"),
            None => base,
        }
    }
}

impl Clone for CliError {
    /// Field-for-field copy of the error.
    fn clone(&self) -> (r: CliError)
        ensures
            r.code == self.code,
            r.what@ == self.what@,
            r.why@ == self.why@,
            r.suggestion@ == self.suggestion@,
            r.context is Some <==> self.context is Some,
            r.context matches Some(c) ==> c@ == self.context->0@,
    {
        CliError {
            code: self.code,
            what: self.what.clone(),
            why: self.why.clone(),
            suggestion: self.suggestion.clone(),
            context: match &self.context {
                Some(c) => Some(c.clone()),
                None => None,
            },
        }
    }
}

/// Create an error for a project that exists but is not registered.
pub fn project_not_registered(name: &str) -> (r: CliError)
    ensures
        r.code == codes::ERR_PROJECT_NOT_REGISTERED,
        r.what@ == "Project '"@ + name@ + "' is not registered"@,
        r.why@ == "The project directory exists but is not tracked in the database"@,
        r.suggestion@ == spec_error_suggestion(codes::ERR_PROJECT_NOT_REGISTERED as int),
        r.context is None,
{
    let what = "Project '".to_owned().concat(name).concat("' is not registered");
    CliError::new(
        codes::ERR_PROJECT_NOT_REGISTERED,
        what.as_str(),
        "The project directory exists but is not tracked in the database",
    )
}

/// Create an error for a project that already exists.
pub fn project_already_exists(name: &str) -> (r: CliError)
    ensures
        r.code == codes::ERR_PROJECT_ALREADY_EXISTS,
        r.what@ == "Project '"@ + name@ + "' already exists"@,
        r.why@ == "A project with this name is already registered"@,
        r.suggestion@ == spec_error_suggestion(codes::ERR_PROJECT_ALREADY_EXISTS as int),
        r.context is None,
{
    let what = "Project '".to_owned().concat(name).concat("' already exists");
    CliError::new(
        codes::ERR_PROJECT_ALREADY_EXISTS,
        what.as_str(),
        "A project with this name is already registered",
    )
}

/// Create an error for a project that is not initialized.
pub fn project_not_initialized(path: &str) -> (r: CliError)
    ensures
        r.code == codes::ERR_PROJECT_NOT_INITIALIZED,
        r.what@ == "Project is not initialized"@,
        r.why@ == "The directory does not contain a .amproject file"@,
        r.suggestion@ == spec_error_suggestion(codes::ERR_PROJECT_NOT_INITIALIZED as int),
        r.context matches Some(c) && c@ == path@,
{
    CliError::new(
        codes::ERR_PROJECT_NOT_INITIALIZED,
        "Project is not initialized",
        "The directory does not contain a .amproject file",
    ).with_context(path)
}

/// Create a validation error for an invalid field.
pub fn validation_error(field: &str, reason: &str) -> (r: CliError)
    ensures
        r.code == codes::ERR_VALIDATION_FIELD,
        r.what@ == "Invalid value for field '"@ + field@ + "'"@,
        r.why@ == reason@,
        r.suggestion@ == spec_error_suggestion(codes::ERR_VALIDATION_FIELD as int),
        r.context is None,
{
    let what = "Invalid value for field '".to_owned().concat(field).concat("'");
    CliError::new(codes::ERR_VALIDATION_FIELD, what.as_str(), reason)
}

/// Create an error for an asset that was not found.
pub fn asset_not_found(asset_type: &str, name: &str) -> (r: CliError)
    ensures
        r.code == codes::ERR_ASSET_NOT_FOUND,
        r.what@ == asset_type@ + " '"@ + name@ + "' not found"@,
        r.why@ == "The requested asset does not exist in this project"@,
        r.suggestion@ == spec_error_suggestion(codes::ERR_ASSET_NOT_FOUND as int),
        r.context is None,
{
    let what = asset_type.to_owned().concat(" '").concat(name).concat("' not found");
    CliError::new(
        codes::ERR_ASSET_NOT_FOUND,
        what.as_str(),
        "The requested asset does not exist in this project",
    )
}

/// Create an error for an asset that already exists.
pub fn asset_already_exists(asset_type: &str, name: &str) -> (r: CliError)
    ensures
        r.code == codes::ERR_ASSET_ALREADY_EXISTS,
        r.what@ == asset_type@ + " '"@ + name@ + "' already exists"@,
        r.why@ == "An asset with this name already exists in the project"@,
        r.suggestion@ == spec_error_suggestion(codes::ERR_ASSET_ALREADY_EXISTS as int),
        r.context is None,
{
    let what = asset_type.to_owned().concat(" '").concat(name).concat("' already exists");
    CliError::new(
        codes::ERR_ASSET_ALREADY_EXISTS,
        what.as_str(),
        "An asset with this name already exists in the project",
    )
}

/// Create an error for the SDK not being found.
pub fn sdk_not_found() -> (r: CliError)
    ensures
        r.code == codes::ERR_SDK_NOT_FOUND,
        r.what@ == "Amplitude SDK not found"@,
        r.why@ == "The AM_SDK_PATH environment variable is not set or points to an invalid location"@,
        r.suggestion@ == spec_error_suggestion(codes::ERR_SDK_NOT_FOUND as int),
        r.context is None,
{
    CliError::new(
        codes::ERR_SDK_NOT_FOUND,
        "Amplitude SDK not found",
        "The AM_SDK_PATH environment variable is not set or points to an invalid location",
    )
}

/// Any failure a command can surface: either a classified `CliError` from the
/// taxonomy, or an unexpected failure carrying only a message. This tagged
/// model lets presentation code match exhaustively instead of probing with a
/// runtime type check.
#[derive(Debug)]
pub enum AppError {
    /// A classified error from the taxonomy.
    Cli(CliError),
    /// An unexpected, unclassified failure (I/O faults, store faults, bugs).
    Unexpected(String),
}

impl AppError {
    /// Wrap a plain message as an unexpected failure.
    pub fn unexpected(message: &str) -> (r: AppError)
        ensures
            r matches AppError::Unexpected(m) && m@ == message@,
    {
        AppError::Unexpected(message.to_owned())
    }

    /// The one-line human-readable message for this error.
    pub open spec fn spec_message(self) -> Seq<char> {
        match self {
            AppError::Cli(e) => e.spec_message(),
            AppError::Unexpected(m) => m@,
        }
    }

    /// Render the one-line message.
    pub fn message(&self) -> (r: String)
        ensures
            r@ == self.spec_message(),
    {
        match self {
            AppError::Cli(e) => e.message(),
            AppError::Unexpected(m) => m.clone(),
        }
    }

    /// The error code: the `CliError`'s own code, or 0 for an unexpected failure.
    pub fn code(&self) -> (r: i32)
        ensures
            r == (match *self {
                AppError::Cli(e) => e.code as int,
                AppError::Unexpected(_) => 0,
            }),
    {
        match self {
            AppError::Cli(e) => e.code,
            AppError::Unexpected(_) => 0,
        }
    }
}

/// The exit code owed to an error: SDK/environment-range codes are system
/// errors (2); every other classified code is a user error (1); an error that
/// is not a `CliError` at all defaults conservatively to a system error (2).
pub open spec fn spec_exit_code(e: AppError) -> int {
    match e {
        AppError::Cli(c) => if codes::in_sdk_range(c.code as int) {
            exit_codes::SYSTEM_ERROR as int
        } else {
            exit_codes::USER_ERROR as int
        },
        AppError::Unexpected(_) => exit_codes::SYSTEM_ERROR as int,
    }
}

/// Determine the appropriate exit code for an error.
///
/// SDK errors (`-28xxx`) are environment issues and map to the system-error
/// exit status; all other classified codes map to the user-error exit status;
/// unclassified failures conservatively map to the system-error exit status.
pub fn determine_exit_code(error: &AppError) -> (r: i32)
    ensures
        r == spec_exit_code(*error),
{
    match error {
        AppError::Cli(cli_err) => {
            if -28999 <= cli_err.code && cli_err.code <= -28000 {
                exit_codes::SYSTEM_ERROR
            } else {
                exit_codes::USER_ERROR
            }
        },
        AppError::Unexpected(_) => exit_codes::SYSTEM_ERROR,
    }
}

/// What went wrong inside the embedded store, classified just enough for the
/// layers above: a uniqueness violation, or any other storage fault.
#[derive(Debug)]
pub enum StoreErrorKind {
    /// A row violated a uniqueness or primary-key constraint.
    Duplicate,
    /// Any other failure reported by the store.
    Other,
}

/// A failure reported by the embedded store, with the store's own message.
#[derive(Debug)]
pub struct StoreError {
    /// The classification of the failure.
    pub kind: StoreErrorKind,
    /// The message the store reported.
    pub message: String,
}

impl StoreError {
    /// Wrap a storage failure as an unexpected application error.
    pub fn into_app_error(self) -> (r: AppError)
        ensures
            r matches AppError::Unexpected(m) && m@ == self.message@,
    {
        AppError::Unexpected(self.message)
    }
}

} // verus!
