//! Presentation layer: the `Output` capability surface and its two
//! renderers, interactive and JSON-envelope, selected once at startup.

pub mod encode;
pub mod interactive;
pub mod json;

use vstd::prelude::*;
use crate::errors::AppError;
use crate::errors::spec_exit_code;

verus! {

/// Output mode for CLI presentation.
#[derive(Debug, Clone, Copy, PartialEq, Eq, Structural)]
pub enum OutputMode {
    /// Interactive terminal output with colors and formatting.
    Interactive,
    /// JSON output for machine-parseable responses.
    Json,
}

impl Default for OutputMode {
    /// Interactive output, the default for human users.
    fn default() -> (r: OutputMode)
        ensures
            r == OutputMode::Interactive,
    {
        OutputMode::Interactive
    }
}

/// The exit code the process ends with when an error is rendered under the
/// given output mode: the mode selects how the error is shown, never which
/// code the error taxonomy assigns.
pub open spec fn exit_code_for(mode: OutputMode, e: AppError) -> int {
    spec_exit_code(e)
}

/// Exit-code parity: for any error, the process exit code is the same
/// whichever output mode is active — both renderers consult the same
/// taxonomy mapping.
pub proof fn lemma_exit_code_mode_parity(e: AppError, m1: OutputMode, m2: OutputMode)
    ensures
        exit_code_for(m1, e) == exit_code_for(m2, e),
{
}

/// The output mode the startup flag selects.
pub open spec fn spec_output_mode(json: bool) -> OutputMode {
    if json {
        OutputMode::Json
    } else {
        OutputMode::Interactive
    }
}

/// Select the output mode from the startup flag: a pure function of the
/// flag, fixed for the process lifetime.
pub fn select_output_mode(json: bool) -> (r: OutputMode)
    ensures
        r == spec_output_mode(json),
{
    if json {
        OutputMode::Json
    } else {
        OutputMode::Interactive
    }
}

/// The exit code owed to an error under the active output mode.
pub fn exit_code_for_mode(mode: OutputMode, error: &AppError) -> (r: i32)
    ensures
        r as int == exit_code_for(mode, *error),
{
    crate::errors::determine_exit_code(error)
}

/// The capability surface every command handler renders through: how a
/// result is shown is the renderer's business alone. The `request_id`
/// parameter serves machine protocols that tag responses; the interactive
/// renderer ignores it. Success payloads arrive already encoded as JSON
/// text; the JSON renderer wraps them in the envelope, the interactive one
/// prints them for a human.
pub trait Output {
    /// The mode this renderer serves, as a specification-level fact: fixed
    /// by the implementing type, never by the call.
    spec fn spec_mode(&self) -> OutputMode;

    /// Display a successful result; `value_json` holds the already-encoded
    /// result value.
    fn success(&self, value_json: &str, request_id: Option<i64>);

    /// Display an error with its code.
    fn error(&self, err: &AppError, code: i32, request_id: Option<i64>);

    /// Display a progress message.
    fn progress(&self, message: &str);

    /// Display tabular data with an optional title.
    fn table(&self, title: Option<&str>, headers: &Vec<String>, rows: &Vec<Vec<String>>);

    /// The mode this renderer serves.
    fn mode(&self) -> (r: OutputMode)
        ensures
            r == self.spec_mode(),
    ;
}

/// Create the renderer for the requested mode: a pure function of the mode
/// flag, fixed for the process lifetime. Each renderer type pins its mode
/// through `spec_mode`, and `Output::mode`'s contract reports exactly that;
/// the verifier takes no `ensures` on a boxed trait-object return and loses
/// the concrete type at the coercion, so the selection itself stands here
/// as the two-arm match, one renderer type per mode.
pub fn create_output(mode: OutputMode) -> (r: Box<dyn Output>) {
    match mode {
        OutputMode::Interactive => Box::new(interactive::InteractiveOutput::new()),
        OutputMode::Json => Box::new(json::JsonOutput::new()),
    }
}

} // verus!
