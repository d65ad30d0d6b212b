//! Input abstraction for user prompts: commands ask through the `Input`
//! capability surface; the non-interactive implementation fails every call
//! with a message pointing at command-line arguments instead, and JSON
//! output mode forces it.

use vstd::prelude::*;
use vstd::string::StringExecFns;
use crate::errors::AppError;

verus! {

/// Input mode for CLI prompting.
#[derive(Debug, Clone, Copy, PartialEq, Eq, Structural)]
pub enum InputMode {
    /// Interactive terminal prompting.
    Interactive,
    /// Prompts are disabled; any attempt to prompt/select/confirm returns an
    /// error suggesting CLI args.
    NonInteractive,
}

impl Default for InputMode {
    /// Interactive prompting, the default for human users.
    fn default() -> (r: InputMode)
        ensures
            r == InputMode::Interactive,
    {
        InputMode::Interactive
    }
}

/// The input mode the flags select: machine/JSON mode forces non-interactive
/// input even when not separately requested.
pub open spec fn spec_input_mode(json: bool, non_interactive: bool) -> InputMode {
    if json || non_interactive {
        InputMode::NonInteractive
    } else {
        InputMode::Interactive
    }
}

/// Select the input mode from the startup flags.
pub fn select_input_mode(json: bool, non_interactive: bool) -> (r: InputMode)
    ensures
        r == spec_input_mode(json, non_interactive),
{
    if json || non_interactive {
        InputMode::NonInteractive
    } else {
        InputMode::Interactive
    }
}

/// Abstraction over user input mechanisms. Commands ask through this trait
/// so that non-interactive behavior is enforced uniformly and JSON mode can
/// imply non-interactive input. The interactive implementation belongs to
/// the terminal front end; the non-interactive one lives here and fails
/// every call.
pub trait Input {
    /// Prompt the user for text input, with an optional placeholder.
    fn prompt_text(&self, prompt: &str, placeholder: Option<&str>) -> Result<String, AppError>;

    /// Prompt the user to select one option from a list; the return value is
    /// the selected label.
    fn select(&self, prompt: &str, options: &Vec<String>) -> Result<String, AppError>;

    /// Prompt the user for confirmation (yes/no).
    fn confirm(&self, prompt: &str, default: Option<bool>) -> Result<bool, AppError>;
}

/// Marker for the interactive input mechanism; its `Input` implementation
/// belongs to the terminal front end, which owns the prompt machinery.
pub struct InteractiveInput;

impl InteractiveInput {
    /// Create a new InteractiveInput instance.
    pub fn new() -> (r: InteractiveInput) {
        InteractiveInput
    }
}

/// Input mechanism for non-interactive runs: every call fails immediately
/// with a message instructing the caller to supply the value via a
/// command-line argument instead.
pub struct NonInteractiveInput;

/// The message a blocked interactive call reports.
pub open spec fn spec_blocked_message(kind: Seq<char>, prompt: Seq<char>) -> Seq<char> {
    "Interactive "@ + kind + " '"@ + prompt
        + "' blocked: non-interactive mode is enabled. Please provide the required input via command-line arguments instead."@
}

impl NonInteractiveInput {
    /// Create a new NonInteractiveInput instance.
    pub fn new() -> (r: NonInteractiveInput) {
        NonInteractiveInput
    }

    /// The error a blocked call of the given kind reports.
    fn blocked(&self, kind: &str, prompt: &str) -> (r: AppError)
        ensures
            r matches AppError::Unexpected(m) && m@ == spec_blocked_message(kind@, prompt@),
    {
        let m = "Interactive ".to_owned().concat(kind).concat(" '").concat(prompt).concat(
            "' blocked: non-interactive mode is enabled. Please provide the required input via command-line arguments instead.",
        );
        AppError::Unexpected(m)
    }

    /// Fails: prompts are disabled in non-interactive mode.
    pub fn prompt_text(&self, prompt: &str, _placeholder: Option<&str>) -> (r: Result<
        String,
        AppError,
    >)
        ensures
            r matches Err(AppError::Unexpected(m)) && m@ == spec_blocked_message(
                "prompt"@,
                prompt@,
            ),
    {
        Err(self.blocked("prompt", prompt))
    }

    /// Fails: selections are disabled in non-interactive mode.
    pub fn select(&self, prompt: &str, _options: &Vec<String>) -> (r: Result<String, AppError>)
        ensures
            r matches Err(AppError::Unexpected(m)) && m@ == spec_blocked_message(
                "selection"@,
                prompt@,
            ),
    {
        Err(self.blocked("selection", prompt))
    }

    /// Fails: confirmations are disabled in non-interactive mode.
    pub fn confirm(&self, prompt: &str, _default: Option<bool>) -> (r: Result<bool, AppError>)
        ensures
            r matches Err(AppError::Unexpected(m)) && m@ == spec_blocked_message(
                "confirmation"@,
                prompt@,
            ),
    {
        Err(self.blocked("confirmation", prompt))
    }
}

/// The first position at which a label equals the selected text, if any:
/// what maps a prompt's answer back to the option it named. With duplicate
/// labels the first match wins.
#[verifier::loop_isolation(false)]
pub fn index_of_label(labels: &Vec<String>, selected: &str) -> (r: Option<usize>)
    ensures
        r matches Some(i) ==> i < labels@.len() && labels@[i as int]@ == selected@ && (forall|
            j: int,
        |
            0 <= j < i ==> labels@[j]@ != selected@),
        r is None ==> forall|j: int| 0 <= j < labels@.len() ==> labels@[j]@ != selected@,
{
    let sel = selected.to_owned();
    let mut i: usize = 0;
    while i < labels.len()
        invariant
            0 <= i <= labels@.len(),
            sel@ == selected@,
            forall|j: int| 0 <= j < i ==> labels@[j]@ != selected@,
        decreases labels@.len() - i,
    {
        if labels[i] == sel {
            return Some(i);
        }
        i += 1;
    }
    None
}

impl Input for NonInteractiveInput {
    /// Fails with the blocked-prompt message.
    fn prompt_text(&self, prompt: &str, placeholder: Option<&str>) -> Result<String, AppError> {
        NonInteractiveInput::prompt_text(self, prompt, placeholder)
    }

    /// Fails with the blocked-selection message.
    fn select(&self, prompt: &str, options: &Vec<String>) -> Result<String, AppError> {
        NonInteractiveInput::select(self, prompt, options)
    }

    /// Fails with the blocked-confirmation message.
    fn confirm(&self, prompt: &str, default: Option<bool>) -> Result<bool, AppError> {
        NonInteractiveInput::confirm(self, prompt, default)
    }
}

} // verus!
