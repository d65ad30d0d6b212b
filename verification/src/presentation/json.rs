//! JSON output: machine-parseable response envelopes written to standard
//! output, exactly one line per `success`/`error` call, nothing on standard
//! error.

use vstd::prelude::*;
use vstd::string::StringExecFns;
use crate::errors::{AppError, spec_error_type_name, error_type_name};
use crate::presentation::{Output, OutputMode};
use crate::presentation::interactive::print_line;
use crate::presentation::encode::{
    dec_digits, escape_json, i32_to_string, json_escape, lemma_json_escape_no_newline,
    spec_i32_string,
};

verus! {

/// No character of the text is a newline: the text renders as one line.
pub open spec fn line_clean(s: Seq<char>) -> bool {
    forall|i: int| 0 <= i < s.len() ==> s[i] != '\n'
}

/// Structured error information for JSON error responses.
pub struct JsonErrorDetails {
    /// Numeric error code (from the error code ranges)
    pub code: i32,
    /// Error type category (validation_error, asset_error, etc.)
    pub type_: String,
    /// What failed
    pub message: String,
    /// Why it failed
    pub why: String,
    /// Actionable suggestion for resolving the error
    pub suggestion: String,
    /// Optional context (file path, asset name, etc.); omitted when absent
    pub context: Option<String>,
}

/// JSON response envelope.
pub struct JsonResponse<T> {
    /// Indicates success (true) or failure (false)
    pub ok: bool,
    /// The success value (present when ok=true)
    pub value: Option<T>,
    /// The error details (present when ok=false)
    pub error: Option<JsonErrorDetails>,
}

/// The generic suggestion for an error code's range.
pub open spec fn spec_suggestion_from_code(code: int) -> Seq<char> {
    if -31999 <= code <= -31000 {
        "Check your input values and try again"@
    } else if -30999 <= code <= -30000 {
        "Verify the asset exists or create it first"@
    } else if -29999 <= code <= -29000 {
        "Initialize a project or register an existing one"@
    } else if -28999 <= code <= -28000 {
        "Set AM_SDK_PATH environment variable"@
    } else {
        "Check the error message for details"@
    }
}

/// The error type the JSON renderer writes for a code. It differs from the
/// taxonomy's `spec_error_type_name` in one place: this mapping knows no
/// specific name for the template-copy failure, which falls back to the
/// project range's generic name.
pub open spec fn spec_error_type_from_code(code: int) -> Seq<char> {
    if code == crate::errors::codes::ERR_TEMPLATE_COPY_FAILED {
        "project_error"@
    } else {
        spec_error_type_name(code)
    }
}

/// Map an error code to its human-readable error type, for the JSON `type`
/// field.
pub fn error_type_from_code(code: i32) -> (r: String)
    ensures
        r@ == spec_error_type_from_code(code as int),
{
    if code == crate::errors::codes::ERR_TEMPLATE_COPY_FAILED {
        "project_error".to_owned()
    } else {
        error_type_name(code)
    }
}

/// The generic fallback suggestion for an error code's range.
pub fn suggestion_from_code(code: i32) -> (r: String)
    ensures
        r@ == spec_suggestion_from_code(code as int),
{
    if -31999 <= code && code <= -31000 {
        "Check your input values and try again".to_owned()
    } else if -30999 <= code && code <= -30000 {
        "Verify the asset exists or create it first".to_owned()
    } else if -29999 <= code && code <= -29000 {
        "Initialize a project or register an existing one".to_owned()
    } else if -28999 <= code && code <= -28000 {
        "Set AM_SDK_PATH environment variable".to_owned()
    } else {
        "Check the error message for details".to_owned()
    }
}

/// JSON output implementation for machine-parseable CLI responses.
pub struct JsonOutput;

impl JsonOutput {
    /// Create a new JsonOutput instance.
    pub fn new() -> (r: JsonOutput) {
        JsonOutput
    }

    /// Build a success response structure without writing to stdout.
    pub fn build_success_response<T>(data: T) -> (r: JsonResponse<T>)
        ensures
            r.ok == true,
            r.value matches Some(d) && d == data,
            r.error is None,
    {
        JsonResponse { ok: true, value: Some(data), error: None }
    }

    /// Build an error response structure without writing to stdout: the
    /// type comes from the code; a classified error contributes its own
    /// what/why/suggestion/context, an unclassified one its message with
    /// the range's generic suggestion.
    pub fn build_error_response(err: &AppError, code: i32) -> (r: JsonResponse<()>)
        ensures
            r.ok == false,
            r.value is None,
            r.error matches Some(d) && d.code == code && d.type_@ == spec_error_type_from_code(
                code as int,
            ),
            *err matches AppError::Cli(e) ==> (r.error matches Some(d) && d.message@ == e.what@
                && d.why@ == e.why@ && d.suggestion@ == e.suggestion@ && (d.context is Some <==> e.context is Some)
                && (d.context matches Some(c) ==> c@ == e.context->0@)),
            *err matches AppError::Unexpected(m) ==> (r.error matches Some(d) && d.message@ == m@
                && d.why@ == Seq::<char>::empty() && d.suggestion@ == spec_suggestion_from_code(
                code as int,
            ) && d.context is None),
    {
        let details = match err {
            AppError::Cli(e) => JsonErrorDetails {
                code,
                type_: error_type_from_code(code),
                message: e.what.clone(),
                why: e.why.clone(),
                suggestion: e.suggestion.clone(),
                context: match &e.context {
                    Some(c) => Some(c.clone()),
                    None => None,
                },
            },
            AppError::Unexpected(m) => JsonErrorDetails {
                code,
                type_: error_type_from_code(code),
                message: m.clone(),
                why: String::new(),
                suggestion: suggestion_from_code(code),
                context: None,
            },
        };
        JsonResponse { ok: false, value: None, error: Some(details) }
    }
}

/// A JSON string holding this text: quoted and escaped.
pub open spec fn spec_quoted(s: Seq<char>) -> Seq<char> {
    seq!['"'] + json_escape(s) + seq!['"']
}

/// The success envelope around an already-encoded value.
pub open spec fn spec_success_envelope(value_json: Seq<char>) -> Seq<char> {
    "{\"ok\":true,\"value\":"@ + value_json + "}"@
}

/// The error envelope for the given details.
pub open spec fn spec_error_envelope(d: JsonErrorDetails) -> Seq<char> {
    "{\"ok\":false,\"error\":{\"code\":"@ + spec_i32_string(d.code) + ",\"type\":"@ + spec_quoted(
        d.type_@,
    ) + ",\"message\":"@ + spec_quoted(d.message@) + ",\"why\":"@ + spec_quoted(d.why@)
        + ",\"suggestion\":"@ + spec_quoted(d.suggestion@) + (match d.context {
        Some(c) => ",\"context\":"@ + spec_quoted(c@),
        None => Seq::<char>::empty(),
    }) + "}}"@
}

/// Render a JSON string: quote and escape the text.
pub fn render_quoted(s: &str) -> (r: String)
    ensures
        r@ == spec_quoted(s@),
{
    proof {
        reveal_strlit("\"");
        assert("\""@ =~= seq!['"']);
    }
    let r = "\"".to_owned().concat(escape_json(s).as_str()).concat("\"");
    proof {
        assert(r@ =~= spec_quoted(s@));
    }
    r
}

/// Render the success envelope around an already-encoded value: exactly the
/// `{"ok":true,"value":…}` wrapper, and one line whenever the value itself
/// holds no newline.
pub fn render_success(value_json: &str) -> (r: String)
    ensures
        r@ == spec_success_envelope(value_json@),
        line_clean(value_json@) ==> line_clean(r@),
{
    proof {
        reveal_strlit("{\"ok\":true,\"value\":");
        reveal_strlit("}");
    }
    "{\"ok\":true,\"value\":".to_owned().concat(value_json).concat("}")
}

/// Decimal digits never include a newline.
proof fn lemma_dec_digits_line_clean(n: nat)
    ensures
        line_clean(dec_digits(n)),
    decreases n,
{
    if n >= 10 {
        lemma_dec_digits_line_clean(n / 10);
    }
}

/// A rendered integer never includes a newline.
proof fn lemma_i32_string_line_clean(n: i32)
    ensures
        line_clean(spec_i32_string(n)),
{
    if n < 0 {
        lemma_dec_digits_line_clean((-(n as int)) as nat);
    } else {
        lemma_dec_digits_line_clean(n as nat);
    }
}

/// A quoted JSON string never includes a newline: escaping removes every
/// control character.
proof fn lemma_quoted_line_clean(s: Seq<char>)
    ensures
        line_clean(spec_quoted(s)),
{
    lemma_json_escape_no_newline(s);
}

/// Render the error envelope: exactly the shape
/// `{"ok":false,"error":{"code":…,"type":…,"message":…,"why":…,"suggestion":…[,"context":…]}}`
/// with every string quoted and escaped, the context omitted when absent —
/// and always a single line.
pub fn render_error_envelope(d: &JsonErrorDetails) -> (r: String)
    ensures
        r@ == spec_error_envelope(*d),
        line_clean(r@),
{
    proof {
        reveal_strlit("{\"ok\":false,\"error\":{\"code\":");
        reveal_strlit(",\"type\":");
        reveal_strlit(",\"message\":");
        reveal_strlit(",\"why\":");
        reveal_strlit(",\"suggestion\":");
        reveal_strlit(",\"context\":");
        reveal_strlit("}}");
        lemma_i32_string_line_clean(d.code);
        lemma_quoted_line_clean(d.type_@);
        lemma_quoted_line_clean(d.message@);
        lemma_quoted_line_clean(d.why@);
        lemma_quoted_line_clean(d.suggestion@);
        if d.context is Some {
            lemma_quoted_line_clean(d.context->0@);
        }
    }
    let mut r = "{\"ok\":false,\"error\":{\"code\":".to_owned();
    r.append(i32_to_string(d.code).as_str());
    r.append(",\"type\":");
    r.append(render_quoted(d.type_.as_str()).as_str());
    r.append(",\"message\":");
    r.append(render_quoted(d.message.as_str()).as_str());
    r.append(",\"why\":");
    r.append(render_quoted(d.why.as_str()).as_str());
    r.append(",\"suggestion\":");
    r.append(render_quoted(d.suggestion.as_str()).as_str());
    match &d.context {
        Some(c) => {
            r.append(",\"context\":");
            r.append(render_quoted(c.as_str()).as_str());
        },
        None => {},
    }
    r.append("}}");
    proof {
        assert(r@ =~= spec_error_envelope(*d));
    }
    r
}

impl Output for JsonOutput {
    /// Write exactly one success envelope line to standard output.
    fn success(&self, value_json: &str, _request_id: Option<i64>) {
        let line = render_success(value_json);
        print_line(line.as_str());
    }

    /// Write exactly one error envelope line to standard output.
    fn error(&self, err: &AppError, code: i32, _request_id: Option<i64>) {
        let resp = JsonOutput::build_error_response(err, code);
        match &resp.error {
            Some(d) => {
                let line = render_error_envelope(d);
                print_line(line.as_str());
            },
            None => {},
        }
    }

    /// Suppressed: machine consumers must see nothing but the envelopes.
    fn progress(&self, _message: &str) {
    }

    /// Suppressed: machine consumers must see nothing but the envelopes.
    fn table(&self, _title: Option<&str>, _headers: &Vec<String>, _rows: &Vec<Vec<String>>) {
    }

    /// This renderer serves the JSON mode.
    open spec fn spec_mode(&self) -> OutputMode {
        OutputMode::Json
    }

    /// This renderer serves the JSON mode.
    fn mode(&self) -> OutputMode {
        OutputMode::Json
    }
}

} // verus!
