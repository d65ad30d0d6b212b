//! Project commands: name normalization and validation, template
//! selection, the registration-conflict decision, and the scaffold layout —
//! the decisions of `init` and `register`, with prompts and file I/O left
//! to the host binary.

use vstd::prelude::*;
use vstd::string::StrSliceExecFns;
use vstd::string::StringExecFns;
use crate::database::entities::{Project, ProjectConfiguration, Template};
use crate::presentation::encode::char_str;

verus! {

/// The built-in template every project can start from.
pub const DEFAULT_TEMPLATE: &'static str = "default";

/// Project-related tasks.
#[derive(Debug)]
pub enum ProjectCommands {
    /// Create a new project
    Init {
        /// The project name; prompted for when absent.
        name: Option<String>,
        /// The template to start from; selected interactively when absent.
        template: Option<String>,
        /// Create the project without registering it.
        no_register: bool,
    },
    /// Register an existing project
    Register {
        /// The project directory.
        path: Option<String>,
    },
}

/// What lowercasing leaves of a text.
pub uninterp spec fn lower_of(s: Seq<char>) -> Seq<char>;

/// Lowercase a text.
///
/// Relies on `str::to_lowercase`: the result depends on the characters
/// alone; an empty string stays empty.
#[verifier::external_body]
fn lowercase(s: &str) -> (r: String)
    ensures
        r@ == lower_of(s@),
        s@.len() == 0 ==> r@.len() == 0,
{
    s.to_lowercase()
}

/// Spaces and hyphens become underscores; everything else stands.
pub open spec fn sanitize_char(c: char) -> char {
    if c == ' ' || c == '-' {
        '_'
    } else {
        c
    }
}

/// The text with spaces and hyphens replaced by underscores.
pub open spec fn spec_sanitized(s: Seq<char>) -> Seq<char> {
    s.map_values(|c: char| sanitize_char(c))
}

/// Normalize a project name: lowercase it, then replace spaces and hyphens
/// with underscores.
#[verifier::loop_isolation(false)]
pub fn transform_name(name: &str) -> (r: String)
    ensures
        r@ == spec_sanitized(lower_of(name@)),
{
    let low = lowercase(name);
    let n = low.as_str().unicode_len();
    let mut out = String::new();
    proof {
        assert(spec_sanitized(low@.subrange(0, 0)) =~= Seq::<char>::empty());
    }
    let mut i: usize = 0;
    while i < n
        invariant
            0 <= i <= n,
            n == low@.len(),
            out@ == spec_sanitized(low@.subrange(0, i as int)),
        decreases n - i,
    {
        let c = low.as_str().get_char(i);
        let mapped = if c == ' ' || c == '-' {
            '_'
        } else {
            c
        };
        let cs = char_str(mapped);
        out.append(cs.as_str());
        proof {
            assert(low@.subrange(0, i as int + 1) =~= low@.subrange(0, i as int).push(c));
            assert(spec_sanitized(low@.subrange(0, i as int).push(c)) =~= spec_sanitized(
                low@.subrange(0, i as int),
            ).push(sanitize_char(c)));
        }
        i += 1;
    }
    proof {
        assert(low@.subrange(0, n as int) =~= low@);
    }
    out
}

/// The outcome of validating a project name.
pub enum NameValidation {
    /// The name is acceptable.
    Valid,
    /// The name is rejected, with the reason.
    Invalid(String),
}

/// Whether the character counts as alphanumeric.
pub uninterp spec fn is_alnum_char(c: char) -> bool;

/// Whether the character is alphanumeric.
///
/// Relies on `char::is_alphanumeric`: membership in the Unicode Alphabetic
/// and Number categories, a property of the character alone; every ASCII
/// letter and digit is a member.
#[verifier::external_body]
fn char_is_alphanumeric(c: char) -> (r: bool)
    ensures
        r == is_alnum_char(c),
        ('a' as u32) <= (c as u32) <= ('z' as u32) ==> r,
        ('A' as u32) <= (c as u32) <= ('Z' as u32) ==> r,
        ('0' as u32) <= (c as u32) <= ('9' as u32) ==> r,
{
    c.is_alphanumeric()
}

/// What trimming leaves of a text.
pub uninterp spec fn trimmed_of(s: Seq<char>) -> Seq<char>;

/// Trim the text.
///
/// Relies on `str::trim`: the text with leading and trailing whitespace
/// removed, a function of the characters alone.
#[verifier::external_body]
fn trim_str(s: &str) -> (r: &str)
    ensures
        r@ == trimmed_of(s@),
{
    s.trim()
}

/// A character a project name may contain: alphanumeric, underscore,
/// hyphen, or space.
pub open spec fn spec_allowed_char(c: char) -> bool {
    is_alnum_char(c) || c == '_' || c == '-' || c == ' '
}

/// An acceptable project name: nothing but allowed characters once trimmed,
/// and something left after trimming (no empty or whitespace-only names).
pub open spec fn spec_name_acceptable(name: Seq<char>) -> bool {
    (forall|i: int| 0 <= i < trimmed_of(name).len() ==> spec_allowed_char(trimmed_of(name)[i]))
        && trimmed_of(name).len() > 0
}

/// Validate a project name as the init prompt does: only alphanumeric
/// characters, underscores, hyphens and spaces are allowed, and the name
/// must not be empty.
#[verifier::loop_isolation(false)]
pub fn validate_name(name: &str) -> (r: NameValidation)
    ensures
        r is Valid <==> spec_name_acceptable(name@),
        r matches NameValidation::Invalid(m) ==> m@
            == "The project name must only contain alphanumeric characters, underscores, and hyphens."@
            || m@ == "This project name is required"@,
{
    let t = trim_str(name);
    let n = t.unicode_len();
    let mut i: usize = 0;
    while i < n
        invariant
            0 <= i <= n,
            n == trimmed_of(name@).len(),
            t@ == trimmed_of(name@),
            forall|k: int| 0 <= k < i ==> spec_allowed_char(trimmed_of(name@)[k]),
        decreases n - i,
    {
        let c = t.get_char(i);
        if !(char_is_alphanumeric(c) || c == '_' || c == '-' || c == ' ') {
            return NameValidation::Invalid(
                "The project name must only contain alphanumeric characters, underscores, and hyphens.".to_owned(),
            );
        }
        i += 1;
    }
    if t.is_empty() {
        return NameValidation::Invalid("This project name is required".to_owned());
    }
    NameValidation::Valid
}

/// Some registered template carries this name.
pub open spec fn spec_has_template(templates: Seq<Template>, name: Seq<char>) -> bool {
    exists|i: int| 0 <= i < templates.len() && templates[i].name@ == name
}

/// Whether the requested template is usable for `init`: the built-in
/// default, or one of the registered templates.
#[verifier::loop_isolation(false)]
pub fn template_is_known(template: &str, templates: &Vec<Template>) -> (r: bool)
    ensures
        r <==> (template@ == "default"@ || spec_has_template(templates@, template@)),
{
    let default_name = DEFAULT_TEMPLATE.to_owned();
    if template.to_owned() == default_name {
        return true;
    }
    let mut i: usize = 0;
    while i < templates.len()
        invariant
            0 <= i <= templates@.len(),
            forall|k: int| 0 <= k < i ==> templates@[k].name@ != template@,
        decreases templates@.len() - i,
    {
        if templates[i].name == template.to_owned() {
            return true;
        }
        i += 1;
    }
    false
}

/// What `init` does about an already-registered project of the same name.
pub enum ConflictDecision {
    /// No project of this name is registered: go ahead.
    Proceed,
    /// A project of this name is registered and the user confirmed the
    /// override: forget it, then go ahead.
    Replace,
    /// A project of this name is registered and the user declined: abort.
    Abort,
}

/// Decide what `init` does when a project of the requested name may already
/// be registered: an existing registration is replaced only on explicit,
/// user-confirmed override, never automatically.
pub fn init_conflict_decision(existing: Option<&Project>, confirmed_replace: bool) -> (r:
    ConflictDecision)
    ensures
        existing is None ==> r is Proceed,
        existing is Some && confirmed_replace ==> r is Replace,
        existing is Some && !confirmed_replace ==> r is Abort,
{
    match existing {
        None => ConflictDecision::Proceed,
        Some(_) => {
            if confirmed_replace {
                ConflictDecision::Replace
            } else {
                ConflictDecision::Abort
            }
        },
    }
}

/// What `init` does about a directory already standing at the project path.
pub enum DirectoryDecision {
    /// Nothing stands there: create the project directory fresh.
    Fresh,
    /// Something stands there and the user confirmed the overwrite: remove
    /// it, then create fresh.
    Overwrite,
    /// Something stands there and the user declined: abort.
    Abort,
}

/// Decide what `init` does when the project directory may already exist:
/// existing content is deleted only on an explicit, user-confirmed
/// overwrite, never automatically.
pub fn existing_directory_decision(exists: bool, confirmed_overwrite: bool) -> (r:
    DirectoryDecision)
    ensures
        !exists ==> r is Fresh,
        exists && confirmed_overwrite ==> r is Overwrite,
        exists && !confirmed_overwrite ==> r is Abort,
{
    if !exists {
        DirectoryDecision::Fresh
    } else if confirmed_overwrite {
        DirectoryDecision::Overwrite
    } else {
        DirectoryDecision::Abort
    }
}

/// The directories a fresh default project is scaffolded with: one per
/// asset type under `sources`, and the build, data and plugins directories.
pub fn scaffold_directories() -> (r: Vec<String>)
    ensures
        r@.len() == 13,
        r@[0]@ == "sources/attenuators"@,
        r@[1]@ == "sources/collections"@,
        r@[2]@ == "sources/effects"@,
        r@[3]@ == "sources/events"@,
        r@[4]@ == "sources/pipelines"@,
        r@[5]@ == "sources/rtpc"@,
        r@[6]@ == "sources/soundbanks"@,
        r@[7]@ == "sources/sounds"@,
        r@[8]@ == "sources/switch_containers"@,
        r@[9]@ == "sources/switches"@,
        r@[10]@ == "build"@,
        r@[11]@ == "data"@,
        r@[12]@ == "plugins"@,
{
    let mut v: Vec<String> = Vec::new();
    v.push("sources/attenuators".to_owned());
    v.push("sources/collections".to_owned());
    v.push("sources/effects".to_owned());
    v.push("sources/events".to_owned());
    v.push("sources/pipelines".to_owned());
    v.push("sources/rtpc".to_owned());
    v.push("sources/soundbanks".to_owned());
    v.push("sources/sounds".to_owned());
    v.push("sources/switch_containers".to_owned());
    v.push("sources/switches".to_owned());
    v.push("build".to_owned());
    v.push("data".to_owned());
    v.push("plugins".to_owned());
    v
}

/// The configuration a fresh default project starts with.
pub fn default_project_configuration(name: &str) -> (r: ProjectConfiguration)
    ensures
        r.name@ == name@,
        r.default_configuration@ == "pc.config.amconfig"@,
        r.sources_dir@ == "sources"@,
        r.data_dir@ == "data"@,
        r.build_dir@ == "build"@,
        r.version == 1,
{
    ProjectConfiguration {
        name: name.to_owned(),
        default_configuration: "pc.config.amconfig".to_owned(),
        sources_dir: "sources".to_owned(),
        data_dir: "data".to_owned(),
        build_dir: "build".to_owned(),
        version: 1,
    }
}

} // verus!
