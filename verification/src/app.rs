//! The command-line surface as the core sees it: the parsed global flags,
//! the command tree, and the selection of output and input modes from the
//! flags. Argument tokenizing and help text belong to the host binary.

use vstd::prelude::*;
use crate::commands::project::ProjectCommands;
use crate::commands::sudo::SudoCommands;

verus! {

/// The commands the tool offers.
#[derive(Debug)]
pub enum Commands {
    /// Amplitude project-related tasks
    Project {
        /// The project subcommand.
        command: ProjectCommands,
    },
    /// Administrative and destructive operations
    Sudo {
        /// The administrative subcommand.
        command: SudoCommands,
    },
}

/// The parsed command line: the global flags and the selected command.
pub struct App {
    /// Show debug and trace output.
    pub verbose: bool,
    /// Machine-parseable JSON output (implies non-interactive input).
    pub json: bool,
    /// Disable interactive prompts.
    pub non_interactive: bool,
    /// The selected command, if any.
    pub command: Option<Commands>,
}

/// The views of the argument strings.
pub open spec fn views_of(args: Seq<String>) -> Seq<Seq<char>> {
    args.map_values(|s: String| s@)
}

/// The flag token occurs among the arguments.
pub open spec fn spec_has_flag(args: Seq<Seq<char>>, flag: Seq<char>) -> bool {
    exists|i: int| 0 <= i < args.len() && args[i] == flag
}

/// The global flags of a command line.
pub struct GlobalFlags {
    /// `--verbose` or `-v` occurred.
    pub verbose: bool,
    /// `--json` occurred.
    pub json: bool,
    /// `--non-interactive` occurred.
    pub non_interactive: bool,
}

/// One more argument carries the flag exactly when it is the flag or an
/// earlier argument carried it.
proof fn lemma_has_flag_push(s: Seq<Seq<char>>, x: Seq<char>, flag: Seq<char>)
    ensures
        spec_has_flag(s.push(x), flag) <==> (spec_has_flag(s, flag) || x == flag),
{
    if spec_has_flag(s.push(x), flag) {
        let w = choose|i: int| 0 <= i < s.push(x).len() && s.push(x)[i] == flag;
        if w < s.len() {
            assert(s[w] == flag);
        }
    }
    if spec_has_flag(s, flag) {
        let w = choose|i: int| 0 <= i < s.len() && s[i] == flag;
        assert(s.push(x)[w] == flag);
    }
    if x == flag {
        assert(s.push(x)[s.len() as int] == flag);
    }
}

/// Read the global flags off a command line: each is set exactly when its
/// token occurs anywhere among the arguments, so the flags apply to every
/// subcommand and in any order.
#[verifier::loop_isolation(false)]
pub fn parse_global_flags(args: &Vec<String>) -> (r: GlobalFlags)
    ensures
        r.json <==> spec_has_flag(views_of(args@), "--json"@),
        r.non_interactive <==> spec_has_flag(views_of(args@), "--non-interactive"@),
        r.verbose <==> (spec_has_flag(views_of(args@), "--verbose"@) || spec_has_flag(
            views_of(args@),
            "-v"@,
        )),
{
    let flag_json = "--json".to_owned();
    let flag_non_interactive = "--non-interactive".to_owned();
    let flag_verbose = "--verbose".to_owned();
    let flag_v = "-v".to_owned();
    let mut json = false;
    let mut non_interactive = false;
    let mut verbose = false;
    let mut i: usize = 0;
    while i < args.len()
        invariant
            0 <= i <= args@.len(),
            json <==> spec_has_flag(views_of(args@.subrange(0, i as int)), "--json"@),
            non_interactive <==> spec_has_flag(
                views_of(args@.subrange(0, i as int)),
                "--non-interactive"@,
            ),
            verbose <==> (spec_has_flag(views_of(args@.subrange(0, i as int)), "--verbose"@)
                || spec_has_flag(views_of(args@.subrange(0, i as int)), "-v"@)),
        decreases args@.len() - i,
    {
        let a = &args[i];
        if *a == flag_json {
            json = true;
        }
        if *a == flag_non_interactive {
            non_interactive = true;
        }
        if *a == flag_verbose || *a == flag_v {
            verbose = true;
        }
        proof {
            let prefix = views_of(args@.subrange(0, i as int));
            let cur = args@[i as int]@;
            assert(views_of(args@.subrange(0, i as int + 1)) =~= prefix.push(cur));
            lemma_has_flag_push(prefix, cur, "--json"@);
            lemma_has_flag_push(prefix, cur, "--non-interactive"@);
            lemma_has_flag_push(prefix, cur, "--verbose"@);
            lemma_has_flag_push(prefix, cur, "-v"@);
        }
        i += 1;
    }
    proof {
        assert(args@.subrange(0, args@.len() as int) =~= args@);
    }
    GlobalFlags { verbose, json, non_interactive }
}

} // verus!
