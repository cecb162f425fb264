//! What the command line asks for.
//!
//! The program takes a workload path and three options. The options may
//! stand anywhere; the workload is the first argument that is neither an
//! option nor the program's own name.

use crate::text::{has_prefix, has_suffix, same_text, spec_has_prefix, spec_has_suffix};
use vstd::prelude::*;

verus! {

/// What the program is asked to do.
#[derive(Debug, Clone, PartialEq, Eq)]
pub enum Command {
    /// Fetch the binaries that the cache lacks.
    SetupRegistry,
    /// Clear the cache.
    ClearRegistry,
    /// Run a workload, with the sandbox's logging if `verbose`.
    Run { script: String, verbose: bool },
    /// Nothing that can be done: show how the program is used.
    Usage,
}

/// A command as contracts speak of it.
pub enum CommandView {
    SetupRegistry,
    ClearRegistry,
    Run { script: Seq<char>, verbose: bool },
    Usage,
}

impl View for Command {
    type V = CommandView;

    open spec fn view(&self) -> CommandView {
        match self {
            Command::SetupRegistry => CommandView::SetupRegistry,
            Command::ClearRegistry => CommandView::ClearRegistry,
            Command::Run { script, verbose } => CommandView::Run {
                script: script@,
                verbose: *verbose,
            },
            Command::Usage => CommandView::Usage,
        }
    }
}

/// The arguments as texts.
pub open spec fn spec_texts(args: Seq<String>) -> Seq<Seq<char>> {
    Seq::new(args.len(), |i: int| args[i]@)
}

/// Whether an argument can be the workload: it is no option, and it is not
/// the program's own name.
pub open spec fn spec_is_script(arg: Seq<char>) -> bool {
    !spec_has_prefix(arg, "--"@) && !spec_has_suffix(arg, "hyperlight-nanvix"@)
}

/// The place of the first argument, from `from` on, that can be the workload.
pub open spec fn spec_first_script(args: Seq<Seq<char>>, from: int) -> Option<int>
    decreases args.len() - from,
{
    if from < 0 || from >= args.len() {
        None
    } else if spec_is_script(args[from]) {
        Some(from)
    } else {
        spec_first_script(args, from + 1)
    }
}

/// What the arguments ask for: setting up wins over clearing, and either
/// wins over a run; a run needs a workload.
pub open spec fn spec_parse(args: Seq<Seq<char>>) -> CommandView {
    if args.contains("--setup-registry"@) {
        CommandView::SetupRegistry
    } else if args.contains("--clear-registry"@) {
        CommandView::ClearRegistry
    } else {
        match spec_first_script(args, 0) {
            Some(i) => CommandView::Run { script: args[i], verbose: args.contains("--verbose"@) },
            None => CommandView::Usage,
        }
    }
}

/// Whether one of the arguments is exactly the given text.
pub fn has_argument(args: &Vec<String>, wanted: &str) -> (found: bool)
    ensures
        found == spec_texts(args@).contains(wanted@),
{
    let mut i: usize = 0;
    while i < args.len()
        invariant
            i <= args.len(),
            forall|j: int| 0 <= j < i ==> spec_texts(args@)[j] != wanted@,
        decreases args.len() - i,
    {
        if same_text(args[i].as_str(), wanted) {
            assert(spec_texts(args@)[i as int] == wanted@);
            return true;
        }
        i += 1;
    }
    false
}

/// Whether an argument can be the workload.
pub fn is_script(arg: &str) -> (script: bool)
    ensures
        script == spec_is_script(arg@),
{
    !has_prefix(arg, "--") && !has_suffix(arg, "hyperlight-nanvix")
}

/// Skipping arguments that cannot be the workload does not change which
/// argument is the first that can.
proof fn lemma_first_script_skips(args: Seq<Seq<char>>, from: int, to: int)
    requires
        0 <= from <= to <= args.len(),
        forall|j: int| from <= j < to ==> !spec_is_script(args[j]),
    ensures
        spec_first_script(args, from) == spec_first_script(args, to),
    decreases to - from,
{
    if from < to {
        lemma_first_script_skips(args, from + 1, to);
    }
}

/// Decide what the arguments ask for.
pub fn parse_arguments(args: &Vec<String>) -> (command: Command)
    ensures
        command@ == spec_parse(spec_texts(args@)),
{
    if has_argument(args, "--setup-registry") {
        return Command::SetupRegistry;
    }
    if has_argument(args, "--clear-registry") {
        return Command::ClearRegistry;
    }
    let verbose = has_argument(args, "--verbose");
    let ghost texts = spec_texts(args@);
    let mut i: usize = 0;
    while i < args.len()
        invariant
            i <= args.len(),
            texts == spec_texts(args@),
            !texts.contains("--setup-registry"@),
            !texts.contains("--clear-registry"@),
            verbose == texts.contains("--verbose"@),
            forall|j: int| 0 <= j < i ==> !spec_is_script(texts[j]),
        decreases args.len() - i,
    {
        if is_script(args[i].as_str()) {
            let script = args[i].clone();
            proof {
                lemma_first_script_skips(texts, 0, i as int);
                assert(texts[i as int] == args@[i as int]@);
            }
            return Command::Run { script, verbose };
        }
        i += 1;
    }
    proof {
        lemma_first_script_skips(texts, 0, args.len() as int);
    }
    Command::Usage
}

/// The workload of a run is the first argument that is neither an option
/// nor the program's own name: it is such an argument, and no argument
/// before it is.
pub proof fn lemma_script_is_first_candidate(args: Seq<Seq<char>>, from: int)
    requires
        0 <= from,
    ensures
        spec_first_script(args, from) matches Some(i) ==> from <= i < args.len() && spec_is_script(
            args[i],
        ) && forall|j: int| from <= j < i ==> !spec_is_script(#[trigger] args[j]),
        spec_first_script(args, from) is None ==> forall|j: int|
            from <= j < args.len() ==> !spec_is_script(#[trigger] args[j]),
    decreases args.len() - from,
{
    if from < args.len() && !spec_is_script(args[from]) {
        lemma_script_is_first_candidate(args, from + 1);
    }
}

} // verus!
