//! Command-line surface of the binary, as plain values.
use vstd::prelude::*;
use vstd::string::*;

use crate::api::types::opt_view;

verus! {

/// The parsed command line.
pub struct CliArgs {
    pub command: Commands,
}

/// The subcommands of the binary.
pub enum Commands {
    /// Synchronize state from the primary node to replica nodes.
    Sync {
        /// Run as a long-running background daemon, monitoring filesystem events.
        daemon: bool,
        /// Queue an immediate catch-up synchronization cycle upon daemon initialization
        /// (only accepted together with `daemon`).
        force_sync: bool,
    },
}

/// Whether log output is coloured: an explicit choice wins; otherwise a set
/// `NO_COLOR` or a `TERM` of `dumb` turn colour off, and else colour follows
/// whether standard error is a terminal.
pub open spec fn spec_color_usage(
    explicit: Option<bool>,
    no_color_set: bool,
    term: Option<Seq<char>>,
    stderr_is_terminal: bool,
) -> bool {
    match explicit {
        Some(choice) => choice,
        None => if no_color_set {
            false
        } else if term == Some("dumb"@) {
            false
        } else {
            stderr_is_terminal
        },
    }
}

/// Colour follows an explicit choice; without one it is on only when standard
/// error is a terminal, and then exactly when neither `NO_COLOR` is set nor
/// `TERM` is `dumb`. In particular, with no choice and standard error not a
/// terminal, colour is off whatever `TERM` says.
pub proof fn lemma_color_needs_terminal_without_choice(
    explicit: Option<bool>,
    no_color_set: bool,
    term: Option<Seq<char>>,
    stderr_is_terminal: bool,
)
    ensures
        explicit matches Some(c) ==> spec_color_usage(explicit, no_color_set, term, stderr_is_terminal) == c,
        explicit is None && !stderr_is_terminal ==> !spec_color_usage(explicit, no_color_set, term, stderr_is_terminal),
        explicit is None && stderr_is_terminal ==> (spec_color_usage(explicit, no_color_set, term, stderr_is_terminal)
            <==> !no_color_set && term != Some("dumb"@)),
{
}

/// Decides whether log output is coloured, from the explicit choice, whether
/// `NO_COLOR` is set, the value of `TERM` (if it is set and valid unicode) and
/// whether standard error is a terminal.
pub fn determine_color_usage(
    explicit: Option<bool>,
    no_color_set: bool,
    term: Option<String>,
    stderr_is_terminal: bool,
) -> (r: bool)
    ensures
        r == spec_color_usage(explicit, no_color_set, opt_view(term), stderr_is_terminal),
{
    if let Some(choice) = explicit {
        return choice;
    }
    if no_color_set {
        return false;
    }
    let is_dumb = match &term {
        Some(t) => {
            let dumb = String::from_str("dumb");
            *t == dumb
        },
        None => false,
    };
    if is_dumb {
        return false;
    }
    stderr_is_terminal
}

} // verus!
