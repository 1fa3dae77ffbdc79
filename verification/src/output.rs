//! What becomes of the output of an install command.

use vstd::prelude::*;

verus! {

/// Where the output streams of a spawned command go.
#[derive(Clone, Copy, Debug, PartialEq, Eq, Structural)]
pub enum StreamRouting {
    /// To the streams of the invoking process.
    Inherit,
    /// Nowhere.
    Suppress,
}

/// How much of a command's output the user wants to see.
#[derive(Clone, Copy, Debug, PartialEq, Eq, Structural)]
pub struct OutputPolicy {
    /// Keep quiet about what the commands print.
    pub silent: bool,
    /// Show what the commands print, whatever `silent` says.
    pub verbose: bool,
}

impl OutputPolicy {
    /// The streams are handed through when the user asked for verbose output
    /// or did not ask for silence.
    pub open spec fn routing_spec(self) -> StreamRouting {
        if self.verbose || !self.silent {
            StreamRouting::Inherit
        } else {
            StreamRouting::Suppress
        }
    }

    /// A failed command is reported with what it printed unless the user asked
    /// for silence. A command that succeeded is never reported.
    pub open spec fn reports_failure_spec(self, success: bool) -> bool {
        !success && !self.silent
    }

    /// Where the streams of a command go under this policy.
    pub fn routing(&self) -> (routing: StreamRouting)
        ensures
            routing == self.routing_spec(),
    {
        if self.verbose || !self.silent {
            StreamRouting::Inherit
        } else {
            StreamRouting::Suppress
        }
    }

    /// Whether a command that ended with the given outcome is reported to the
    /// user together with its captured output.
    pub fn reports_failure(&self, success: bool) -> (report: bool)
        ensures
            report == self.reports_failure_spec(success),
    {
        !success && !self.silent
    }
}

} // verus!
