//! The kinds of diagnostics, with their labels and colours.
use vstd::prelude::*;
use crate::colour::Colour;

verus! {

/// How serious a diagnostic is.
#[derive(Clone, Copy, Debug, PartialEq, Eq, Structural)]
pub enum Severity {
    /// Non-erroneous information.
    Info,
    /// Sub-optimal, but not strictly incorrect, behaviour.
    Warning,
    /// A recoverable failure that keeps the program from working in its entirety.
    Error,
    /// A failure that the program cannot recover from.
    Fatal,
    /// A bug or a failed invariant in the program itself.
    Internal,
}

/// The word that names a severity in a line.
pub open spec fn label_of(s: Severity) -> Seq<char> {
    match s {
        Severity::Info => seq!['i', 'n', 'f', 'o'],
        Severity::Warning => seq!['w', 'a', 'r', 'n', 'i', 'n', 'g'],
        Severity::Error => seq!['e', 'r', 'r', 'o', 'r'],
        Severity::Fatal => seq!['f', 'a', 't', 'a', 'l'],
        Severity::Internal => seq!['i', 'n', 't', 'e', 'r', 'n', 'a', 'l'],
    }
}

/// The colour that a severity's label is painted in.
pub open spec fn colour_of(s: Severity) -> Colour {
    match s {
        Severity::Info => Colour::Purple,
        Severity::Warning => Colour::Yellow,
        Severity::Error | Severity::Fatal | Severity::Internal => Colour::Red,
    }
}

impl Severity {
    /// The label of this severity.
    pub fn label(&self) -> (r: &'static str)
        ensures
            r@ == label_of(*self),
    {
        match self {
            Severity::Info => {
                proof {
                    reveal_strlit("info");
                }
                "info"
            },
            Severity::Warning => {
                proof {
                    reveal_strlit("warning");
                }
                "warning"
            },
            Severity::Error => {
                proof {
                    reveal_strlit("error");
                }
                "error"
            },
            Severity::Fatal => {
                proof {
                    reveal_strlit("fatal");
                }
                "fatal"
            },
            Severity::Internal => {
                proof {
                    reveal_strlit("internal");
                }
                "internal"
            },
        }
    }

    /// The colour of this severity's label.
    pub fn colour(&self) -> (r: Colour)
        ensures
            r == colour_of(*self),
    {
        match self {
            Severity::Info => Colour::Purple,
            Severity::Warning => Colour::Yellow,
            Severity::Error | Severity::Fatal | Severity::Internal => Colour::Red,
        }
    }
}

} // verus!
