//! The machine-readable-output switch: always on, always off, or decided by
//! whether standard output is a terminal.
use crate::text::str_eq;
use vstd::prelude::*;

verus! {

/// Whether output is meant for robots rather than people.
#[derive(Debug, Copy, Clone, PartialEq, Eq, Structural)]
pub enum Machine {
    Always,
    Never,
    Auto,
}

/// What `Machine::from_str` accepts: each choice by several spellings.
pub open spec fn machine_parsed(s: Seq<char>) -> Option<Machine> {
    if s == "always"@ || s == "true"@ || s == "t"@ {
        Some(Machine::Always)
    } else if s == "never"@ || s == "false"@ || s == "f"@ {
        Some(Machine::Never)
    } else if s == "auto"@ || s == "a"@ {
        Some(Machine::Auto)
    } else {
        None
    }
}

impl Machine {
    /// Whether output is machine readable. `Auto` means output that is not a
    /// terminal; the caller reads the terminal state and passes it in.
    pub open spec fn spec_get(self, stdout_is_tty: bool) -> bool {
        match self {
            Machine::Always => true,
            Machine::Never => false,
            Machine::Auto => !stdout_is_tty,
        }
    }

    /// Whether output is machine readable, given whether standard output is
    /// a terminal.
    pub fn get(self, stdout_is_tty: bool) -> (r: bool)
        ensures
            r == self.spec_get(stdout_is_tty),
    {
        match self {
            Machine::Always => true,
            Machine::Never => false,
            Machine::Auto => !stdout_is_tty,
        }
    }

    /// Read a choice from its textual form.
    pub fn from_str(s: &str) -> (r: Option<Machine>)
        ensures
            r == machine_parsed(s@),
    {
        if str_eq(s, "always") || str_eq(s, "true") || str_eq(s, "t") {
            Some(Machine::Always)
        } else if str_eq(s, "never") || str_eq(s, "false") || str_eq(s, "f") {
            Some(Machine::Never)
        } else if str_eq(s, "auto") || str_eq(s, "a") {
            Some(Machine::Auto)
        } else {
            None
        }
    }
}

impl Default for Machine {
    /// Detection from the terminal is the compiled-in choice.
    fn default() -> (r: Self)
        ensures
            r is Auto,
    {
        Machine::Auto
    }
}

} // verus!
