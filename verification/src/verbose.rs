//! The verbosity switch: whether debug output is wanted. The process keeps
//! one of these and consults it before printing.
use vstd::prelude::*;

verus! {

/// Whether verbose output is on.
#[derive(Debug, Copy, Clone, PartialEq, Eq, Structural)]
pub struct Verbosity {
    verbose: bool,
}

impl Verbosity {
    /// The current choice.
    pub closed spec fn spec_get(&self) -> bool {
        self.verbose
    }

    /// Verbosity as chosen at startup.
    pub fn new(verbose: bool) -> (r: Self)
        ensures
            r.spec_get() == verbose,
    {
        Verbosity { verbose }
    }

    /// The current choice.
    pub fn get(&self) -> (r: bool)
        ensures
            r == self.spec_get(),
    {
        self.verbose
    }

    /// Change the choice.
    pub fn set(&mut self, verbose: bool)
        ensures
            final(self).spec_get() == verbose,
    {
        self.verbose = verbose;
    }

    /// Verbose output is wanted.
    pub fn enabled(&self) -> (r: bool)
        ensures
            r == self.spec_get(),
    {
        self.verbose
    }

    /// Verbose output is not wanted.
    pub fn disabled(&self) -> (r: bool)
        ensures
            r == !self.spec_get(),
    {
        !self.verbose
    }
}

impl Default for Verbosity {
    /// Quiet until asked otherwise.
    fn default() -> (r: Self)
        ensures
            !r.spec_get(),
    {
        Verbosity { verbose: false }
    }
}

} // verus!
