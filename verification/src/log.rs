//! The console log's levels and the per-level prologue suppression: a level
//! can be marked to print without its leading tag, as profile listings do
//! while they print a block of lines.
use vstd::prelude::*;

verus! {

/// The severity of a console message.
#[derive(Debug, Copy, Clone, PartialEq, Eq, Structural)]
pub enum Level {
    Error,
    Warn,
    Info,
    Tip,
    Debug,
}

/// Which level, if any, currently prints without its prologue.
#[derive(Debug, Copy, Clone, PartialEq, Eq, Structural)]
pub struct NoPrologue {
    current: Option<Level>,
}

impl NoPrologue {
    /// The suppressed level, if any.
    pub closed spec fn spec_for_what(&self) -> Option<Level> {
        self.current
    }

    /// Nothing suppressed.
    pub fn new() -> (r: Self)
        ensures
            r.spec_for_what() is None,
    {
        NoPrologue { current: None }
    }

    /// Suppress the prologue for one level.
    pub fn suppress_for(&mut self, level: Level)
        ensures
            final(self).spec_for_what() == Some(level),
    {
        self.current = Some(level);
    }

    /// Print prologues again for every level.
    pub fn reenable(&mut self)
        ensures
            final(self).spec_for_what() is None,
    {
        self.current = None;
    }

    /// The suppressed level, if any.
    pub fn for_what(&self) -> (r: Option<Level>)
        ensures
            r == self.spec_for_what(),
    {
        self.current
    }

    /// Whether a message of this level gets its prologue: only when one was
    /// requested and the level is not currently suppressed.
    pub fn shows_prologue(&self, level: Level, requested: bool) -> (r: bool)
        ensures
            r == (requested && self.spec_for_what() != Some(level)),
    {
        let suppressed = match self.current {
            Some(current) => current == level,
            None => false,
        };
        requested && !suppressed
    }
}

} // verus!
