//! The backtrace-verbosity pair: whether panics and whether errors carry a
//! backtrace, read from and written to a comma-separated pair of numbers.
use crate::digits::{dec_val, is_numeral, parse_u64};
use crate::text::{first_occurrence_at, split_once};
use vstd::prelude::*;

verus! {

/// Which events are given a backtrace.
#[derive(Debug, Copy, Clone, PartialEq, Eq, Structural)]
pub struct Backtrace {
    pub panics: bool,
    pub errors: bool,
}

/// What `Backtrace::from_str` accepts: two numbers that fit in a byte,
/// separated by the first comma; zero means off, anything else on.
pub open spec fn backtrace_parsed(s: Seq<char>) -> Option<Backtrace> {
    if exists|i: int| first_occurrence_at(s, ',', i) {
        let i = choose|i: int| first_occurrence_at(s, ',', i);
        let left = s.subrange(0, i);
        let right = s.subrange(i + 1, s.len() as int);
        if is_numeral(left) && dec_val(left) <= 255 && is_numeral(right) && dec_val(right)
            <= 255 {
            Some(Backtrace { panics: dec_val(left) != 0, errors: dec_val(right) != 0 })
        } else {
            None
        }
    } else {
        None
    }
}

/// What `display` produces: each flag as `1` or `0`, comma separated.
pub open spec fn backtrace_shown(panics: bool, errors: bool) -> Seq<char> {
    (if panics {
        "1"@
    } else {
        "0"@
    }) + ","@ + (if errors {
        "1"@
    } else {
        "0"@
    })
}

impl Backtrace {
    /// Read the pair from its textual form, `panics,errors` with numbers.
    pub fn from_str(s: &str) -> (r: Option<Backtrace>)
        ensures
            r == backtrace_parsed(s@),
    {
        match split_once(s, ',') {
            Some((left, right)) => {
                proof {
                    let j = choose|j: int|
                        #[trigger] first_occurrence_at(s@, ',', j) && left@ == s@.subrange(0, j)
                            && right@ == s@.subrange(j + 1, s@.len() as int);
                    let i = choose|i: int| first_occurrence_at(s@, ',', i);
                    assert(first_occurrence_at(s@, ',', i));
                    assert(i == j);
                }
                let panics_value = match parse_u64(left) {
                    Some(v) => v,
                    None => {
                        return None;
                    },
                };
                if panics_value > 255 {
                    return None;
                }
                let errors_value = match parse_u64(right) {
                    Some(v) => v,
                    None => {
                        return None;
                    },
                };
                if errors_value > 255 {
                    return None;
                }
                Some(Backtrace { panics: panics_value != 0, errors: errors_value != 0 })
            },
            None => None,
        }
    }

    /// The textual form, each flag as `1` or `0`.
    pub fn display(&self) -> (r: String)
        ensures
            r@ == backtrace_shown(self.panics, self.errors),
    {
        let mut shown = String::from_str(
            if self.panics {
                "1"
            } else {
                "0"
            },
        );
        shown.append(",");
        shown.append(
            if self.errors {
                "1"
            } else {
                "0"
            },
        );
        shown
    }
}

impl Default for Backtrace {
    /// No backtraces: the compiled-in choice.
    fn default() -> (r: Self)
        ensures
            !r.panics,
            !r.errors,
    {
        Backtrace { panics: false, errors: false }
    }
}

pub const RUST_BACKTRACE: &'static str = "RUST_BACKTRACE";

pub const RUST_LIB_BACKTRACE: &'static str = "RUST_LIB_BACKTRACE";

impl Backtrace {
    /// The environment assignments that put the pair into effect, in the
    /// order they are to be applied. The caller sets the variables.
    pub fn configure(&self) -> (r: Vec<(&'static str, &'static str)>)
        ensures
            self.panics && self.errors ==> r@ =~= seq![(RUST_BACKTRACE, "1")],
            !self.panics && self.errors ==> r@ =~= seq![(RUST_LIB_BACKTRACE, "1")],
            self.panics && !self.errors ==> r@ =~= seq![
                (RUST_BACKTRACE, "1"),
                (RUST_LIB_BACKTRACE, "0"),
            ],
            !self.panics && !self.errors ==> r@ =~= seq![
                (RUST_BACKTRACE, "0"),
                (RUST_LIB_BACKTRACE, "0"),
            ],
    {
        let mut assignments: Vec<(&'static str, &'static str)> = Vec::new();
        if self.panics && self.errors {
            assignments.push((RUST_BACKTRACE, "1"));
        } else if !self.panics && self.errors {
            assignments.push((RUST_LIB_BACKTRACE, "1"));
        } else if self.panics && !self.errors {
            assignments.push((RUST_BACKTRACE, "1"));
            assignments.push((RUST_LIB_BACKTRACE, "0"));
        } else {
            assignments.push((RUST_BACKTRACE, "0"));
            assignments.push((RUST_LIB_BACKTRACE, "0"));
        }
        assignments
    }
}

} // verus!
