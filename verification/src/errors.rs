//! Errors as the user sees them: a causal chain of messages, newest first,
//! and an optional remediation tip attached near the user-facing boundary.
use crate::text::{join_strings, join_with};
use itertools::Itertools;
use vstd::prelude::*;

verus! {

/// A failure with its causal chain (the primary cause first, oldest cause
/// last) and at most one remediation tip.
#[derive(Debug)]
pub struct Error {
    pub chain: Vec<String>,
    pub tip: Option<String>,
}

impl Error {
    /// A failure with a single cause and no tip.
    pub fn new(message: String) -> (r: Error)
        ensures
            r.chain.deep_view() =~= seq![message@],
            r.tip is None,
    {
        let mut chain: Vec<String> = Vec::new();
        chain.push(message);
        Error { chain, tip: None }
    }

    /// The same failure seen from one layer further out: the new message
    /// becomes the primary cause.
    pub fn context(self, message: String) -> (r: Error)
        ensures
            r.chain.deep_view() =~= seq![message@] + self.chain.deep_view(),
            r.tip.deep_view() == self.tip.deep_view(),
    {
        let ghost old_chain = self.chain.deep_view();
        let mut chain = self.chain;
        chain.insert(0, message);
        proof {
            assert forall|j: int| 0 <= j < chain.deep_view().len() implies chain.deep_view()[j]
                == (seq![message@] + old_chain)[j] by {
                if j == 0 {
                    assert(chain@[0] == message);
                } else {
                    assert(chain@[j] == self.chain@[j - 1]);
                }
            }
            assert(chain.deep_view() =~~= seq![message@] + old_chain);
        }
        Error { chain, tip: self.tip }
    }

    /// Attach a tip, if one is given. Only the boundary that knows the
    /// operation being attempted calls this.
    pub fn maybe_tip(self, tip: Option<String>) -> (r: Error)
        ensures
            r.chain.deep_view() == self.chain.deep_view(),
            tip is Some ==> r.tip.deep_view() == tip.deep_view(),
            tip is None ==> r.tip.deep_view() == self.tip.deep_view(),
    {
        match tip {
            Some(message) => Error { chain: self.chain, tip: Some(message) },
            None => self,
        }
    }
}

/// The shapes of a failed hardware call that earn a remediation tip: the
/// control method is missing from the machine's firmware, the kernel module
/// that relays calls is not loaded, or something else went wrong.
#[derive(Debug, Copy, Clone, PartialEq, Eq, Structural)]
pub enum HardwareCallError {
    MethodNotFound,
    KernelModuleNotLoaded,
    Other,
}

pub const ACPI_CALL_METHOD_NOT_FOUND_TIP: &'static str =
    "the currently used profile may not be supported for your system. use another then try again";

pub const ACPI_CALL_KERNEL_MODULE_NOT_LOADED_TIP: &'static str =
    "try running the following command as root to enable `acpi_call` (exclude the '#'!):\n# modprobe acpi_call\nif it says something about the module not being found in some directory, install it in your package repositories,\nreboot (although rebooting may not be necessary depending on your system, try it!), then perform this step again";

/// The tip owed for a failed hardware call, by the shape of the failure.
pub fn resolve_tip(error: &HardwareCallError) -> (r: Option<&'static str>)
    ensures
        error is MethodNotFound ==> (r matches Some(tip) && tip@
            == ACPI_CALL_METHOD_NOT_FOUND_TIP@),
        error is KernelModuleNotLoaded ==> (r matches Some(tip) && tip@
            == ACPI_CALL_KERNEL_MODULE_NOT_LOADED_TIP@),
        error is Other ==> r is None,
{
    match error {
        HardwareCallError::MethodNotFound => Some(ACPI_CALL_METHOD_NOT_FOUND_TIP),
        HardwareCallError::KernelModuleNotLoaded => Some(ACPI_CALL_KERNEL_MODULE_NOT_LOADED_TIP),
        HardwareCallError::Other => None,
    }
}

/// Relies on itertools' unique adaptor: it yields the first occurrence of
/// each distinct element, in order, and drops the later duplicates.
#[verifier::external_body]
fn unique_strings(values: &Vec<String>) -> (r: Vec<String>)
    ensures
        r.deep_view() == values.deep_view().remove_duplicates(Seq::<Seq<char>>::empty()),
{
    values.iter().cloned().unique().collect()
}

/// Relies on strip_ansi_escapes::strip_str: it removes ANSI escape sequences,
/// and its result is a function of the characters alone.
#[verifier::external_body]
fn strip_ansi(s: &String) -> (r: String)
    ensures
        r@ == ansi_stripped(s@),
{
    strip_ansi_escapes::strip_str(s.as_str())
}

/// The characters of a string once its ANSI escape sequences are removed.
pub uninterp spec fn ansi_stripped(s: Seq<char>) -> Seq<char>;

/// The causal chain written on one line for people: each distinct cause once,
/// in order, separated by colons.
pub fn dedup_error_chain_for_humans(error: &Error) -> (r: String)
    ensures
        r@ == join_with(
            error.chain.deep_view().remove_duplicates(Seq::<Seq<char>>::empty()),
            ": "@,
        ),
{
    let distinct = unique_strings(&error.chain);
    join_strings(&distinct, ": ")
}

/// The causal chain prepared for machine output: colour codes removed, then
/// each distinct cause once, in order.
pub fn machine_failure_chain(chain: &Vec<String>) -> (r: Vec<String>)
    ensures
        r.deep_view() == chain.deep_view().map_values(|s: Seq<char>| ansi_stripped(s))
            .remove_duplicates(Seq::<Seq<char>>::empty()),
{
    let mut stripped: Vec<String> = Vec::new();
    let mut i: usize = 0;
    while i < chain.len()
        invariant
            0 <= i <= chain.len(),
            stripped.deep_view() =~~= chain.deep_view().take(i as int).map_values(
                |s: Seq<char>| ansi_stripped(s),
            ),
        decreases chain.len() - i,
    {
        let ghost before = stripped.deep_view();
        proof {
            assert(before.len() == stripped@.len());
            assert(chain.deep_view().take(i as int).len() == i);
            assert(before.len() == i);
        }
        let next = strip_ansi(&chain[i]);
        assert(next@ == ansi_stripped(chain.deep_view()[i as int]));
        stripped.push(next);
        proof {
            let goal = chain.deep_view().take(i as int + 1).map_values(
                |s: Seq<char>| ansi_stripped(s),
            );
            assert(stripped@.len() == i + 1);
            assert(goal.len() == i + 1);
            assert forall|j: int| 0 <= j < stripped.deep_view().len() implies stripped.deep_view()[j]
                == goal[j] by {
                if j < i as int {
                    assert(stripped.deep_view()[j] == before[j]);
                } else {
                    assert(stripped@[j] == next);
                }
            }
            assert(stripped.deep_view() =~~= goal);
        }
        i = i + 1;
    }
    proof {
        assert(chain.deep_view().take(chain.len() as int) =~= chain.deep_view());
    }
    unique_strings(&stripped)
}

} // verus!
