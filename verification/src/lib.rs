use vstd::prelude::*;

pub mod backtrace;
pub mod battery;
pub mod battery_level;
pub mod config;
pub mod cooldown;
pub mod daemon;
pub mod digits;
pub mod errors;
pub mod handler;
pub mod log;
pub mod machine;
pub mod paths;
pub mod performance;
pub mod profile;
pub mod text;
pub mod verbose;

verus! {

/// Logical negation, kept as a free function so that call sites read as words.
pub fn not(value: bool) -> (r: bool)
    ensures
        r == !value,
{
    !value
}

/// The indentation that console listings put before a nested line: four
/// spaces per level past the first.
pub fn tab(count: usize) -> (r: String)
    requires
        count >= 1,
    ensures
        r@.len() == 4 * (count - 1),
        forall|i: int| 0 <= i < r@.len() ==> r@[i] == ' ',
{
    proof {
        reveal_strlit("    ");
    }
    let mut r = String::new();
    let mut i: usize = 0;
    while i < count - 1
        invariant
            0 <= i <= count - 1,
            r@.len() == 4 * i,
            forall|j: int| 0 <= j < r@.len() ==> r@[j] == ' ',
        decreases count - 1 - i,
    {
        proof {
            reveal_strlit("    ");
        }
        r.append("    ");
        i = i + 1;
    }
    r
}

} // verus!
