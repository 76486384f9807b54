//! The charge threshold: a whole percentage between 0 and 100.
use crate::digits::{
    dec_rep, dec_val, is_digit_char, is_numeral, lemma_dec_rep_is_numeral, lemma_dec_val_of_rep,
    parse_u64, u64_to_string,
};
use crate::text::{strip_trailing, trim_trailing};
use vstd::prelude::*;

verus! {

/// A battery charge percentage. Construction succeeds exactly for 0 to 100.
#[derive(Debug, Copy, Clone, PartialEq, Eq, Structural)]
pub struct BatteryLevel(u8);

impl View for BatteryLevel {
    type V = u8;

    closed spec fn view(&self) -> u8 {
        self.0
    }
}

/// What `display` produces: the numeral followed by a percent sign.
pub open spec fn battery_level_shown(level: u8) -> Seq<char> {
    dec_rep(level as nat) + "%"@
}

/// What `from_str` accepts: after trailing percent signs are removed, a
/// numeral whose value is at most 100.
pub open spec fn battery_level_parsed(s: Seq<char>) -> Option<u8> {
    let trimmed = trim_trailing(s, '%');
    if is_numeral(trimmed) && dec_val(trimmed) <= 100 {
        Some(dec_val(trimmed) as u8)
    } else {
        None
    }
}

impl BatteryLevel {
    /// A level is admitted exactly when it lies within 0 to 100.
    pub fn new(level: u8) -> (r: Option<Self>)
        ensures
            r is Some <==> level <= 100,
            r is Some ==> r->0@ == level,
    {
        if level <= 100 {
            Some(BatteryLevel(level))
        } else {
            None
        }
    }

    /// The percentage as a plain number.
    pub fn inner(self) -> (r: u8)
        ensures
            r == self@,
    {
        self.0
    }

    /// Read a level from its textual form, a numeral with an optional
    /// trailing percent sign.
    pub fn from_str(s: &str) -> (r: Option<Self>)
        ensures
            match r {
                Some(level) => battery_level_parsed(s@) == Some(level@),
                None => battery_level_parsed(s@) is None,
            },
    {
        let trimmed = strip_trailing(s, '%');
        match parse_u64(trimmed) {
            Some(value) => {
                if value <= 100 {
                    Some(BatteryLevel(value as u8))
                } else {
                    None
                }
            },
            None => None,
        }
    }

    /// The textual form, a numeral followed by a percent sign.
    pub fn display(&self) -> (r: String)
        ensures
            r@ == battery_level_shown(self@),
    {
        let mut shown = u64_to_string(self.0 as u64);
        shown.append("%");
        shown
    }
}

impl Default for BatteryLevel {
    /// The compiled-in threshold used when neither layer names one.
    fn default() -> (r: Self)
        ensures
            r@ == 80,
    {
        BatteryLevel(80)
    }
}

proof fn lemma_trim_after_push_percent(s: Seq<char>)
    ensures
        trim_trailing(s.push('%'), '%') == trim_trailing(s, '%'),
{
    let grown = s.push('%');
    assert(grown.last() == '%');
    assert(grown.drop_last() =~= s);
}

proof fn lemma_trim_numeral_is_itself(s: Seq<char>)
    requires
        is_numeral(s),
    ensures
        trim_trailing(s, '%') == s,
{
    assert(is_digit_char(s.last()));
    assert(s.last() != '%');
}

/// A level shown and read back is the same level: the display and parse
/// forms of `BatteryLevel` are inverse for every valid percentage.
pub proof fn lemma_battery_level_round_trip(level: u8)
    requires
        level <= 100,
    ensures
        battery_level_parsed(battery_level_shown(level)) == Some(level),
{
    reveal_strlit("%");
    let numeral = dec_rep(level as nat);
    assert(battery_level_shown(level) =~= numeral.push('%'));
    lemma_trim_after_push_percent(numeral);
    lemma_dec_rep_is_numeral(level as nat);
    lemma_trim_numeral_is_itself(numeral);
    lemma_dec_val_of_rep(level as nat);
}

} // verus!
