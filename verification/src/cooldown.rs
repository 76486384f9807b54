//! The polling pause between regulation cycles: a non-negative duration in
//! whole seconds and nanoseconds, read from and written to decimal text with
//! an optional fractional part.
use crate::digits::{
    all_digits, dec_rep, dec_val, is_digit_char, is_numeral, lemma_dec_rep_is_numeral,
    lemma_dec_rep_len, lemma_dec_val_bound, lemma_dec_val_leading_zeros, lemma_dec_val_of_rep,
    lemma_dec_val_trailing_zeros, lemma_pow10_add, lemma_pow10_pos, parse_u64, pow10,
    u64_to_string, zeros,
};
use crate::text::{
    first_occurrence_at, lemma_trim_trailing_shape, split_once, strip_trailing, trim_trailing,
};
use vstd::prelude::*;

verus! {

pub const NANOS_PER_SECOND: u32 = 1_000_000_000;

/// How long the regulation loop waits between battery polls.
#[derive(Debug, Copy, Clone, PartialEq, Eq, Structural)]
pub struct CoolDown {
    secs: u64,
    nanos: u32,
}

impl View for CoolDown {
    type V = (u64, u32);

    closed spec fn view(&self) -> (u64, u32) {
        (self.secs, self.nanos)
    }
}

impl CoolDown {
    /// The subsecond part never reaches a whole second.
    #[verifier::type_invariant]
    spec fn wf(self) -> bool {
        self.nanos < NANOS_PER_SECOND
    }
}

/// The nanoseconds named by a fractional part: its first nine digits,
/// right-padded with zeros. Digits beyond the ninth are below one
/// nanosecond and are dropped.
pub open spec fn frac_nanos(frac: Seq<char>) -> nat {
    if frac.len() >= 9 {
        dec_val(frac.take(9))
    } else {
        dec_val(frac) * pow10((9 - frac.len()) as nat)
    }
}

/// What `from_str` accepts. After trailing `s` suffixes are removed the text
/// must be digits with at most one point and at least one digit; the whole
/// seconds must fit in a `u64`.
pub open spec fn cooldown_parsed(s: Seq<char>) -> Option<(nat, nat)> {
    let t = trim_trailing(s, 's');
    if exists|i: int| first_occurrence_at(t, '.', i) {
        let i = choose|i: int| first_occurrence_at(t, '.', i);
        let int_part = t.subrange(0, i);
        let frac_part = t.subrange(i + 1, t.len() as int);
        if all_digits(int_part) && all_digits(frac_part) && int_part.len() + frac_part.len() > 0
            && dec_val(int_part) <= u64::MAX {
            Some((dec_val(int_part), frac_nanos(frac_part)))
        } else {
            None
        }
    } else {
        if is_numeral(t) && dec_val(t) <= u64::MAX {
            Some((dec_val(t), 0))
        } else {
            None
        }
    }
}

/// What `display` produces: the whole seconds, and for a fractional duration
/// a point and the subsecond digits with trailing zeros removed.
pub open spec fn cooldown_shown(secs: u64, nanos: u32) -> Seq<char>
    recommends
        nanos < NANOS_PER_SECOND,
{
    if nanos == 0 {
        dec_rep(secs as nat)
    } else {
        dec_rep(secs as nat) + "."@ + trim_trailing(padded_nanos(nanos as nat), '0')
    }
}

/// The nine-digit, zero-padded numeral of a subsecond count.
pub open spec fn padded_nanos(nanos: nat) -> Seq<char>
    recommends
        0 < nanos < NANOS_PER_SECOND,
{
    zeros((9 - dec_rep(nanos).len()) as nat) + dec_rep(nanos)
}

impl CoolDown {
    /// A duration from whole seconds and a subsecond part.
    pub fn new(secs: u64, nanos: u32) -> (r: Self)
        requires
            nanos < NANOS_PER_SECOND,
        ensures
            r@ == (secs, nanos),
    {
        CoolDown { secs, nanos }
    }

    /// The whole seconds.
    pub fn secs(&self) -> (r: u64)
        ensures
            r == self@.0,
    {
        self.secs
    }

    /// The nanoseconds past the whole seconds.
    pub fn subsec_nanos(&self) -> (r: u32)
        ensures
            r == self@.1,
    {
        self.nanos
    }
}

impl Default for CoolDown {
    /// The compiled-in pause used when neither layer names one: one minute.
    fn default() -> (r: Self)
        ensures
            r@ == (60u64, 0u32),
    {
        CoolDown { secs: 60, nanos: 0 }
    }
}

/// Ten raised to `k`, executable for the small exponents the parser needs.
fn pow10_u64(k: usize) -> (r: u64)
    requires
        k <= 9,
    ensures
        r as nat == pow10(k as nat),
{
    let mut r: u64 = 1;
    let mut i: usize = 0;
    while i < k
        invariant
            0 <= i <= k <= 9,
            r as nat == pow10(i as nat),
            r <= 1_000_000_000,
        decreases k - i,
    {
        proof {
            lemma_pow10_bounded(i as nat + 1);
        }
        r = r * 10;
        i = i + 1;
    }
    r
}

proof fn lemma_pow10_nine()
    ensures
        pow10(9nat) == 1_000_000_000,
{
    assert(pow10(0nat) == 1);
    assert(pow10(1nat) == 10);
    assert(pow10(2nat) == 100);
    assert(pow10(3nat) == 1000);
    assert(pow10(4nat) == 10_000);
    assert(pow10(5nat) == 100_000);
    assert(pow10(6nat) == 1_000_000);
    assert(pow10(7nat) == 10_000_000);
    assert(pow10(8nat) == 100_000_000);
    assert(pow10(9nat) == 1_000_000_000);
}

proof fn lemma_pow10_bounded(k: nat)
    ensures
        k <= 9 ==> pow10(k) <= 1_000_000_000,
{
    if k <= 9 {
        lemma_pow10_monotone(k, 9);
        lemma_pow10_nine();
    }
}

proof fn lemma_pow10_monotone(a: nat, b: nat)
    requires
        a <= b,
    ensures
        pow10(a) <= pow10(b),
    decreases b,
{
    if a < b {
        lemma_pow10_monotone(a, (b - 1) as nat);
        lemma_pow10_pos((b - 1) as nat);
    }
}

/// The nanoseconds named by a fractional digit string.
fn parse_frac_nanos(frac: &str) -> (r: Option<u32>)
    ensures
        match r {
            Some(v) => all_digits(frac@) && v as nat == frac_nanos(frac@) && v
                < NANOS_PER_SECOND,
            None => !all_digits(frac@),
        },
{
    let len = frac.unicode_len();
    let mut acc: u64 = 0;
    let mut i: usize = 0;
    let kept = if len < 9 {
        len
    } else {
        9
    };
    proof {
        lemma_dec_val_bound(frac@.take(0));
    }
    while i < len
        invariant
            0 <= i <= len,
            len == frac@.len(),
            kept == if len < 9 {
                len as int
            } else {
                9
            },
            all_digits(frac@.take(i as int)),
            acc as nat == dec_val(frac@.take(vstd::math::min(i as int, kept as int))),
            (i as int <= kept as int) ==> ((acc as nat) < pow10(i as nat)),
            (i as int > kept as int) ==> ((acc as nat) < pow10(kept as nat)),
        decreases len - i,
    {
        let c = frac.get_char(i);
        if !(c >= '0' && c <= '9') {
            assert(!is_digit_char(frac@[i as int]));
            return None;
        }
        assert(frac@.take(i as int + 1).drop_last() =~= frac@.take(i as int));
        assert(frac@.take(i as int + 1).last() == frac@[i as int]);
        if i < kept {
            let d: u64 = ((c as u32) - 48) as u64;
            proof {
                lemma_pow10_bounded((i + 1) as nat);
                assert(acc * 10 + d < pow10(i as nat) * 10) by (nonlinear_arith)
                    requires
                        acc < pow10(i as nat),
                        d <= 9,
                        acc >= 0,
                ;
            }
            acc = acc * 10 + d;
        } else {
            proof {
                assert(vstd::math::min(i as int + 1, kept as int) == kept as int);
            }
        }
        i = i + 1;
    }
    proof {
        assert(frac@.take(len as int) =~= frac@);
        lemma_pow10_bounded(kept as nat);
        lemma_pow10_monotone(kept as nat, 9);
    }
    if len < 9 {
        let scale = pow10_u64(9 - len);
        proof {
            lemma_pow10_pos((9 - len) as nat);
            assert(acc as nat * pow10((9 - len) as nat) < pow10(len as nat) * pow10(
                (9 - len) as nat,
            )) by (nonlinear_arith)
                requires
                    (acc as nat) < pow10(len as nat),
                    pow10((9 - len) as nat) >= 1,
            ;
            lemma_pow10_add(len as nat, (9 - len) as nat);
            lemma_pow10_nine();
        }
        Some((acc * scale) as u32)
    } else {
        proof {
            assert(frac@.take(kept as int) == frac@.take(9));
            lemma_pow10_nine();
        }
        Some(acc as u32)
    }
}

impl CoolDown {
    /// Read a duration from its textual form: seconds, optionally with a
    /// fractional part, optionally suffixed with `s`.
    pub fn from_str(s: &str) -> (r: Option<Self>)
        ensures
            match r {
                Some(cooldown) => cooldown_parsed(s@) == Some(
                    (cooldown@.0 as nat, cooldown@.1 as nat),
                ) && cooldown@.1 < NANOS_PER_SECOND,
                None => cooldown_parsed(s@) is None,
            },
    {
        let t = strip_trailing(s, 's');
        match split_once(t, '.') {
            Some((int_text, frac_text)) => {
                proof {
                    let j = choose|j: int|
                        #[trigger] first_occurrence_at(t@, '.', j) && int_text@ == t@.subrange(
                            0,
                            j,
                        ) && frac_text@ == t@.subrange(j + 1, t@.len() as int);
                    let i = choose|i: int| first_occurrence_at(t@, '.', i);
                    assert(first_occurrence_at(t@, '.', i));
                    assert(i == j);
                    assert(int_text@ == t@.subrange(0, i));
                    assert(frac_text@ == t@.subrange(i + 1, t@.len() as int));
                }
                let int_len = int_text.unicode_len();
                let frac_len = frac_text.unicode_len();
                if int_len == 0 && frac_len == 0 {
                    return None;
                }
                let secs: u64 = if int_len == 0 {
                    0
                } else {
                    match parse_u64(int_text) {
                        Some(v) => v,
                        None => {
                            return None;
                        },
                    }
                };
                let nanos: u32 = match parse_frac_nanos(frac_text) {
                    Some(v) => v,
                    None => {
                        return None;
                    },
                };
                Some(CoolDown { secs, nanos })
            },
            None => {
                match parse_u64(t) {
                    Some(v) => Some(CoolDown { secs: v, nanos: 0 }),
                    None => None,
                }
            },
        }
    }

    /// The textual form: whole seconds, and for a fractional duration a
    /// point and the subsecond digits with trailing zeros removed.
    pub fn display(&self) -> (r: String)
        ensures
            r@ == cooldown_shown(self@.0, self@.1),
    {
        let mut shown = u64_to_string(self.secs);
        if self.nanos == 0 {
            return shown;
        }
        let rep = u64_to_string(self.nanos as u64);
        let rep_len = rep.as_str().unicode_len();
        proof {
            use_type_invariant(&*self);
            lemma_pow10_nine();
            lemma_dec_rep_len(self.nanos as nat, 9);
        }
        let mut padded = String::new();
        let mut i: usize = 0;
        let pad = 9 - rep_len;
        while i < pad
            invariant
                0 <= i <= pad,
                padded@ =~= zeros(i as nat),
            decreases pad - i,
        {
            padded.append("0");
            proof {
                reveal_strlit("0");
                assert(padded@ =~= zeros(i as nat + 1));
            }
            i = i + 1;
        }
        padded.append(rep.as_str());
        proof {
            assert(padded@ == padded_nanos(self.nanos as nat));
        }
        let trimmed = strip_trailing(padded.as_str(), '0');
        shown.append(".");
        shown.append(trimmed);
        shown
    }
}

} // verus!

verus! {

proof fn lemma_no_dot_in_digits(s: Seq<char>)
    requires
        all_digits(s),
    ensures
        !(exists|i: int| first_occurrence_at(s, '.', i)),
{
    if exists|i: int| first_occurrence_at(s, '.', i) {
        let i = choose|i: int| first_occurrence_at(s, '.', i);
        assert(is_digit_char(s[i]));
    }
}

/// A whole-second pause shown and read back is the same pause, and its
/// textual form is a plain numeral.
pub proof fn lemma_cooldown_round_trip_integral(secs: u64)
    ensures
        cooldown_parsed(cooldown_shown(secs, 0)) == Some((secs as nat, 0nat)),
        is_numeral(cooldown_shown(secs, 0)),
{
    let shown = dec_rep(secs as nat);
    lemma_dec_rep_is_numeral(secs as nat);
    assert(is_digit_char(shown.last()));
    assert(trim_trailing(shown, 's') == shown);
    lemma_no_dot_in_digits(shown);
    lemma_dec_val_of_rep(secs as nat);
}

/// A fractional pause shown and read back is the same pause, and its textual
/// form carries a decimal point.
pub proof fn lemma_cooldown_round_trip_fractional(secs: u64, nanos: u32)
    requires
        0 < nanos < NANOS_PER_SECOND,
    ensures
        cooldown_parsed(cooldown_shown(secs, nanos)) == Some((secs as nat, nanos as nat)),
        cooldown_shown(secs, nanos).contains('.'),
{
    reveal_strlit(".");
    let rep = dec_rep(secs as nat);
    let nanos_rep = dec_rep(nanos as nat);
    let padded = padded_nanos(nanos as nat);
    let frd = trim_trailing(padded, '0');
    let shown = cooldown_shown(secs, nanos);
    assert(shown == rep + "."@ + frd);

    lemma_pow10_nine();
    lemma_dec_rep_len(nanos as nat, 9);
    lemma_dec_rep_is_numeral(nanos as nat);
    lemma_dec_rep_is_numeral(secs as nat);

    let pad = (9 - nanos_rep.len()) as nat;
    assert(padded == zeros(pad) + nanos_rep);
    assert(padded.len() == 9);
    assert(all_digits(padded)) by {
        assert forall|i: int| 0 <= i < padded.len() implies is_digit_char(padded[i]) by {
            if i < pad {
                assert(padded[i] == '0');
            } else {
                assert(padded[i] == nanos_rep[i - pad]);
            }
        }
    }
    assert(dec_val(padded) == nanos) by {
        lemma_dec_val_leading_zeros(pad, nanos_rep);
        lemma_dec_val_of_rep(nanos as nat);
    }

    lemma_trim_trailing_shape(padded, '0');
    let cut = (padded.len() - frd.len()) as nat;
    assert(padded =~= frd + zeros(cut));
    lemma_dec_val_trailing_zeros(frd, cut);
    assert(dec_val(frd) * pow10(cut) == nanos);
    assert(frd.len() > 0) by {
        if frd.len() == 0 {
            assert(dec_val(frd) == 0);
            assert(0 * pow10(cut) == 0);
        }
    }
    assert(all_digits(frd)) by {
        assert forall|i: int| 0 <= i < frd.len() implies is_digit_char(frd[i]) by {
            assert(frd[i] == padded[i]);
        }
    }

    // The shown text ends with a digit, so no trailing `s` is trimmed.
    assert(shown.len() == rep.len() + 1 + frd.len());
    assert(shown.last() == frd.last());
    assert(is_digit_char(frd.last()));
    assert(trim_trailing(shown, 's') == shown);

    // The single point stands right after the whole seconds.
    let dot = rep.len() as int;
    assert(shown[dot] == '.') by {
        assert(("."@)[0] == '.');
    }
    assert(first_occurrence_at(shown, '.', dot)) by {
        assert forall|j: int| 0 <= j < dot implies shown[j] != '.' by {
            assert(shown[j] == rep[j]);
            assert(is_digit_char(rep[j]));
        }
    }
    assert(shown.contains('.'));

    let i = choose|i: int| first_occurrence_at(shown, '.', i);
    assert(first_occurrence_at(shown, '.', i));
    assert(i == dot);

    let int_part = shown.subrange(0, dot);
    let frac_part = shown.subrange(dot + 1, shown.len() as int);
    assert(int_part =~= rep);
    assert(frac_part =~= frd);
    lemma_dec_val_of_rep(secs as nat);

    assert(frac_nanos(frd) == nanos) by {
        if frd.len() >= 9 {
            assert(frd.len() == 9);
            assert(cut == 0);
            assert(frd.take(9) =~= frd);
            assert(pow10(0nat) == 1);
            assert(dec_val(frd) * 1 == dec_val(frd));
        } else {
            assert(cut == 9 - frd.len());
        }
    }
}

} // verus!
