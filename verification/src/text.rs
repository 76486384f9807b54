//! Small string operations that the configuration parsers share.
use vstd::prelude::*;

verus! {

/// `s` with every trailing occurrence of `c` removed.
pub open spec fn trim_trailing(s: Seq<char>, c: char) -> Seq<char>
    decreases s.len(),
{
    if s.len() > 0 && s.last() == c {
        trim_trailing(s.drop_last(), c)
    } else {
        s
    }
}

/// `c` occurs at `i` in `s`, and nowhere earlier.
pub open spec fn first_occurrence_at(s: Seq<char>, c: char, i: int) -> bool {
    &&& 0 <= i < s.len()
    &&& s[i] == c
    &&& forall|j: int| 0 <= j < i ==> s[j] != c
}

/// Trimming keeps an untouched prefix and removes only copies of `c`.
pub proof fn lemma_trim_trailing_shape(s: Seq<char>, c: char)
    ensures
        trim_trailing(s, c).len() <= s.len(),
        trim_trailing(s, c) =~= s.subrange(0, trim_trailing(s, c).len() as int),
        forall|j: int| trim_trailing(s, c).len() <= j < s.len() ==> s[j] == c,
        trim_trailing(s, c).len() > 0 ==> trim_trailing(s, c).last() != c,
    decreases s.len(),
{
    if s.len() > 0 && s.last() == c {
        lemma_trim_trailing_shape(s.drop_last(), c);
        let t = trim_trailing(s, c);
        assert(t == trim_trailing(s.drop_last(), c));
        assert(s.drop_last() =~= s.subrange(0, s.len() - 1));
        assert(t =~= s.subrange(0, t.len() as int)) by {
            assert(t =~= s.drop_last().subrange(0, t.len() as int));
        }
        assert forall|j: int| t.len() <= j < s.len() implies s[j] == c by {
            if j < s.len() - 1 {
                assert(s.drop_last()[j] == c);
                assert(s.drop_last()[j] == s[j]);
            } else {
                assert(s[j] == s.last());
            }
        }
    }
}

/// Whether two string slices hold the same characters.
pub fn str_eq(a: &str, b: &str) -> (r: bool)
    ensures
        r == (a@ == b@),
{
    let owned_a = String::from_str(a);
    let owned_b = String::from_str(b);
    owned_a == owned_b
}

/// `s` with every trailing occurrence of `c` removed.
pub fn strip_trailing<'a>(s: &'a str, c: char) -> (r: &'a str)
    ensures
        r@ == trim_trailing(s@, c),
{
    let len = s.unicode_len();
    let mut end: usize = len;
    proof {
        assert(s@.subrange(0, len as int) =~= s@);
    }
    while end > 0 && s.get_char(end - 1) == c
        invariant
            0 <= end <= len,
            len == s@.len(),
            trim_trailing(s@, c) == trim_trailing(s@.subrange(0, end as int), c),
        decreases end,
    {
        proof {
            let cur = s@.subrange(0, end as int);
            assert(cur.last() == s@[end - 1]);
            assert(cur.drop_last() =~= s@.subrange(0, end as int - 1));
        }
        end = end - 1;
    }
    proof {
        let cur = s@.subrange(0, end as int);
        if end > 0 {
            assert(cur.last() == s@[end - 1]);
        }
        assert(trim_trailing(cur, c) == cur);
    }
    s.substring_char(0, end)
}

/// The index of the first occurrence of `c` in `s`, if any.
pub fn find_first(s: &str, c: char) -> (r: Option<usize>)
    ensures
        match r {
            Some(i) => first_occurrence_at(s@, c, i as int),
            None => !s@.contains(c),
        },
{
    let len = s.unicode_len();
    let mut i: usize = 0;
    while i < len
        invariant
            0 <= i <= len,
            len == s@.len(),
            forall|j: int| 0 <= j < i ==> s@[j] != c,
        decreases len - i,
    {
        if s.get_char(i) == c {
            return Some(i);
        }
        i = i + 1;
    }
    proof {
        if s@.contains(c) {
            let witness = choose|j: int| 0 <= j < s@.len() && s@[j] == c;
            assert(s@[witness] != c);
        }
    }
    None
}

/// Split `s` at the first occurrence of `c`: the parts before and after it.
/// Mirrors the usual split-once behaviour of string slices.
pub fn split_once<'a>(s: &'a str, c: char) -> (r: Option<(&'a str, &'a str)>)
    ensures
        match r {
            Some(parts) => exists|i: int|
                #[trigger] first_occurrence_at(s@, c, i) && parts.0@ == s@.subrange(0, i)
                    && parts.1@ == s@.subrange(i + 1, s@.len() as int),
            None => !s@.contains(c),
        },
{
    let len = s.unicode_len();
    match find_first(s, c) {
        Some(i) => {
            let before = s.substring_char(0, i);
            let after = s.substring_char(i + 1, len);
            proof {
                assert(first_occurrence_at(s@, c, i as int) && before@ == s@.subrange(0, i as int)
                    && after@ == s@.subrange(i as int + 1, s@.len() as int));
            }
            Some((before, after))
        },
        None => None,
    }
}

/// The parts joined with `sep` between neighbours.
pub open spec fn join_with(parts: Seq<Seq<char>>, sep: Seq<char>) -> Seq<char>
    decreases parts.len(),
{
    if parts.len() == 0 {
        Seq::empty()
    } else if parts.len() == 1 {
        parts[0]
    } else {
        parts[0] + sep + join_with(parts.skip(1), sep)
    }
}

proof fn lemma_join_with_push(parts: Seq<Seq<char>>, last: Seq<char>, sep: Seq<char>)
    ensures
        join_with(parts.push(last), sep) == if parts.len() == 0 {
            last
        } else {
            join_with(parts, sep) + sep + last
        },
    decreases parts.len(),
{
    let grown = parts.push(last);
    if parts.len() == 0 {
        assert(grown.len() == 1);
        assert(grown[0] == last);
    } else if parts.len() == 1 {
        assert(grown.len() == 2);
        assert(grown[0] == parts[0]);
        assert(grown.skip(1) =~= seq![last]);
        assert(join_with(grown.skip(1), sep) == last);
    } else {
        lemma_join_with_push(parts.skip(1), last, sep);
        assert(grown.skip(1) =~= parts.skip(1).push(last));
        assert(grown[0] == parts[0]);
        assert(join_with(grown, sep) == parts[0] + sep + join_with(parts.skip(1).push(last), sep));
        assert(parts[0] + sep + (join_with(parts.skip(1), sep) + sep + last) =~= (parts[0] + sep
            + join_with(parts.skip(1), sep)) + sep + last);
    }
}

/// The parts joined with `sep` between neighbours.
pub fn join_strings(parts: &Vec<String>, sep: &str) -> (r: String)
    ensures
        r@ == join_with(parts.deep_view(), sep@),
{
    let mut r = String::new();
    let mut i: usize = 0;
    while i < parts.len()
        invariant
            0 <= i <= parts.len(),
            r@ == join_with(parts.deep_view().take(i as int), sep@),
        decreases parts.len() - i,
    {
        if i > 0 {
            r.append(sep);
        }
        r.append(parts[i].as_str());
        proof {
            let views = parts.deep_view();
            assert(views.take(i as int + 1) =~= views.take(i as int).push(views[i as int]));
            lemma_join_with_push(views.take(i as int), views[i as int], sep@);
        }
        i = i + 1;
    }
    proof {
        assert(parts.deep_view().take(parts.len() as int) =~= parts.deep_view());
    }
    r
}

} // verus!
