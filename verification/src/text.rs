//! Helpers on strings, stated over their character sequences.

use vstd::prelude::*;
use vstd::utf8::*;

verus! {

/// Whether two string slices hold the same characters.
pub fn str_eq(a: &str, b: &str) -> (r: bool)
    ensures
        r == (a@ == b@),
{
    let x = a.as_bytes();
    let y = b.as_bytes();
    proof {
        encode_utf8_decode_utf8(a@);
        encode_utf8_decode_utf8(b@);
    }
    if x.len() != y.len() {
        return false;
    }
    let mut i: usize = 0;
    while i < x.len()
        invariant
            x@ == encode_utf8(a@),
            y@ == encode_utf8(b@),
            x@.len() == y@.len(),
            i <= x@.len(),
            forall|j: int| 0 <= j < i ==> x@[j] == y@[j],
        decreases x@.len() - i,
    {
        if x[i] != y[i] {
            return false;
        }
        i = i + 1;
    }
    assert(x@ =~= y@);
    true
}

/// Whether a character is white space: whether it has the Unicode property
/// White_Space, as `char::is_whitespace` tells it.
pub uninterp spec fn is_whitespace(c: char) -> bool;

/// `char::is_whitespace` depends on the character alone; which characters it
/// holds of is left to `std`.
pub assume_specification[ char::is_whitespace ](c: char) -> (r: bool)
    ensures
        r == is_whitespace(c),
;

/// `s` without its longest prefix of characters of which `p` holds.
pub open spec fn strip_leading(s: Seq<char>, p: spec_fn(char) -> bool) -> Seq<char>
    decreases s.len(),
{
    if s.len() > 0 && p(s.first()) {
        strip_leading(s.drop_first(), p)
    } else {
        s
    }
}

/// `s` without its longest suffix of characters of which `p` holds.
pub open spec fn strip_trailing(s: Seq<char>, p: spec_fn(char) -> bool) -> Seq<char>
    decreases s.len(),
{
    if s.len() > 0 && p(s.last()) {
        strip_trailing(s.drop_last(), p)
    } else {
        s
    }
}

/// `s` without leading and trailing white space.
pub open spec fn trimmed(s: Seq<char>) -> Seq<char> {
    strip_trailing(strip_leading(s, |c: char| is_whitespace(c)), |c: char| is_whitespace(c))
}

/// `s` without the NUL characters at its end.
pub open spec fn without_trailing_nul(s: Seq<char>) -> Seq<char> {
    strip_trailing(s, |c: char| c == '\0')
}

/// Where the first `from` characters of `s` satisfy `p` and the next one, if
/// there is one, does not, stripping the prefix leaves `s` from `from` on.
pub proof fn lemma_strip_leading(s: Seq<char>, p: spec_fn(char) -> bool, from: int)
    requires
        0 <= from <= s.len(),
        forall|j: int| 0 <= j < from ==> p(#[trigger] s[j]),
        from < s.len() ==> !p(s[from]),
    ensures
        strip_leading(s, p) == s.subrange(from, s.len() as int),
    decreases from,
{
    if from == 0 {
        assert(s.subrange(0, s.len() as int) =~= s);
    } else {
        let rest = s.drop_first();
        assert forall|j: int| 0 <= j < from - 1 implies p(#[trigger] rest[j]) by {
            assert(rest[j] == s[j + 1]);
        }
        lemma_strip_leading(rest, p, from - 1);
        assert(rest.subrange(from - 1, rest.len() as int) =~= s.subrange(from, s.len() as int));
    }
}

/// Where the characters of `s` from `to` on satisfy `p` and the one before
/// `to`, if there is one, does not, stripping the suffix leaves the first `to`
/// characters of `s`.
pub proof fn lemma_strip_trailing(s: Seq<char>, p: spec_fn(char) -> bool, to: int)
    requires
        0 <= to <= s.len(),
        forall|j: int| to <= j < s.len() ==> p(#[trigger] s[j]),
        to > 0 ==> !p(s[to - 1]),
    ensures
        strip_trailing(s, p) == s.subrange(0, to),
    decreases s.len() - to,
{
    if to == s.len() {
        assert(s.subrange(0, s.len() as int) =~= s);
    } else {
        let rest = s.drop_last();
        assert forall|j: int| to <= j < rest.len() implies p(#[trigger] rest[j]) by {
            assert(rest[j] == s[j]);
        }
        lemma_strip_trailing(rest, p, to);
        assert(rest.subrange(0, to) =~= s.subrange(0, to));
    }
}

/// The slice without leading and trailing white space.
pub fn trim(s: &str) -> (r: &str)
    ensures
        r@ == trimmed(s@),
{
    let n: usize = s.unicode_len();
    let mut start: usize = n;
    let mut end: usize = 0;
    let mut i: usize = 0;
    for c in iter: s.chars()
        invariant
            iter.seq() == s@,
            n == s@.len(),
            i == iter.index(),
            end == 0 ==> start == n && forall|j: int| 0 <= j < i ==> is_whitespace(#[trigger] s@[j]),
            end > 0 ==> {
                &&& start < end <= i
                &&& !is_whitespace(s@[start as int])
                &&& !is_whitespace(s@[end - 1])
                &&& forall|j: int| 0 <= j < start ==> is_whitespace(#[trigger] s@[j])
                &&& forall|j: int| end <= j < i ==> is_whitespace(#[trigger] s@[j])
            },
    {
        if !c.is_whitespace() {
            if end == 0 {
                start = i;
            }
            end = i + 1;
        }
        i = i + 1;
    }
    if end == 0 {
        start = 0;
    }
    proof {
        let ws = |c: char| is_whitespace(c);
        let inner = s@.subrange(start as int, n as int);
        if end == 0 {
            lemma_strip_leading(s@, ws, n as int);
            lemma_strip_trailing(s@.subrange(n as int, n as int), ws, 0);
            assert(s@.subrange(n as int, n as int) =~= s@.subrange(0, 0));
        } else {
            lemma_strip_leading(s@, ws, start as int);
            assert forall|j: int| end - start <= j < inner.len() implies ws(#[trigger] inner[j]) by {
                assert(inner[j] == s@[j + start]);
            }
            lemma_strip_trailing(inner, ws, end - start);
            assert(inner.subrange(0, end - start) =~= s@.subrange(start as int, end as int));
        }
    }
    s.substring_char(start, end)
}

/// The slice without the NUL characters at its end.
pub fn trim_end_nul(s: &str) -> (r: &str)
    ensures
        r@ == without_trailing_nul(s@),
{
    let n: usize = s.unicode_len();
    let mut end: usize = 0;
    let mut i: usize = 0;
    for c in iter: s.chars()
        invariant
            iter.seq() == s@,
            n == s@.len(),
            i == iter.index(),
            end <= i,
            end > 0 ==> s@[end - 1] != '\0',
            forall|j: int| end <= j < i ==> #[trigger] s@[j] == '\0',
    {
        if c != '\0' {
            end = i + 1;
        }
        i = i + 1;
    }
    proof {
        lemma_strip_trailing(s@, |c: char| c == '\0', end as int);
    }
    s.substring_char(0, end)
}

/// The first place at which the character stands in the slice, counted in
/// characters.
pub fn find_char(s: &str, needle: char) -> (r: Option<usize>)
    ensures
        r is Some ==> r->0 < s@.len(),
        match r {
            Some(i) => s@.index_of_first(needle) == Some(i as int),
            None => s@.index_of_first(needle) is None,
        },
{
    let n: usize = s.unicode_len();
    let mut i: usize = 0;
    proof {
        s@.index_of_first_ensures(needle);
    }
    for c in iter: s.chars()
        invariant
            iter.seq() == s@,
            n == s@.len(),
            i == iter.index(),
            forall|j: int| 0 <= j < i ==> s@[j] != needle,
            match s@.index_of_first(needle) {
                Some(index) => {
                    &&& s@.contains(needle)
                    &&& 0 <= index < s@.len()
                    &&& s@[index] == needle
                    &&& forall|j: int| 0 <= j < index < s@.len() ==> s@[j] != needle
                },
                None => !s@.contains(needle),
            },
    {
        if c == needle {
            return Some(i);
        }
        i = i + 1;
    }
    None
}

} // verus!
