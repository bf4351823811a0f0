//! Text handling around numbers: tidying the caller's decimal and scientific
//! renderings for the readout (no trailing zeros, an explicit exponent sign),
//! and trimming pasted text before it is parsed.

use vstd::prelude::*;

use crate::text::{chars_of, string_of};

verus! {

/// `s` with its trailing zeros removed.
pub open spec fn strip_zeros(s: Seq<char>) -> Seq<char>
    decreases s.len(),
{
    if s.len() > 0 && s.last() == '0' {
        strip_zeros(s.drop_last())
    } else {
        s
    }
}

/// A decimal rendering without a fractional tail of zeros: when `s` has a
/// point, its trailing zeros go, and then the point too if nothing is left
/// after it. Without a point, `s` is unchanged (so `100` stays `100`).
pub open spec fn tidy_fraction(s: Seq<char>) -> Seq<char> {
    if s.contains('.') {
        let t = strip_zeros(s);
        if t.len() > 0 && t.last() == '.' {
            t.drop_last()
        } else {
            t
        }
    } else {
        s
    }
}

/// An exponent part (starting at its `e`) with an explicit sign: `e-7` stays,
/// `e20` becomes `e+20`.
pub open spec fn signed_exponent(x: Seq<char>) -> Seq<char> {
    if x.len() >= 2 && x[1] == '-' {
        x
    } else {
        seq!['e', '+'] + x.drop_first()
    }
}

/// Whether `p` is the position of the first `e` in `s`.
pub open spec fn first_e(s: Seq<char>, p: int) -> bool {
    0 <= p < s.len() && s[p] == 'e' && forall|q: int| 0 <= q < p ==> s[q] != 'e'
}

/// Removes the fractional tail of zeros from a decimal rendering.
fn tidy_chars(s: Vec<char>) -> (r: Vec<char>)
    ensures
        r@ == tidy_fraction(s@),
{
    let ghost orig = s@;
    let mut t = s;
    if !crate::entry::has_dot(&t) {
        return t;
    }
    while t.len() > 0 && t[t.len() - 1] == '0'
        invariant
            strip_zeros(t@) == strip_zeros(orig),
        decreases t.len(),
    {
        t.pop();
    }
    if t.len() > 0 && t[t.len() - 1] == '.' {
        t.pop();
    }
    t
}

/// The readout's form of a fixed-point rendering `text`: trailing zeros
/// after the point are dropped, and a bare trailing point with them.
pub fn trim_fraction(text: &str) -> (r: String)
    ensures
        r@ == tidy_fraction(text@),
{
    string_of(&tidy_chars(chars_of(text)))
}

/// The readout's form of a scientific rendering `text` such as
/// `1.50000000000000e20`: the mantissa loses its tail of zeros and the
/// exponent gets an explicit sign (`1.5e+20`). Text without an `e` is
/// returned as it is.
pub fn scientific(text: &str) -> (r: String)
    ensures
        !text@.contains('e') ==> r@ == text@,
        forall|p: int| first_e(text@, p) ==> r@ == tidy_fraction(text@.take(p)) + signed_exponent(
            text@.skip(p),
        ),
{
    let s = chars_of(text);
    let mut pos: usize = 0;
    while pos < s.len() && s[pos] != 'e'
        invariant
            pos <= s.len(),
            s@ == text@,
            forall|q: int| 0 <= q < pos ==> s@[q] != 'e',
        decreases s.len() - pos,
    {
        pos = pos + 1;
    }
    if pos == s.len() {
        return string_of(&s);
    }
    proof {
        assert forall|p: int| first_e(text@, p) implies p == pos by {
            if p < pos {
            } else if p > pos {
                assert(s@[pos as int] == 'e');
            }
        }
    }
    let mut mantissa: Vec<char> = Vec::new();
    let mut i: usize = 0;
    while i < pos
        invariant
            i <= pos < s.len(),
            mantissa@ == s@.take(i as int),
        decreases pos - i,
    {
        mantissa.push(s[i]);
        assert(s@.take(i as int).push(s@[i as int]) =~= s@.take(i + 1));
        i = i + 1;
    }
    let mut out = tidy_chars(mantissa);
    let ghost head = out@;
    let negative = pos + 1 < s.len() && s[pos + 1] == '-';
    out.push('e');
    if !negative {
        out.push('+');
    } else {
        out.push('-');
    }
    let mut j: usize = pos + 1;
    if negative {
        j = pos + 2;
    }
    let ghost start = j;
    let ghost x = s@.skip(pos as int);
    proof {
        if negative {
            assert(x.take(2) =~= seq!['e', '-']);
            assert(head + x.take(j - pos) =~= out@);
        } else {
            assert(x.drop_first().take(0) =~= Seq::<char>::empty());
            assert(head + seq!['e', '+'] + x.drop_first().take(j - pos - 1) =~= out@);
        }
    }
    while j < s.len()
        invariant
            pos < start <= j <= s.len(),
            x == s@.skip(pos as int),
            negative ==> out@ == head + x.take(j - pos),
            !negative ==> out@ == head + seq!['e', '+'] + x.drop_first().take(j - pos - 1),
            !negative ==> start == pos + 1,
        decreases s.len() - j,
    {
        out.push(s[j]);
        proof {
            assert(x.take(j - pos).push(s@[j as int]) =~= x.take(j + 1 - pos));
            assert(x.drop_first().take(j - pos - 1).push(s@[j as int]) =~= x.drop_first().take(
                j + 1 - pos - 1,
            ));
        }
        j = j + 1;
    }
    proof {
        assert(x.take(s.len() - pos) =~= x);
        assert(x.drop_first().take(s.len() - pos - 1) =~= x.drop_first());
        assert(mantissa@ =~= text@.take(pos as int));
    }
    string_of(&out)
}

/// A character with the Unicode `White_Space` property — what the standard
/// library's `char::is_whitespace` and `str::trim` go by.
pub open spec fn is_space(c: char) -> bool {
    ('\u{9}' <= c && c <= '\u{d}') || c == ' ' || c == '\u{85}' || c == '\u{a0}' || c
        == '\u{1680}' || ('\u{2000}' <= c && c <= '\u{200a}') || c == '\u{2028}' || c
        == '\u{2029}' || c == '\u{202f}' || c == '\u{205f}' || c == '\u{3000}'
}

/// `s` without its leading white space.
pub open spec fn strip_front(s: Seq<char>) -> Seq<char>
    decreases s.len(),
{
    if s.len() > 0 && is_space(s[0]) {
        strip_front(s.drop_first())
    } else {
        s
    }
}

/// `s` without its trailing white space.
pub open spec fn strip_back(s: Seq<char>) -> Seq<char>
    decreases s.len(),
{
    if s.len() > 0 && is_space(s.last()) {
        strip_back(s.drop_last())
    } else {
        s
    }
}

/// `s` without leading and trailing white space.
pub open spec fn trim_spaces(s: Seq<char>) -> Seq<char> {
    strip_back(strip_front(s))
}

/// Whether `c` is white space.
fn space(c: char) -> (r: bool)
    ensures
        r == is_space(c),
{
    ('\u{9}' <= c && c <= '\u{d}') || c == ' ' || c == '\u{85}' || c == '\u{a0}' || c
        == '\u{1680}' || ('\u{2000}' <= c && c <= '\u{200a}') || c == '\u{2028}' || c
        == '\u{2029}' || c == '\u{202f}' || c == '\u{205f}' || c == '\u{3000}'
}

/// Pasted text with surrounding white space removed, ready to be parsed as a
/// number.
pub fn trim_pasted(text: &str) -> (r: String)
    ensures
        r@ == trim_spaces(text@),
{
    let s = chars_of(text);
    let mut start: usize = 0;
    assert(s@.skip(0) =~= s@);
    while start < s.len() && space(s[start])
        invariant
            start <= s.len(),
            s@ == text@,
            strip_front(s@) == strip_front(s@.skip(start as int)),
        decreases s.len() - start,
    {
        assert(s@.skip(start as int).drop_first() =~= s@.skip(start + 1));
        start = start + 1;
    }
    let mut t: Vec<char> = Vec::new();
    let mut i: usize = start;
    while i < s.len()
        invariant
            start <= i <= s.len(),
            t@ == s@.subrange(start as int, i as int),
        decreases s.len() - i,
    {
        t.push(s[i]);
        assert(s@.subrange(start as int, i as int).push(s@[i as int]) =~= s@.subrange(
            start as int,
            i + 1,
        ));
        i = i + 1;
    }
    assert(t@ =~= s@.skip(start as int));
    let ghost front = t@;
    while t.len() > 0 && space(t[t.len() - 1])
        invariant
            strip_back(t@) == strip_back(front),
        decreases t.len(),
    {
        t.pop();
    }
    string_of(&t)
}

} // verus!
