//! The number being typed: the literal keystrokes of the current entry, kept as
//! characters so the readout can echo a trailing `.` and Backspace can edit
//! them. Everything here is text; turning the text into a number is the
//! caller's job (see `Request::Parse`).

use vstd::prelude::*;

verus! {

/// Largest number of digits an entry may hold — the readout caps out here just
/// like the original's fixed-width LCD.
pub const MAX_DIGITS: usize = 16;

/// An ASCII decimal digit.
pub open spec fn is_digit(c: char) -> bool {
    '0' <= c && c <= '9'
}

/// How many decimal digits `s` holds.
pub open spec fn digit_count(s: Seq<char>) -> nat
    decreases s.len(),
{
    if s.len() == 0 {
        0
    } else {
        digit_count(s.drop_last()) + if is_digit(s.last()) {
            1nat
        } else {
            0nat
        }
    }
}

/// `s` with every trailing `.` removed.
pub open spec fn trim_dots(s: Seq<char>) -> Seq<char>
    decreases s.len(),
{
    if s.len() > 0 && s.last() == '.' {
        trim_dots(s.drop_last())
    } else {
        s
    }
}

/// Texts that read as zero before any digit makes them a number: nothing, a
/// lone minus sign, or minus zero.
pub open spec fn is_zero_text(t: Seq<char>) -> bool {
    t == Seq::<char>::empty() || t == seq!['-'] || t == seq!['-', '0']
}

/// The digits-and-point part of an entry, after an optional leading minus.
pub open spec fn magnitude(e: Seq<char>) -> Seq<char> {
    if e.len() > 0 && e[0] == '-' {
        e.drop_first()
    } else {
        e
    }
}

/// The shape every entry keeps: an optional `-`, then a digit, then digits
/// with at most one `.` among them, and never more than `MAX_DIGITS` digits.
pub open spec fn entry_ok(e: Seq<char>) -> bool {
    let m = magnitude(e);
    &&& m.len() > 0
    &&& is_digit(m[0])
    &&& forall|i: int| 0 <= i < m.len() ==> is_digit(#[trigger] m[i]) || m[i] == '.'
    &&& forall|i: int, j: int| 0 <= i < j < m.len() && m[i] == '.' ==> m[j] != '.'
    &&& digit_count(e) <= MAX_DIGITS
}

/// The character for digit `d` (0–9).
pub open spec fn digit_char(d: u8) -> char {
    if d == 0 {
        '0'
    } else if d == 1 {
        '1'
    } else if d == 2 {
        '2'
    } else if d == 3 {
        '3'
    } else if d == 4 {
        '4'
    } else if d == 5 {
        '5'
    } else if d == 6 {
        '6'
    } else if d == 7 {
        '7'
    } else if d == 8 {
        '8'
    } else {
        '9'
    }
}

/// Appending a character adds one to the count exactly when it is a digit.
pub proof fn lemma_digit_count_push(s: Seq<char>, c: char)
    ensures
        digit_count(s.push(c)) == digit_count(s) + if is_digit(c) {
            1nat
        } else {
            0nat
        },
{
    assert(s.push(c).drop_last() =~= s);
}

/// A leading non-digit does not change the count.
pub proof fn lemma_digit_count_prepend(c: char, s: Seq<char>)
    requires
        !is_digit(c),
    ensures
        digit_count(seq![c] + s) == digit_count(s),
    decreases s.len(),
{
    if s.len() > 0 {
        lemma_digit_count_prepend(c, s.drop_last());
        assert((seq![c] + s).drop_last() =~= seq![c] + s.drop_last());
        assert((seq![c] + s).last() == s.last());
    } else {
        assert(seq![c] + s =~= seq![c]);
        assert(seq![c].drop_last() =~= Seq::<char>::empty());
        assert(digit_count(Seq::<char>::empty()) == 0);
        assert(digit_count(seq![c]) == 0);
    }
}

/// Dropping the last character never raises the count.
pub proof fn lemma_digit_count_drop_last(s: Seq<char>)
    requires
        s.len() > 0,
    ensures
        digit_count(s.drop_last()) <= digit_count(s),
{
}

/// The count of an entry is the count of its magnitude.
pub proof fn lemma_digit_count_magnitude(e: Seq<char>)
    ensures
        digit_count(magnitude(e)) == digit_count(e),
{
    if e.len() > 0 && e[0] == '-' {
        assert(e =~= seq!['-'] + e.drop_first());
        lemma_digit_count_prepend('-', e.drop_first());
    }
}


/// The entry after typing digit `d`: a lone `0` (or `-0`) is replaced rather
/// than extended, so `0` then `5` reads `5`, not `05`.
pub open spec fn entry_with_digit(e: Seq<char>, d: u8) -> Seq<char> {
    let base = if e == seq!['0'] {
        Seq::<char>::empty()
    } else if e == seq!['-', '0'] {
        seq!['-']
    } else {
        e
    };
    base.push(digit_char(d))
}

/// The entry after the decimal point key: a second point is ignored.
pub open spec fn entry_with_dot(e: Seq<char>) -> Seq<char> {
    if e.contains('.') {
        e
    } else {
        e.push('.')
    }
}

/// The entry after Backspace: the last character goes, and an entry left
/// empty (or holding only a minus sign) parks at `0`.
pub open spec fn entry_backspaced(e: Seq<char>) -> Seq<char> {
    let t = e.drop_last();
    if t.len() == 0 || t == seq!['-'] {
        seq!['0']
    } else {
        t
    }
}

/// Whether the sign key edits the entry in place (it does, unless the entry is
/// a bare `0`).
pub open spec fn sign_edits_entry(e: Seq<char>) -> bool {
    e != seq!['0'] && e.len() > 0
}

/// The entry with its sign flipped: a leading minus is removed or added.
pub open spec fn entry_negated(e: Seq<char>) -> Seq<char> {
    if e.len() > 0 && e[0] == '-' {
        e.drop_first()
    } else {
        seq!['-'] + e
    }
}

/// The entry that typing starts from: a digit typed onto a finished value
/// starts a fresh `0`.
pub open spec fn fresh_entry() -> Seq<char> {
    seq!['0']
}

/// The count of a one-character text.
pub proof fn lemma_digit_count_single(c: char)
    ensures
        digit_count(seq![c]) == if is_digit(c) {
            1nat
        } else {
            0nat
        },
{
    let z = Seq::<char>::empty();
    assert(digit_count(z) == 0);
    lemma_digit_count_push(z, c);
    assert(z.push(c) =~= seq![c]);
}

/// The fresh entry is well formed.
pub proof fn lemma_fresh_entry_ok()
    ensures
        entry_ok(fresh_entry()),
        entry_ok(seq!['0', '.']),
{
    let z = seq!['0'];
    lemma_digit_count_single('0');
    let zd = seq!['0', '.'];
    lemma_digit_count_push(z, '.');
    assert(z.push('.') =~= zd);
    assert(magnitude(zd) =~= zd);
}

/// Typing a digit keeps an entry well formed while there is room for it.
pub proof fn lemma_entry_with_digit_ok(e: Seq<char>, d: u8)
    requires
        entry_ok(e),
        digit_count(e) < MAX_DIGITS,
        d <= 9,
    ensures
        entry_ok(entry_with_digit(e, d)),
        digit_count(entry_with_digit(e, d)) == if e == seq!['0'] || e == seq!['-', '0'] {
            1
        } else {
            digit_count(e) + 1
        },
{
    let c = digit_char(d);
    let r = entry_with_digit(e, d);
    if e == seq!['0'] {
        assert(r =~= seq![c]);
        lemma_digit_count_single(c);
        assert(magnitude(r) =~= r);
    } else if e == seq!['-', '0'] {
        assert(r =~= seq!['-', c]);
        lemma_digit_count_single('-');
        lemma_digit_count_push(seq!['-'], c);
        assert(seq!['-'].push(c) =~= r);
        assert(magnitude(r) =~= seq![c]);
    } else {
        assert(r =~= e.push(c));
        lemma_digit_count_push(e, c);
        let m = magnitude(e);
        if e.len() > 0 && e[0] == '-' {
            assert(magnitude(r) =~= m.push(c));
        } else {
            assert(magnitude(r) =~= m.push(c));
        }
    }
}

/// The decimal point keeps an entry well formed.
pub proof fn lemma_entry_with_dot_ok(e: Seq<char>)
    requires
        entry_ok(e),
    ensures
        entry_ok(entry_with_dot(e)),
{
    if !e.contains('.') {
        let r = e.push('.');
        lemma_digit_count_push(e, '.');
        let m = magnitude(e);
        assert(magnitude(r) =~= m.push('.'));
        assert forall|i: int| 0 <= i < m.len() implies m[i] != '.' by {
            if e.len() > 0 && e[0] == '-' {
                assert(m[i] == e[i + 1]);
            } else {
                assert(m[i] == e[i]);
            }
        }
    }
}

/// Backspace keeps an entry well formed.
pub proof fn lemma_entry_backspaced_ok(e: Seq<char>)
    requires
        entry_ok(e),
    ensures
        entry_ok(entry_backspaced(e)),
{
    let t = e.drop_last();
    lemma_fresh_entry_ok();
    if !(t.len() == 0 || t == seq!['-']) {
        lemma_digit_count_drop_last(e);
        let m = magnitude(e);
        if e[0] == '-' {
            if t.len() == 1 {
                assert(t =~= seq!['-']);
            }
            assert(magnitude(t) =~= m.drop_last());
        } else {
            assert(magnitude(t) =~= m.drop_last());
        }
    }
}

/// Flipping the sign keeps an entry well formed and its digits unchanged.
pub proof fn lemma_entry_negated_ok(e: Seq<char>)
    requires
        entry_ok(e),
    ensures
        entry_ok(entry_negated(e)),
        digit_count(entry_negated(e)) == digit_count(e),
{
    lemma_digit_count_magnitude(e);
    let m = magnitude(e);
    if e.len() > 0 && e[0] == '-' {
        assert(entry_negated(e) == m);
        assert(magnitude(m) == m);
    } else {
        lemma_digit_count_prepend('-', e);
        let r = seq!['-'] + e;
        assert(r.drop_first() =~= e);
        assert(magnitude(r) =~= e);
    }
}

/// Flipping the sign of a well-formed entry twice restores it.
pub proof fn lemma_entry_negated_twice(e: Seq<char>)
    requires
        entry_ok(e),
    ensures
        entry_negated(entry_negated(e)) == e,
{
    if e.len() > 0 && e[0] == '-' {
        let m = e.drop_first();
        assert(m[0] != '-');
        assert(seq!['-'] + m =~= e);
    } else {
        let r = seq!['-'] + e;
        assert(r.drop_first() =~= e);
    }
}


/// Types digit `d` onto entry `e`.
pub fn with_digit(e: Vec<char>, d: u8) -> (r: Vec<char>)
    requires
        d <= 9,
    ensures
        r@ == entry_with_digit(e@, d),
{
    let ghost orig = e@;
    let mut e = e;
    if e.len() == 1 && e[0] == '0' {
        assert(orig =~= seq!['0']);
        e.clear();
        assert(e@ =~= Seq::<char>::empty());
    } else if e.len() == 2 && e[0] == '-' && e[1] == '0' {
        assert(orig =~= seq!['-', '0']);
        e.pop();
        assert(e@ =~= seq!['-']);
    } else {
        assert(orig != seq!['0']) by {
            if orig == seq!['0'] {
                assert(orig.len() == 1 && orig[0] == '0');
            }
        }
        assert(orig != seq!['-', '0']) by {
            if orig == seq!['-', '0'] {
                assert(orig.len() == 2 && orig[0] == '-' && orig[1] == '0');
            }
        }
    }
    e.push(digit_to_char(d));
    e
}

/// Types the decimal point onto entry `e`.
pub fn with_dot(e: Vec<char>) -> (r: Vec<char>)
    ensures
        r@ == entry_with_dot(e@),
{
    let mut e = e;
    if !has_dot(&e) {
        e.push('.');
    }
    e
}

/// Entry `e` after Backspace.
pub fn backspaced(e: Vec<char>) -> (r: Vec<char>)
    requires
        e.len() > 0,
    ensures
        r@ == entry_backspaced(e@),
{
    let mut e = e;
    let ghost before = e@;
    e.pop();
    assert(e@ =~= before.drop_last());
    if e.len() == 0 || (e.len() == 1 && e[0] == '-') {
        let z = vec!['0'];
        assert(z@ =~= seq!['0']);
        proof {
            if e.len() == 1 {
                assert(e@ =~= seq!['-']);
            }
        }
        z
    } else {
        proof {
            if e@ == seq!['-'] {
                assert(e@.len() == 1 && e@[0] == '-');
            }
        }
        e
    }
}

/// Whether the sign key edits entry `e` in place.
pub fn sign_edits(e: &Vec<char>) -> (r: bool)
    ensures
        r == sign_edits_entry(e@),
{
    let r = !(e.len() == 1 && e[0] == '0') && e.len() > 0;
    proof {
        if e.len() == 1 && e[0] == '0' {
            assert(e@ =~= seq!['0']);
        }
        if e@ == seq!['0'] {
            assert(e@.len() == 1 && e@[0] == '0');
        }
    }
    r
}

/// Entry `e` with its sign flipped.
pub fn negated_entry(e: Vec<char>) -> (r: Vec<char>)
    ensures
        r@ == entry_negated(e@),
{
    let mut e = e;
    if e.len() > 0 && e[0] == '-' {
        e.remove(0);
        e
    } else {
        let ghost before = e@;
        e.insert(0, '-');
        assert(e@ =~= seq!['-'] + before);
        e
    }
}


/// Trimming the trailing point keeps an entry well formed, and leaves no
/// point at the end: what remains is a decimal literal.
pub proof fn lemma_trim_dots_ok(e: Seq<char>)
    requires
        entry_ok(e),
    ensures
        entry_ok(trim_dots(e)),
        trim_dots(e).last() != '.',
{
    let m = magnitude(e);
    if e.len() > 0 && e.last() == '.' {
        let t = e.drop_last();
        let neg = e[0] == '-';
        // The point is the last character of the magnitude, which starts with
        // a digit, so the magnitude has at least two characters.
        assert(m.last() == '.') by {
            if neg {
                assert(m[m.len() - 1] == e[e.len() - 1]);
            }
        }
        assert(m.len() >= 2);
        assert(magnitude(t) =~= m.drop_last()) by {
            if neg {
                assert(t[0] == '-');
            }
        }
        assert(m[m.len() - 2] != '.');
        assert(t.last() == m[m.len() - 2]) by {
            if neg {
                assert(m[m.len() - 2] == e[e.len() - 2]);
            }
        }
        lemma_digit_count_drop_last(e);
        assert(trim_dots(t) == t);
    }
}

/// Character `d` of the text for digits, as an executable step.
pub fn digit_to_char(d: u8) -> (c: char)
    requires
        d <= 9,
    ensures
        c == digit_char(d),
{
    match d {
        0 => '0',
        1 => '1',
        2 => '2',
        3 => '3',
        4 => '4',
        5 => '5',
        6 => '6',
        7 => '7',
        8 => '8',
        _ => '9',
    }
}

/// Counts the digits of `s`.
pub fn count_digits(s: &Vec<char>) -> (n: usize)
    ensures
        n == digit_count(s@),
{
    let mut n: usize = 0;
    let mut i: usize = 0;
    while i < s.len()
        invariant
            i <= s.len(),
            n == digit_count(s@.take(i as int)),
            n <= i,
        decreases s.len() - i,
    {
        proof {
            lemma_digit_count_push(s@.take(i as int), s@[i as int]);
            assert(s@.take(i as int).push(s@[i as int]) =~= s@.take(i + 1));
        }
        if '0' <= s[i] && s[i] <= '9' {
            n = n + 1;
        }
        i = i + 1;
    }
    assert(s@.take(s.len() as int) =~= s@);
    n
}

/// Whether `s` holds a `.`.
pub fn has_dot(s: &Vec<char>) -> (r: bool)
    ensures
        r == s@.contains('.'),
{
    let mut i: usize = 0;
    while i < s.len()
        invariant
            i <= s.len(),
            forall|k: int| 0 <= k < i ==> s@[k] != '.',
        decreases s.len() - i,
    {
        if s[i] == '.' {
            return true;
        }
        i = i + 1;
    }
    false
}

/// `s` without its trailing dots.
pub fn without_trailing_dots(s: &Vec<char>) -> (t: Vec<char>)
    ensures
        t@ == trim_dots(s@),
{
    let mut t = s.clone();
    assert(t@ =~= s@);
    while t.len() > 0 && t[t.len() - 1] == '.'
        invariant
            trim_dots(t@) == trim_dots(s@),
        decreases t.len(),
    {
        t.pop();
    }
    t
}

/// Whether `t` is one of the texts that read as zero.
pub fn reads_as_zero(t: &Vec<char>) -> (r: bool)
    ensures
        r == is_zero_text(t@),
{
    let r = t.len() == 0 || (t.len() == 1 && t[0] == '-') || (t.len() == 2 && t[0] == '-' && t[1]
        == '0');
    proof {
        if t.len() == 0 {
            assert(t@ =~= Seq::<char>::empty());
        } else if t.len() == 1 && t[0] == '-' {
            assert(t@ =~= seq!['-']);
        } else if t.len() == 2 && t[0] == '-' && t[1] == '0' {
            assert(t@ =~= seq!['-', '0']);
        }
    }
    r
}

} // verus!
