//! Character-level text helpers: conversion between `String` and `Vec<char>`,
//! decimal rendering, control-character escaping, line counting, and prefix
//! tests. Everything here is spelled out over `Seq<char>`.

use vstd::prelude::*;

verus! {

/// Collects the characters of a string slice.
pub(crate) fn text_chars(s: &str) -> (r: Vec<char>)
    ensures
        r@ == s@,
{
    let mut r: Vec<char> = Vec::new();
    for c in it: s.chars()
        invariant
            it.seq() == s@,
            r@ == it.seq().take(it.index() as int),
    {
        r.push(c);
    }
    proof {
        assert(r@ =~= s@);
    }
    r
}

/// Relies on `String: FromIterator<char>`: collecting characters yields a
/// string holding exactly that character sequence.
#[verifier::external_body]
pub(crate) fn string_from_chars(v: &Vec<char>) -> (r: String)
    ensures
        r@ == v@,
{
    v.iter().collect()
}

/// The character for a single decimal digit.
pub open spec fn digit_char(d: int) -> char {
    if d == 0 {
        '0'
    } else if d == 1 {
        '1'
    } else if d == 2 {
        '2'
    } else if d == 3 {
        '3'
    } else if d == 4 {
        '4'
    } else if d == 5 {
        '5'
    } else if d == 6 {
        '6'
    } else if d == 7 {
        '7'
    } else if d == 8 {
        '8'
    } else {
        '9'
    }
}

/// Decimal rendering of a non-negative integer, most significant digit first.
pub open spec fn dec_spec(n: int) -> Seq<char>
    decreases n,
{
    if n < 10 {
        seq![digit_char(n)]
    } else {
        dec_spec(n / 10).push(digit_char(n % 10))
    }
}

fn digit_char_exec(d: usize) -> (r: char)
    requires
        d < 10,
    ensures
        r == digit_char(d as int),
{
    if d == 0 {
        '0'
    } else if d == 1 {
        '1'
    } else if d == 2 {
        '2'
    } else if d == 3 {
        '3'
    } else if d == 4 {
        '4'
    } else if d == 5 {
        '5'
    } else if d == 6 {
        '6'
    } else if d == 7 {
        '7'
    } else if d == 8 {
        '8'
    } else {
        '9'
    }
}

/// Renders `n` in decimal.
pub(crate) fn dec_chars(n: usize) -> (r: Vec<char>)
    ensures
        r@ == dec_spec(n as int),
    decreases n,
{
    if n < 10 {
        let mut r: Vec<char> = Vec::new();
        r.push(digit_char_exec(n));
        proof {
            assert(r@ =~= dec_spec(n as int));
        }
        r
    } else {
        let mut r = dec_chars(n / 10);
        r.push(digit_char_exec(n % 10));
        r
    }
}

/// How a single character is rendered for display: newline, carriage return
/// and tab become two-character escapes; everything else is unchanged.
pub open spec fn escape_char(c: char) -> Seq<char> {
    if c == '\n' {
        seq!['\\', 'n']
    } else if c == '\r' {
        seq!['\\', 'r']
    } else if c == '\t' {
        seq!['\\', 't']
    } else {
        seq![c]
    }
}

/// Escapes every character of `s` with `escape_char`.
pub open spec fn escape_spec(s: Seq<char>) -> Seq<char>
    decreases s.len(),
{
    if s.len() == 0 {
        Seq::empty()
    } else {
        escape_char(s[0]) + escape_spec(s.drop_first())
    }
}

proof fn lemma_escape_push(s: Seq<char>, c: char)
    ensures
        escape_spec(s.push(c)) == escape_spec(s) + escape_char(c),
    decreases s.len(),
{
    if s.len() == 0 {
        assert(s.push(c)[0] == c);
        assert(s.push(c).drop_first() =~= Seq::<char>::empty());
        assert(escape_spec(s.push(c)) == escape_char(c) + escape_spec(Seq::<char>::empty()));
        assert(escape_spec(Seq::<char>::empty()) == Seq::<char>::empty());
        assert(escape_char(c) + Seq::<char>::empty() =~= Seq::<char>::empty() + escape_char(c));
    } else {
        lemma_escape_push(s.drop_first(), c);
        assert(s.push(c)[0] == s[0]);
        assert(s.push(c).drop_first() =~= s.drop_first().push(c));
        assert(escape_spec(s.push(c)) == escape_char(s[0]) + (escape_spec(s.drop_first())
            + escape_char(c)));
        assert(escape_char(s[0]) + (escape_spec(s.drop_first()) + escape_char(c)) =~= (escape_char(
            s[0],
        ) + escape_spec(s.drop_first())) + escape_char(c));
    }
}

/// Escapes the control characters of `v`.
pub(crate) fn escape_chars(v: &Vec<char>) -> (r: Vec<char>)
    ensures
        r@ == escape_spec(v@),
{
    let mut r: Vec<char> = Vec::new();
    let mut i: usize = 0;
    while i < v.len()
        invariant
            i <= v.len(),
            r@ == escape_spec(v@.take(i as int)),
        decreases v.len() - i,
    {
        let c = v[i];
        if c == '\n' {
            r.push('\\');
            r.push('n');
        } else if c == '\r' {
            r.push('\\');
            r.push('r');
        } else if c == '\t' {
            r.push('\\');
            r.push('t');
        } else {
            r.push(c);
        }
        proof {
            lemma_escape_push(v@.take(i as int), v@[i as int]);
            assert(v@.take(i + 1 as int) =~= v@.take(i as int).push(v@[i as int]));
            assert(r@ =~= escape_spec(v@.take(i as int)) + escape_char(v@[i as int]));
        }
        i = i + 1;
    }
    proof {
        assert(v@.take(v@.len() as int) =~= v@);
    }
    r
}

/// How many leading characters of `s` fit a budget of escaped characters:
/// the length of the longest prefix whose escaped rendering has at most
/// `budget` characters. Greedy is longest here, since every character costs
/// at least one.
pub open spec fn keep_within_spec(s: Seq<char>, budget: int) -> int
    decreases s.len(),
{
    if s.len() == 0 {
        0
    } else if escape_char(s[0]).len() <= budget {
        1 + keep_within_spec(s.drop_first(), budget - escape_char(s[0]).len())
    } else {
        0
    }
}

/// The kept prefix indeed fits: its escaped rendering stays within the
/// budget.
pub proof fn lemma_keep_within_budget(s: Seq<char>, budget: int)
    requires
        budget >= 0,
    ensures
        0 <= keep_within_spec(s, budget) <= s.len(),
        escape_spec(s.take(keep_within_spec(s, budget))).len() <= budget,
    decreases s.len(),
{
    let k = keep_within_spec(s, budget);
    if s.len() == 0 || escape_char(s[0]).len() > budget {
        assert(s.take(0) =~= Seq::<char>::empty());
    } else {
        lemma_keep_within_budget(s.drop_first(), budget - escape_char(s[0]).len());
        let k2 = keep_within_spec(s.drop_first(), budget - escape_char(s[0]).len());
        assert(s.take(k)[0] == s[0]);
        assert(s.take(k).drop_first() =~= s.drop_first().take(k2));
        assert(escape_spec(s.take(k)) == escape_char(s[0]) + escape_spec(s.drop_first().take(k2)));
    }
}

/// Escapes the longest prefix of `v` whose escaped rendering fits `budget`.
pub(crate) fn escape_within(v: &Vec<char>, budget: usize) -> (r: Vec<char>)
    ensures
        r@ == escape_spec(v@.take(keep_within_spec(v@, budget as int))),
{
    let mut r: Vec<char> = Vec::new();
    let mut used: usize = 0;
    let mut i: usize = 0;
    proof {
        assert(v@.skip(0) =~= v@);
    }
    while i < v.len()
        invariant
            i <= v.len(),
            used <= budget,
            used as int == escape_spec(v@.take(i as int)).len(),
            r@ == escape_spec(v@.take(i as int)),
            keep_within_spec(v@, budget as int) == i + keep_within_spec(
                v@.skip(i as int),
                budget - used,
            ),
        decreases v.len() - i,
    {
        let c = v[i];
        let cost: usize = if c == '\n' || c == '\r' || c == '\t' {
            2
        } else {
            1
        };
        proof {
            assert(v@.skip(i as int)[0] == v@[i as int]);
            assert(escape_char(v@[i as int]).len() == cost as int);
        }
        if cost > budget - used {
            proof {
                assert(keep_within_spec(v@.skip(i as int), budget - used) == 0);
            }
            return r;
        }
        if c == '\n' {
            r.push('\\');
            r.push('n');
        } else if c == '\r' {
            r.push('\\');
            r.push('r');
        } else if c == '\t' {
            r.push('\\');
            r.push('t');
        } else {
            r.push(c);
        }
        used = used + cost;
        proof {
            lemma_escape_push(v@.take(i as int), v@[i as int]);
            assert(v@.take(i + 1 as int) =~= v@.take(i as int).push(v@[i as int]));
            assert(r@ =~= escape_spec(v@.take(i as int)) + escape_char(v@[i as int]));
            assert(v@.skip(i as int).drop_first() =~= v@.skip(i + 1 as int));
        }
        i = i + 1;
    }
    proof {
        assert(v@.skip(v@.len() as int) =~= Seq::<char>::empty());
        assert(v@.take(v@.len() as int) =~= v@);
    }
    r
}

/// Number of newline characters in `s`.
pub open spec fn newline_count(s: Seq<char>) -> nat
    decreases s.len(),
{
    if s.len() == 0 {
        0
    } else if s.last() == '\n' {
        newline_count(s.drop_last()) + 1
    } else {
        newline_count(s.drop_last())
    }
}

proof fn lemma_newline_count_le(s: Seq<char>)
    ensures
        newline_count(s) <= s.len(),
    decreases s.len(),
{
    if s.len() > 0 {
        lemma_newline_count_le(s.drop_last());
    }
}

/// Number of display lines in `s`: one for every newline, plus one for a
/// final fragment not ended by a newline. The empty text has no line.
pub open spec fn line_count_spec(s: Seq<char>) -> nat {
    if s.len() == 0 {
        0
    } else if s.last() == '\n' {
        newline_count(s)
    } else {
        newline_count(s) + 1
    }
}

/// Counts the display lines of `v`.
pub(crate) fn line_count(v: &Vec<char>) -> (r: usize)
    ensures
        r as nat == line_count_spec(v@),
{
    let mut nl: usize = 0;
    let mut i: usize = 0;
    while i < v.len()
        invariant
            i <= v.len(),
            nl as nat == newline_count(v@.take(i as int)),
            nl <= i,
        decreases v.len() - i,
    {
        proof {
            assert(v@.take(i + 1 as int).drop_last() =~= v@.take(i as int));
            assert(v@.take(i + 1 as int).last() == v@[i as int]);
        }
        if v[i] == '\n' {
            nl = nl + 1;
        }
        i = i + 1;
    }
    proof {
        assert(v@.take(v@.len() as int) =~= v@);
    }
    if v.len() == 0 {
        0
    } else if v[v.len() - 1] == '\n' {
        proof {
            assert(v@.last() == v@[v@.len() - 1]);
        }
        nl
    } else {
        proof {
            assert(v@.last() == v@[v@.len() - 1]);
            assert(newline_count(v@) == newline_count(v@.drop_last()));
            lemma_newline_count_le(v@.drop_last());
        }
        nl + 1
    }
}

/// Whether `s` begins with `p`.
pub open spec fn starts_with_spec(s: Seq<char>, p: Seq<char>) -> bool {
    s.len() >= p.len() && s.take(p.len() as int) == p
}

/// Tests whether `s` begins with `p`.
pub(crate) fn chars_start_with(s: &Vec<char>, p: &Vec<char>) -> (r: bool)
    ensures
        r == starts_with_spec(s@, p@),
{
    if s.len() < p.len() {
        return false;
    }
    let mut i: usize = 0;
    while i < p.len()
        invariant
            i <= p.len() <= s.len(),
            forall|j: int| 0 <= j < i ==> s@[j] == p@[j],
        decreases p.len() - i,
    {
        if s[i] != p[i] {
            proof {
                assert(s@.take(p@.len() as int)[i as int] != p@[i as int]);
            }
            return false;
        }
        i = i + 1;
    }
    proof {
        assert(s@.take(p@.len() as int) =~= p@);
    }
    true
}

} // verus!
