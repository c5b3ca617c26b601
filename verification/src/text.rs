//! Character-level utilities shared by the protocol parsers and encoders:
//! decimal number parsing and formatting, ASCII case folding, and
//! first/last substring search.

use vstd::prelude::*;

verus! {

/// std's `String::push` appends one character to the string.
pub assume_specification[ String::push ](s: &mut String, c: char)
    ensures
        final(s)@ == old(s)@.push(c),
;

pub open spec fn is_digit_char(c: char) -> bool {
    '0' <= c && c <= '9'
}

pub open spec fn digit_char_value(c: char) -> nat {
    ((c as int) - ('0' as int)) as nat
}

pub open spec fn all_digits(s: Seq<char>) -> bool {
    forall|i: int| 0 <= i < s.len() ==> is_digit_char(s[i])
}

/// The value of a non-empty decimal digit string, most significant digit first.
pub open spec fn digits_value(s: Seq<char>) -> nat
    decreases s.len(),
{
    if s.len() == 0 {
        0
    } else {
        digits_value(s.drop_last()) * 10 + digit_char_value(s.last())
    }
}

pub open spec fn digit_to_char(d: nat) -> char {
    (('0' as nat) + d) as char
}

/// The decimal rendering of a natural number, without leading zeros
/// (a single `'0'` for zero).
pub open spec fn dec_str(n: nat) -> Seq<char>
    decreases n,
{
    if n < 10 {
        seq![digit_to_char(n)]
    } else {
        dec_str(n / 10).push(digit_to_char(n % 10))
    }
}

pub open spec fn lower_char(c: char) -> char {
    if 'A' <= c && c <= 'Z' {
        ((c as nat) + 32) as char
    } else {
        c
    }
}

pub open spec fn lower_seq(s: Seq<char>) -> Seq<char> {
    s.map_values(|c: char| lower_char(c))
}

/// `pat` occurs in `s` starting at index `i`.
pub open spec fn match_at(s: Seq<char>, pat: Seq<char>, i: int) -> bool {
    0 <= i && i + pat.len() <= s.len() && s.subrange(i, i + pat.len()) == pat
}

/// The first index at or after `from` where `pat` occurs in `s`.
pub open spec fn find_from(s: Seq<char>, pat: Seq<char>, from: int) -> Option<int>
    decreases s.len() - from + 1,
{
    if from < 0 || from + pat.len() > s.len() {
        None
    } else if match_at(s, pat, from) {
        Some(from)
    } else {
        find_from(s, pat, from + 1)
    }
}

/// The last index at or before `upto` where `pat` occurs in `s`.
pub open spec fn rfind_upto(s: Seq<char>, pat: Seq<char>, upto: int) -> Option<int>
    decreases upto + 1,
{
    if upto < 0 {
        None
    } else if match_at(s, pat, upto) {
        Some(upto)
    } else {
        rfind_upto(s, pat, upto - 1)
    }
}

pub proof fn lemma_find_from_some(s: Seq<char>, pat: Seq<char>, from: int, i: int)
    requires
        0 <= from <= i,
        match_at(s, pat, i),
        forall|j: int| from <= j < i ==> !match_at(s, pat, j),
    ensures
        find_from(s, pat, from) == Some(i),
    decreases i - from,
{
    if from < i {
        lemma_find_from_some(s, pat, from + 1, i);
    }
}

pub proof fn lemma_find_from_none(s: Seq<char>, pat: Seq<char>, from: int)
    requires
        0 <= from,
        forall|j: int| from <= j ==> !match_at(s, pat, j),
    ensures
        find_from(s, pat, from) is None,
    decreases s.len() + pat.len() - from + 1,
{
    if !(from + pat.len() > s.len()) {
        lemma_find_from_none(s, pat, from + 1);
    }
}

pub proof fn lemma_rfind_upto_some(s: Seq<char>, pat: Seq<char>, upto: int, i: int)
    requires
        0 <= i <= upto,
        match_at(s, pat, i),
        forall|j: int| i < j <= upto ==> !match_at(s, pat, j),
    ensures
        rfind_upto(s, pat, upto) == Some(i),
    decreases upto - i,
{
    if i < upto {
        lemma_rfind_upto_some(s, pat, upto - 1, i);
    }
}

pub proof fn lemma_rfind_upto_none(s: Seq<char>, pat: Seq<char>, upto: int)
    requires
        forall|j: int| j <= upto ==> !match_at(s, pat, j),
    ensures
        rfind_upto(s, pat, upto) is None,
    decreases upto + 1,
{
    if upto >= 0 {
        lemma_rfind_upto_none(s, pat, upto - 1);
    }
}

pub proof fn lemma_digits_value_prefix_le(s: Seq<char>, i: int, j: int)
    requires
        0 <= i <= j <= s.len(),
    ensures
        digits_value(s.subrange(0, i)) <= digits_value(s.subrange(0, j)),
    decreases j - i,
{
    if i < j {
        lemma_digits_value_prefix_le(s, i, j - 1);
        let p = s.subrange(0, j - 1);
        let q = s.subrange(0, j);
        assert(q.drop_last() =~= p);
        assert(digits_value(p) * 10 >= digits_value(p)) by (nonlinear_arith)
            requires
                digits_value(p) >= 0,
        ;
    }
}

pub proof fn lemma_lower_seq_idempotent(s: Seq<char>)
    ensures
        lower_seq(lower_seq(s)) == lower_seq(s),
{
    assert forall|i: int| 0 <= i < s.len() implies lower_char(lower_char(s[i])) == lower_char(
        s[i],
    ) by {
        let c = s[i];
        if 'A' <= c && c <= 'Z' {
            assert(((c as nat) + 32) as char as int == (c as int) + 32);
        }
    }
    assert(lower_seq(lower_seq(s)) =~= lower_seq(s));
}

/// The characters of `s`, as a vector usable for indexed scanning.
pub fn str_chars(s: &str) -> (v: Vec<char>)
    ensures
        v@ == s@,
{
    let n = s.unicode_len();
    let mut v: Vec<char> = Vec::new();
    let mut i: usize = 0;
    while i < n
        invariant
            n == s@.len(),
            i <= n,
            v@ == s@.subrange(0, i as int),
        decreases n - i,
    {
        v.push(s.get_char(i));
        assert(v@ =~= s@.subrange(0, i + 1 as int));
        i = i + 1;
    }
    assert(v@ =~= s@);
    v
}

/// The characters of `v` between `from` (inclusive) and `to` (exclusive),
/// collected into an owned string.
pub fn chars_to_string(v: &Vec<char>, from: usize, to: usize) -> (s: String)
    requires
        from <= to <= v@.len(),
    ensures
        s@ == v@.subrange(from as int, to as int),
{
    let mut s = String::new();
    let mut i: usize = from;
    while i < to
        invariant
            from <= i <= to <= v@.len(),
            s@ == v@.subrange(from as int, i as int),
        decreases to - i,
    {
        s.push(v[i]);
        assert(s@ =~= v@.subrange(from as int, i + 1 as int));
        i = i + 1;
    }
    s
}

/// The characters of `v` between `from` (inclusive) and `to` (exclusive),
/// as their own vector.
pub fn subvec(v: &Vec<char>, from: usize, to: usize) -> (r: Vec<char>)
    requires
        from <= to <= v@.len(),
    ensures
        r@ == v@.subrange(from as int, to as int),
{
    let mut r: Vec<char> = Vec::new();
    let mut i: usize = from;
    while i < to
        invariant
            from <= i <= to <= v@.len(),
            r@ == v@.subrange(from as int, i as int),
        decreases to - i,
    {
        r.push(v[i]);
        assert(r@ =~= v@.subrange(from as int, i + 1 as int));
        i = i + 1;
    }
    r
}

pub fn lower_char_exec(c: char) -> (r: char)
    ensures
        r == lower_char(c),
{
    if 'A' <= c && c <= 'Z' {
        (((c as u32) as u8) + 32) as char
    } else {
        c
    }
}

/// The whole string, ASCII case folded to lower case.
pub fn lower_chars(v: &Vec<char>) -> (r: Vec<char>)
    ensures
        r@ == lower_seq(v@),
{
    let mut r: Vec<char> = Vec::new();
    let mut i: usize = 0;
    while i < v.len()
        invariant
            i <= v@.len(),
            r@ == lower_seq(v@.subrange(0, i as int)),
        decreases v@.len() - i,
    {
        r.push(lower_char_exec(v[i]));
        assert(r@ =~= lower_seq(v@.subrange(0, i + 1 as int)));
        i = i + 1;
    }
    assert(v@.subrange(0, v@.len() as int) =~= v@);
    r
}

/// Parses the decimal digits of `v` between `from` and `to` as a number,
/// rejecting an empty range, any non-digit character, and any value over
/// `max`.
pub fn parse_number(v: &Vec<char>, from: usize, to: usize, max: u64) -> (r: Option<u64>)
    requires
        from <= to <= v@.len(),
    ensures
        ({
            let s = v@.subrange(from as int, to as int);
            match r {
                Some(n) => from < to && all_digits(s) && digits_value(s) <= max && n
                    == digits_value(s),
                None => !(from < to && all_digits(s) && digits_value(s) <= max),
            }
        }),
{
    let ghost s = v@.subrange(from as int, to as int);
    if from == to {
        return None;
    }
    let mut acc: u64 = 0;
    let mut i: usize = from;
    while i < to
        invariant
            from <= i <= to <= v@.len(),
            s == v@.subrange(from as int, to as int),
            all_digits(s.subrange(0, i - from)),
            acc == digits_value(s.subrange(0, i - from)),
            acc <= max,
        decreases to - i,
    {
        let c = v[i];
        let ghost p = s.subrange(0, i - from);
        let ghost q = s.subrange(0, i + 1 - from);
        assert(q.drop_last() =~= p);
        assert(q.last() == v@[i as int]);
        if !('0' <= c && c <= '9') {
            assert(!is_digit_char(s[i - from]));
            return None;
        }
        let d: u64 = ((c as u32) - ('0' as u32)) as u64;
        assert(d == digit_char_value(c));
        if d > max {
            assert(acc * 10 + d > max) by (nonlinear_arith)
                requires
                    acc >= 0,
                    d > max,
            ;
            proof {
                lemma_digits_value_prefix_le(s, i + 1 - from, s.len() as int);
                assert(s.subrange(0, s.len() as int) =~= s);
            }
            return None;
        }
        if acc > (max - d) / 10 {
            assert(acc * 10 + d > max) by (nonlinear_arith)
                requires
                    acc > (max - d) / 10,
                    0 <= d <= max,
            ;
            proof {
                lemma_digits_value_prefix_le(s, i + 1 - from, s.len() as int);
                assert(s.subrange(0, s.len() as int) =~= s);
            }
            return None;
        }
        assert(acc * 10 + d <= max) by (nonlinear_arith)
            requires
                acc <= (max - d) / 10,
                0 <= d <= max,
        ;
        acc = acc * 10 + d;
        i = i + 1;
    }
    assert(s.subrange(0, s.len() as int) =~= s);
    Some(acc)
}

/// Renders `n` in decimal.
pub fn u64_to_string(n: u64) -> (s: String)
    ensures
        s@ == dec_str(n as nat),
    decreases n,
{
    let d: u8 = (n % 10) as u8;
    let c: char = (48 + d) as char;
    assert(c == digit_to_char((n % 10) as nat));
    if n < 10 {
        let mut s = String::new();
        s.push(c);
        assert(s@ =~= seq![digit_to_char(n as nat)]);
        s
    } else {
        let mut s = u64_to_string(n / 10);
        s.push(c);
        s
    }
}

/// Whether `pat` occurs in `v` at exactly index `i`.
pub fn matches_at(v: &Vec<char>, pat: &Vec<char>, i: usize) -> (b: bool)
    requires
        i + pat@.len() <= v@.len(),
    ensures
        b == match_at(v@, pat@, i as int),
{
    let vlen = v.len();
    let mut j: usize = 0;
    while j < pat.len()
        invariant
            vlen == v@.len(),
            i + pat@.len() <= v@.len(),
            j <= pat@.len(),
            forall|k: int| 0 <= k < j ==> v@[i + k] == pat@[k],
        decreases pat@.len() - j,
    {
        if v[i + j] != pat[j] {
            assert(v@.subrange(i as int, i + pat@.len())[j as int] == v@[i + j]);
            return false;
        }
        j = j + 1;
    }
    assert(v@.subrange(i as int, i + pat@.len()) =~= pat@);
    true
}

/// The first index at or after `from` where `pat` occurs in `v`.
pub fn find_pattern(v: &Vec<char>, from: usize, pat: &Vec<char>) -> (r: Option<usize>)
    ensures
        match r {
            Some(i) => find_from(v@, pat@, from as int) == Some(i as int) && from <= i && i
                + pat@.len() <= v@.len() && match_at(v@, pat@, i as int),
            None => find_from(v@, pat@, from as int) is None,
        },
{
    if pat.len() > v.len() {
        proof {
            lemma_find_from_none(v@, pat@, from as int);
        }
        return None;
    }
    if pat.len() == 0 {
        if from <= v.len() {
            proof {
                assert(v@.subrange(from as int, from as int) =~= pat@);
                lemma_find_from_some(v@, pat@, from as int, from as int);
            }
            return Some(from);
        } else {
            proof {
                lemma_find_from_none(v@, pat@, from as int);
            }
            return None;
        }
    }
    let vlen = v.len();
    let last = vlen - pat.len();
    let mut i: usize = from;
    while i <= last
        invariant
            vlen == v@.len(),
            pat@.len() >= 1,
            last == v@.len() - pat@.len(),
            from <= i,
            forall|j: int| from <= j < i ==> !match_at(v@, pat@, j),
        decreases last + 1 - i,
    {
        if matches_at(v, pat, i) {
            proof {
                lemma_find_from_some(v@, pat@, from as int, i as int);
            }
            return Some(i);
        }
        i = i + 1;
    }
    proof {
        assert forall|j: int| from <= j implies !match_at(v@, pat@, j) by {
            if j < i {
            } else {
                assert(j + pat@.len() > v@.len());
            }
        }
        lemma_find_from_none(v@, pat@, from as int);
    }
    None
}

/// The last index at or before `upto` where `pat` occurs in `v`.
pub fn rfind_pattern(v: &Vec<char>, upto: usize, pat: &Vec<char>) -> (r: Option<usize>)
    ensures
        match r {
            Some(i) => rfind_upto(v@, pat@, upto as int) == Some(i as int) && i <= upto && i
                + pat@.len() <= v@.len() && match_at(v@, pat@, i as int),
            None => rfind_upto(v@, pat@, upto as int) is None,
        },
{
    if pat.len() > v.len() {
        proof {
            lemma_rfind_upto_none(v@, pat@, upto as int);
        }
        return None;
    }
    let last = v.len() - pat.len();
    let mut i: usize = if upto <= last {
        upto
    } else {
        last
    };
    loop
        invariant
            last == v@.len() - pat@.len(),
            i <= last,
            i <= upto,
            forall|j: int| i < j <= upto ==> !match_at(v@, pat@, j),
        decreases i + 1,
    {
        if matches_at(v, pat, i) {
            proof {
                lemma_rfind_upto_some(v@, pat@, upto as int, i as int);
            }
            return Some(i);
        }
        if i == 0 {
            proof {
                assert forall|j: int| j <= upto as int implies !match_at(v@, pat@, j) by {
                    if 0 < j <= upto {
                    } else if j == 0 {
                    } else {
                        assert(j < 0);
                    }
                }
                lemma_rfind_upto_none(v@, pat@, upto as int);
            }
            return None;
        }
        i = i - 1;
    }
}

} // verus!
