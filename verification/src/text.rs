//! Small string operations on which the address parser and the record
//! handling are built: prefix removal, search for the last occurrence of a
//! character, and decimal port numbers.
use vstd::prelude::*;

verus! {

/// `s` with the prefix `p` removed, when `s` starts with `p`.
pub open spec fn spec_strip_prefix(s: Seq<char>, p: Seq<char>) -> Option<Seq<char>> {
    if p.len() <= s.len() && s.take(p.len() as int) == p {
        Some(s.skip(p.len() as int))
    } else {
        None
    }
}

/// Index of the last occurrence of `c` in `s`.
pub open spec fn spec_rfind(s: Seq<char>, c: char) -> Option<int>
    decreases s.len(),
{
    if s.len() == 0 {
        None
    } else if s.last() == c {
        Some(s.len() - 1)
    } else {
        spec_rfind(s.drop_last(), c)
    }
}

/// `s` split around the last occurrence of `c`, which belongs to neither part.
pub open spec fn spec_rsplit_once(s: Seq<char>, c: char) -> Option<(Seq<char>, Seq<char>)> {
    match spec_rfind(s, c) {
        Some(i) => Some((s.take(i), s.skip(i + 1))),
        None => None,
    }
}

/// `s` without one trailing dot, if it ends with one.
pub open spec fn spec_strip_trailing_dot(s: Seq<char>) -> Seq<char> {
    if s.len() > 0 && s.last() == '.' {
        s.drop_last()
    } else {
        s
    }
}

pub open spec fn is_decimal_digit(c: char) -> bool {
    '0' <= c && c <= '9'
}

pub open spec fn all_decimal_digits(s: Seq<char>) -> bool {
    forall|i: int| 0 <= i < s.len() ==> is_decimal_digit(#[trigger] s[i])
}

/// The number that a sequence of decimal digits denotes.
pub open spec fn decimal_value(s: Seq<char>) -> nat
    decreases s.len(),
{
    if s.len() == 0 {
        0
    } else {
        decimal_value(s.drop_last()) * 10 + ((s.last() as int) - ('0' as int)) as nat
    }
}

/// The digits of an unsigned number: `s` without a leading `+` sign.
pub open spec fn spec_unsigned_digits(s: Seq<char>) -> Seq<char> {
    if s.len() > 0 && s[0] == '+' {
        s.drop_first()
    } else {
        s
    }
}

/// What parsing `s` as a `u16` gives: an optional `+` sign followed by at
/// least one decimal digit, denoting a number no larger than `u16::MAX`.
pub open spec fn spec_parse_u16(s: Seq<char>) -> Option<u16> {
    let digits = spec_unsigned_digits(s);
    if digits.len() > 0 && all_decimal_digits(digits) && decimal_value(digits) <= u16::MAX {
        Some(decimal_value(digits) as u16)
    } else {
        None
    }
}

proof fn lemma_decimal_value_grows(s: Seq<char>, i: int)
    requires
        0 <= i <= s.len(),
        all_decimal_digits(s),
    ensures
        decimal_value(s.take(i)) <= decimal_value(s),
    decreases s.len() - i,
{
    if i < s.len() {
        lemma_decimal_value_grows(s, i + 1);
        assert(s.take(i + 1).drop_last() =~= s.take(i));
        assert(is_decimal_digit(s[i]));
    } else {
        assert(s.take(i) =~= s);
    }
}

/// Whether `s` starts with `p`; when it does, the rest of `s`.
pub fn strip_prefix<'a>(s: &'a str, p: &str) -> (res: Option<&'a str>)
    ensures
        match spec_strip_prefix(s@, p@) {
            Some(rest) => res matches Some(r) && r@ == rest,
            None => res is None,
        },
{
    let n: usize = s.unicode_len();
    let m: usize = p.unicode_len();
    if m > n {
        return None;
    }
    let mut i: usize = 0;
    while i < m
        invariant
            m <= n,
            n == s@.len(),
            m == p@.len(),
            i <= m,
            forall|j: int| 0 <= j < i ==> s@[j] == p@[j],
        decreases m - i,
    {
        if s.get_char(i) != p.get_char(i) {
            proof {
                assert(s@.take(m as int)[i as int] != p@[i as int]);
            }
            return None;
        }
        i = i + 1;
    }
    assert(s@.take(m as int) =~= p@);
    Some(s.substring_char(m, n))
}

/// Index of the last occurrence of `c` in `s`.
pub fn rfind(s: &str, c: char) -> (res: Option<usize>)
    ensures
        match spec_rfind(s@, c) {
            Some(i) => res == Some(i as usize),
            None => res is None,
        },
{
    let n: usize = s.unicode_len();
    let mut i: usize = n;
    assert(s@.take(n as int) =~= s@);
    while i > 0
        invariant
            n == s@.len(),
            i <= n,
            spec_rfind(s@, c) == spec_rfind(s@.take(i as int), c),
        decreases i,
    {
        let ghost t = s@.take(i as int);
        assert(t.drop_last() =~= s@.take(i - 1));
        if s.get_char(i - 1) == c {
            return Some(i - 1);
        }
        i = i - 1;
    }
    None
}

/// `s` split around the last occurrence of `c`.
pub fn rsplit_once<'a>(s: &'a str, c: char) -> (res: Option<(&'a str, &'a str)>)
    ensures
        match spec_rsplit_once(s@, c) {
            Some((a, b)) => res matches Some((x, y)) && x@ == a && y@ == b,
            None => res is None,
        },
{
    match rfind(s, c) {
        Some(i) => {
            proof {
                lemma_rfind_in_bounds(s@, c);
            }
            let n: usize = s.unicode_len();
            Some((s.substring_char(0, i), s.substring_char(i + 1, n)))
        },
        None => None,
    }
}

pub proof fn lemma_rfind_in_bounds(s: Seq<char>, c: char)
    ensures
        spec_rfind(s, c) matches Some(i) ==> 0 <= i < s.len() && s[i] == c,
        spec_rfind(s, c) matches Some(i) ==> forall|j: int| i < j < s.len() ==> s[j] != c,
        spec_rfind(s, c) is None ==> forall|j: int| 0 <= j < s.len() ==> s[j] != c,
    decreases s.len(),
{
    if s.len() > 0 && s.last() != c {
        lemma_rfind_in_bounds(s.drop_last(), c);
        assert forall|j: int| 0 <= j < s.len() - 1 implies s.drop_last()[j] == s[j] by {}
    }
}

/// Parses a port number or any other `u16` written in decimal.
pub fn parse_u16(s: &str) -> (res: Option<u16>)
    ensures
        res == spec_parse_u16(s@),
{
    let n: usize = s.unicode_len();
    let start: usize = if n > 0 && s.get_char(0) == '+' {
        1
    } else {
        0
    };
    let ghost digits = spec_unsigned_digits(s@);
    assert(digits =~= s@.skip(start as int));
    if start == n {
        return None;
    }
    let mut value: u32 = 0;
    let mut i: usize = start;
    while i < n
        invariant
            n == s@.len(),
            start <= i <= n,
            digits =~= s@.skip(start as int),
            digits == spec_unsigned_digits(s@),
            all_decimal_digits(digits.take(i - start)),
            value == decimal_value(digits.take(i - start)),
            value <= u16::MAX,
        decreases n - i,
    {
        let c = s.get_char(i);
        let ghost k = i - start;
        assert(digits[k] == c);
        if c < '0' || c > '9' {
            assert(!is_decimal_digit(digits[k]));
            assert(!all_decimal_digits(digits));
            assert(spec_parse_u16(s@) is None);
            return None;
        }
        let d: u32 = (c as u32) - ('0' as u32);
        assert(digits.take(k + 1).drop_last() =~= digits.take(k));
        assert(digits.take(k + 1).last() == c);
        assert(all_decimal_digits(digits.take(k + 1)));
        let next: u32 = value * 10 + d;
        assert(next == decimal_value(digits.take(k + 1)));
        if next > 65535 {
            proof {
                lemma_decimal_value_grows_or_stops(digits, k + 1);
            }
            assert(spec_parse_u16(s@) is None);
            return None;
        }
        value = next;
        i = i + 1;
    }
    assert(digits.take(n - start) =~= digits);
    Some(value as u16)
}

proof fn lemma_decimal_value_grows_or_stops(s: Seq<char>, i: int)
    requires
        0 <= i <= s.len(),
        all_decimal_digits(s.take(i)),
    ensures
        all_decimal_digits(s) ==> decimal_value(s.take(i)) <= decimal_value(s),
{
    if all_decimal_digits(s) {
        lemma_decimal_value_grows(s, i);
    }
}

/// `s` without one trailing dot, if it ends with one.
pub fn strip_trailing_dot(s: &str) -> (res: String)
    ensures
        res@ == spec_strip_trailing_dot(s@),
{
    let n: usize = s.unicode_len();
    if n > 0 && s.get_char(n - 1) == '.' {
        let t = s.substring_char(0, n - 1);
        assert(t@ =~= s@.drop_last());
        t.to_owned()
    } else {
        assert(s@.subrange(0, n as int) =~= s@);
        s.to_owned()
    }
}

/// The decimal digit for `d` (below ten).
pub open spec fn digit_char(d: nat) -> char {
    (('0' as int) + d) as char
}

/// `n` written in decimal, without leading zeros.
pub open spec fn decimal_text(n: nat) -> Seq<char>
    decreases n,
{
    if n < 10 {
        seq![digit_char(n)]
    } else {
        decimal_text(n / 10).push(digit_char(n % 10))
    }
}

proof fn lemma_digit_char(d: nat)
    requires
        d < 10,
    ensures
        is_decimal_digit(digit_char(d)),
        (digit_char(d) as int) - ('0' as int) == d,
{
}

/// `decimal_text(n)` is a non-empty run of digits that denotes `n`.
pub proof fn lemma_decimal_text(n: nat)
    ensures
        decimal_text(n).len() > 0,
        all_decimal_digits(decimal_text(n)),
        decimal_value(decimal_text(n)) == n,
        !decimal_text(n).contains(':'),
    decreases n,
{
    if n < 10 {
        lemma_digit_char(n);
        assert(decimal_text(n).drop_last() =~= Seq::<char>::empty());
        assert(decimal_text(n)[0] == digit_char(n));
        assert(decimal_value(Seq::<char>::empty()) == 0);
        assert(decimal_text(n).last() == digit_char(n));
    } else {
        lemma_decimal_text(n / 10);
        lemma_digit_char(n % 10);
        let t = decimal_text(n);
        assert(t.drop_last() =~= decimal_text(n / 10));
        assert(t.last() == digit_char(n % 10));
        assert((n / 10) * 10 + n % 10 == n) by (nonlinear_arith);
        assert forall|i: int| 0 <= i < t.len() implies is_decimal_digit(#[trigger] t[i]) by {
            if i < t.len() - 1 {
                assert(t[i] == decimal_text(n / 10)[i]);
            }
        }
        if t.contains(':') {
            let i: int = choose|i: int| 0 <= i < t.len() && t[i] == ':';
            if i < t.len() - 1 {
                assert(decimal_text(n / 10)[i] == ':');
            }
        }
    }
}

/// Reading back a number written in decimal gives the number.
pub proof fn lemma_parse_u16_of_decimal_text(n: u16)
    ensures
        spec_parse_u16(decimal_text(n as nat)) == Some(n),
{
    lemma_decimal_text(n as nat);
    let t = decimal_text(n as nat);
    assert(is_decimal_digit(t[0]));
    assert(spec_unsigned_digits(t) == t);
}

/// The last occurrence of `c` is at `i` when `s[i]` is `c` and nothing after it is.
pub proof fn lemma_rfind_at(s: Seq<char>, c: char, i: int)
    requires
        0 <= i < s.len(),
        s[i] == c,
        forall|j: int| i < j < s.len() ==> s[j] != c,
    ensures
        spec_rfind(s, c) == Some(i),
    decreases s.len(),
{
    if s.last() != c {
        lemma_rfind_at(s.drop_last(), c, i);
    }
}

/// Removing a trailing dot keeps the text before it: the result is `s`
/// itself, or, when `s` ends with `.`, `s` without its last character.
pub proof fn lemma_strip_trailing_dot_removes_only_a_final_dot(s: Seq<char>)
    ensures
        spec_strip_trailing_dot(s) == s.take(spec_strip_trailing_dot(s).len() as int),
        s.len() > 0 && s[s.len() - 1] == '.' ==> spec_strip_trailing_dot(s).len() + 1 == s.len(),
        !(s.len() > 0 && s[s.len() - 1] == '.') ==> spec_strip_trailing_dot(s) == s,
{
    if s.len() > 0 && s.last() == '.' {
        assert(s.drop_last() =~= s.take(s.len() - 1));
    } else {
        assert(s.take(s.len() as int) =~= s);
    }
}

} // verus!
