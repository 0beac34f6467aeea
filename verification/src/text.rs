//! Character-level text helpers: building strings, decimal numbers,
//! substring search and string comparison.

use vstd::prelude::*;

verus! {

/// `String::push`: appends one character at the end of the string.
#[verifier::external_body]
pub(crate) fn push_char(s: &mut String, c: char)
    ensures
        final(s)@ == old(s)@.push(c),
{
    s.push(c);
}

/// Collects the characters of `s` into a vector, in order.
pub fn chars_of(s: &str) -> (res: Vec<char>)
    ensures
        res@ == s@,
{
    broadcast use vstd::string::axiom_spec_iter;

    let mut res: Vec<char> = Vec::new();
    for c in it: s.chars()
        invariant
            it.seq() == s@,
            res@ == s@.take(it.index() as int),
    {
        res.push(c);
    }
    res
}

/// Builds a string from the characters `cs[from..to]`.
pub fn string_of_range(cs: &[char], from: usize, to: usize) -> (res: String)
    requires
        from <= to <= cs@.len(),
    ensures
        res@ == cs@.subrange(from as int, to as int),
{
    let mut res = String::new();
    let mut i = from;
    while i < to
        invariant
            from <= i <= to <= cs@.len(),
            res@ == cs@.subrange(from as int, i as int),
        decreases to - i,
    {
        push_char(&mut res, cs[i]);
        assert(cs@.subrange(from as int, i + 1) == cs@.subrange(from as int, i as int).push(
            cs@[i as int],
        ));
        i = i + 1;
    }
    res
}

/// Builds a string whose characters are those of `cs`.
pub fn string_of(cs: &[char]) -> (res: String)
    ensures
        res@ == cs@,
{
    let res = string_of_range(cs, 0, cs.len());
    assert(cs@.subrange(0, cs@.len() as int) == cs@);
    res
}

/// Copies a string slice into an owned string.
pub fn owned(s: &str) -> (res: String)
    ensures
        res@ == s@,
{
    s.to_owned()
}

/// Concatenation of the views of two strings.
pub fn concat(a: &str, b: &str) -> (res: String)
    ensures
        res@ == a@ + b@,
{
    let mut res = a.to_owned();
    res.append(b);
    res
}

// ---------------------------------------------------------------------
// Decimal numbers
// ---------------------------------------------------------------------

/// The character of the decimal digit `d` (0..=9).
pub open spec fn digit_char(d: nat) -> char {
    if d == 0 { '0' }
    else if d == 1 { '1' }
    else if d == 2 { '2' }
    else if d == 3 { '3' }
    else if d == 4 { '4' }
    else if d == 5 { '5' }
    else if d == 6 { '6' }
    else if d == 7 { '7' }
    else if d == 8 { '8' }
    else { '9' }
}

/// The value of a decimal digit character.
pub open spec fn digit_value(c: char) -> nat {
    (c as int - '0' as int) as nat
}

pub open spec fn is_digit(c: char) -> bool {
    '0' <= c <= '9'
}

/// The decimal representation of `n`, most significant digit first,
/// without leading zeros ("0" for zero).
pub open spec fn nat_decimal(n: nat) -> Seq<char>
    decreases n,
{
    if n < 10 {
        seq![digit_char(n)]
    } else {
        nat_decimal(n / 10).push(digit_char(n % 10))
    }
}

/// The decimal representation of an integer, as `Display` writes it:
/// a leading `-` for negative values.
pub open spec fn int_decimal(i: int) -> Seq<char> {
    if i < 0 {
        seq!['-'] + nat_decimal((-i) as nat)
    } else {
        nat_decimal(i as nat)
    }
}

/// Every character of `s` is an ASCII digit.
pub open spec fn all_digits(s: Seq<char>) -> bool {
    forall|i: int| 0 <= i < s.len() ==> is_digit(#[trigger] s[i])
}

/// The value of a sequence of decimal digits (0 for the empty sequence).
pub open spec fn digits_value(s: Seq<char>) -> nat
    decreases s.len(),
{
    if s.len() == 0 {
        0
    } else {
        digits_value(s.drop_last()) * 10 + digit_value(s.last())
    }
}

/// The integer that `s` denotes in the syntax of `i64::from_str`:
/// an optional `+` or `-` sign followed by at least one ASCII digit.
pub open spec fn decimal_value(s: Seq<char>) -> Option<int> {
    if s.len() > 0 && (s[0] == '-' || s[0] == '+') {
        let body = s.drop_first();
        if body.len() > 0 && all_digits(body) {
            if s[0] == '-' { Some(-digits_value(body)) } else { Some(digits_value(body) as int) }
        } else {
            None
        }
    } else if s.len() > 0 && all_digits(s) {
        Some(digits_value(s) as int)
    } else {
        None
    }
}

/// What `s.parse::<i64>()` gives: the denoted value when it is in range.
pub open spec fn parse_i64_spec(s: Seq<char>) -> Option<i64> {
    match decimal_value(s) {
        Some(v) => if i64::MIN <= v <= i64::MAX { Some(v as i64) } else { None },
        None => None,
    }
}

fn digit_of(d: u64) -> (c: char)
    requires
        d < 10,
    ensures
        c == digit_char(d as nat),
        is_digit(c),
        digit_value(c) == d,
{
    if d == 0 { '0' }
    else if d == 1 { '1' }
    else if d == 2 { '2' }
    else if d == 3 { '3' }
    else if d == 4 { '4' }
    else if d == 5 { '5' }
    else if d == 6 { '6' }
    else if d == 7 { '7' }
    else if d == 8 { '8' }
    else { '9' }
}

fn push_decimal(n: u64, out: &mut String)
    ensures
        final(out)@ == old(out)@ + nat_decimal(n as nat),
    decreases n,
{
    if n >= 10 {
        push_decimal(n / 10, out);
    }
    push_char(out, digit_of(n % 10));
    if n < 10 {
        assert(nat_decimal(n as nat) == seq![digit_char(n as nat)]);
    }
}

/// Appends the decimal representation of `v` to `out`.
pub fn push_i64(out: &mut String, v: i64)
    ensures
        final(out)@ == old(out)@ + int_decimal(v as int),
{
    if v < 0 {
        push_char(out, '-');
        let mag: u64 = if v == i64::MIN {
            9223372036854775808u64
        } else {
            (-v) as u64
        };
        push_decimal(mag, out);
        assert(seq!['-'] + nat_decimal(mag as nat) == seq!['-'].add(nat_decimal(mag as nat)));
        assert(old(out)@.push('-') + nat_decimal(mag as nat) =~= old(out)@ + (seq!['-']
            + nat_decimal(mag as nat)));
    } else {
        push_decimal(v as u64, out);
    }
}

/// The decimal representation of `v`, as `v.to_string()` gives it.
pub fn i64_to_string(v: i64) -> (res: String)
    ensures
        res@ == int_decimal(v as int),
{
    let mut res = String::new();
    push_i64(&mut res, v);
    assert(Seq::<char>::empty() + int_decimal(v as int) =~= int_decimal(v as int));
    res
}

proof fn lemma_digits_value_monotone(s: Seq<char>, k: int)
    requires
        0 <= k <= s.len(),
    ensures
        digits_value(s.take(k)) <= digits_value(s),
    decreases s.len() - k,
{
    if k < s.len() {
        lemma_digits_value_monotone(s, k + 1);
        assert(s.take(k + 1).drop_last() =~= s.take(k));
    } else {
        assert(s.take(k) =~= s);
    }
}

/// Parses `cs[from..]` as digits, producing a magnitude no larger than
/// `limit` or `None` when the magnitude exceeds it.
fn parse_magnitude(cs: &[char], from: usize, limit: u64) -> (res: Option<u64>)
    requires
        from <= cs@.len(),
        limit >= 10,
        all_digits(cs@.subrange(from as int, cs@.len() as int)),
    ensures
        match res {
            Some(m) => m == digits_value(cs@.subrange(from as int, cs@.len() as int))
                && m <= limit,
            None => digits_value(cs@.subrange(from as int, cs@.len() as int)) > limit,
        },
{
    let ghost body = cs@.subrange(from as int, cs@.len() as int);
    let mut acc: u64 = 0;
    let mut i = from;
    while i < cs.len()
        invariant
            from <= i <= cs@.len(),
            body == cs@.subrange(from as int, cs@.len() as int),
            all_digits(body),
            limit >= 10,
            acc <= limit,
            acc == digits_value(body.take(i - from)),
        decreases cs@.len() - i,
    {
        let ghost k = i - from;
        assert(is_digit(body[k]));
        let d = (cs[i] as u32 - '0' as u32) as u64;
        assert(body.take(k + 1).drop_last() =~= body.take(k));
        assert(body.take(k + 1).last() == cs@[i as int]);
        if acc > (limit - d) / 10 {
            // acc * 10 + d > limit
            assert(acc * 10 + d > limit) by (nonlinear_arith)
                requires
                    acc > (limit - d) / 10,
                    d <= limit || d > limit,
                    d < 10,
            ;
            proof {
                lemma_digits_value_monotone(body, k + 1);
                assert(body.take(body.len() as int) =~= body);
            }
            return None;
        }
        assert(acc * 10 + d <= limit) by (nonlinear_arith)
            requires
                acc <= (limit - d) / 10,
                d <= limit,
        ;
        acc = acc * 10 + d;
        i = i + 1;
    }
    assert(body.take(body.len() as int) =~= body);
    Some(acc)
}

/// `s.parse::<i64>()`: `Some` of the denoted value when `s` is an optional
/// sign followed by ASCII digits and the value fits in `i64`, else `None`.
pub fn parse_i64(s: &str) -> (res: Option<i64>)
    ensures
        res == parse_i64_spec(s@),
{
    let cs = chars_of(s);
    let n = cs.len();
    if n == 0 {
        return None;
    }
    let neg = cs[0] == '-';
    let signed = neg || cs[0] == '+';
    let from: usize = if signed { 1 } else { 0 };
    if from >= n {
        return None;
    }
    let mut i = from;
    while i < n
        invariant
            from <= i <= n == cs@.len(),
            n > 0,
            cs@ == s@,
            signed == (s@[0] == '-' || s@[0] == '+'),
            from == (if signed { 1usize } else { 0usize }),
            forall|j: int| from <= j < i ==> is_digit(#[trigger] cs@[j]),
        decreases n - i,
    {
        if !(cs[i] >= '0' && cs[i] <= '9') {
            proof {
                let body = cs@.subrange(from as int, n as int);
                assert(body[i - from] == cs@[i as int]);
                if signed {
                    assert(body =~= s@.drop_first());
                }
            }
            return None;
        }
        i = i + 1;
    }
    let ghost body = cs@.subrange(from as int, n as int);
    assert(all_digits(body));
    proof {
        if signed {
            assert(body =~= s@.drop_first());
        } else {
            assert(body =~= s@);
        }
    }
    if neg {
        match parse_magnitude(&cs, from, 9223372036854775808u64) {
            Some(m) => {
                if m == 9223372036854775808u64 {
                    Some(i64::MIN)
                } else {
                    Some(-(m as i64))
                }
            },
            None => None,
        }
    } else {
        match parse_magnitude(&cs, from, 9223372036854775807u64) {
            Some(m) => Some(m as i64),
            None => None,
        }
    }
}

proof fn lemma_digit_char_value(d: nat)
    requires
        d < 10,
    ensures
        is_digit(digit_char(d)),
        digit_value(digit_char(d)) == d,
{
}

proof fn lemma_nat_decimal_digits(n: nat)
    ensures
        nat_decimal(n).len() >= 1,
        all_digits(nat_decimal(n)),
        digits_value(nat_decimal(n)) == n,
    decreases n,
{
    if n < 10 {
        lemma_digit_char_value(n);
        let s = nat_decimal(n);
        assert(s.drop_last() =~= Seq::<char>::empty());
        assert(digits_value(s) == digits_value(s.drop_last()) * 10 + digit_value(s.last()));
        assert(digits_value(Seq::<char>::empty()) == 0);
    } else {
        lemma_nat_decimal_digits(n / 10);
        lemma_digit_char_value(n % 10);
        let s = nat_decimal(n);
        assert(s.drop_last() =~= nat_decimal(n / 10));
        assert((n / 10) * 10 + n % 10 == n) by (nonlinear_arith);
        assert(digits_value(s) == digits_value(s.drop_last()) * 10 + digit_value(s.last()));
        assert(all_digits(s)) by {
            assert forall|i: int| 0 <= i < s.len() implies is_digit(#[trigger] s[i]) by {
                if i < s.len() - 1 {
                    assert(s[i] == nat_decimal(n / 10)[i]);
                }
            }
        }
    }
}

/// Writing an `i64` in decimal and parsing the text back gives the same
/// number: `v.to_string().parse::<i64>() == Ok(v)`.
pub proof fn law_decimal_roundtrip(v: i64)
    ensures
        parse_i64_spec(int_decimal(v as int)) == Some(v),
{
    if v < 0 {
        let m = (-v) as nat;
        lemma_nat_decimal_digits(m);
        let s = int_decimal(v as int);
        assert(s.drop_first() =~= nat_decimal(m));
        assert(s[0] == '-');
    } else {
        lemma_nat_decimal_digits(v as nat);
        let s = nat_decimal(v as nat);
        assert(is_digit(s[0]));
    }
}

// ---------------------------------------------------------------------
// Substrings and equality
// ---------------------------------------------------------------------

/// `needle` occurs in `hay` starting at position `i`.
pub open spec fn occurs_at(hay: Seq<char>, needle: Seq<char>, i: int) -> bool {
    0 <= i && i + needle.len() <= hay.len() && hay.subrange(i, i + needle.len()) == needle
}

/// `hay` contains `needle` as a contiguous substring (the empty string is
/// contained in every string).
pub open spec fn contains_seq(hay: Seq<char>, needle: Seq<char>) -> bool {
    exists|i: int| occurs_at(hay, needle, i)
}

fn matches_at(hay: &Vec<char>, needle: &Vec<char>, i: usize) -> (res: bool)
    requires
        i + needle@.len() <= hay@.len(),
    ensures
        res == occurs_at(hay@, needle@, i as int),
{
    let m = needle.len();
    let hl = hay.len();
    let mut j: usize = 0;
    while j < m
        invariant
            m == needle@.len(),
            hl == hay@.len(),
            i + m <= hay@.len(),
            j <= m,
            forall|k: int| 0 <= k < j ==> hay@[i + k] == needle@[k],
        decreases m - j,
    {
        if hay[i + j] != needle[j] {
            assert(hay@.subrange(i as int, i + m)[j as int] != needle@[j as int]);
            return false;
        }
        j = j + 1;
    }
    assert(hay@.subrange(i as int, i + m) =~= needle@);
    true
}

/// `hay.contains(needle)` for string patterns.
pub fn str_contains(hay: &str, needle: &str) -> (res: bool)
    ensures
        res == contains_seq(hay@, needle@),
{
    let h = chars_of(hay);
    let n = chars_of(needle);
    if n.len() > h.len() {
        assert forall|i: int| !occurs_at(hay@, needle@, i) by {}
        return false;
    }
    let last = h.len() - n.len();
    let mut i: usize = 0;
    while i < last
        invariant
            i <= last,
            h@ == hay@,
            n@ == needle@,
            last == h@.len() - n@.len(),
            forall|k: int| 0 <= k < i ==> !occurs_at(hay@, needle@, k),
        decreases last + 1 - i,
    {
        if matches_at(&h, &n, i) {
            return true;
        }
        i = i + 1;
    }
    if matches_at(&h, &n, last) {
        return true;
    }
    assert forall|k: int| !occurs_at(hay@, needle@, k) by {
        if 0 <= k < i {
        } else {
        }
    }
    false
}

/// String equality by characters, as `==` on strings computes it.
pub fn str_eq(a: &str, b: &str) -> (res: bool)
    ensures
        res == (a@ == b@),
{
    let x = chars_of(a);
    let y = chars_of(b);
    if x.len() != y.len() {
        return false;
    }
    let n = x.len();
    let mut i: usize = 0;
    while i < n
        invariant
            n == x@.len() == y@.len(),
            x@ == a@,
            y@ == b@,
            i <= n,
            forall|k: int| 0 <= k < i ==> x@[k] == y@[k],
        decreases n - i,
    {
        if x[i] != y[i] {
            return false;
        }
        i = i + 1;
    }
    assert(x@ =~= y@);
    true
}

} // verus!
