//! Decimal text of integers, the decimal parse of `i32` and the check that a
//! raw header value is visible ASCII.

use vstd::prelude::*;

verus! {

/// The character of the decimal digit `d` (for `0 <= d < 10`).
pub open spec fn digit_char(d: int) -> char {
    (48 + d) as char
}

/// Whether `c` is one of `'0'..='9'`.
pub open spec fn is_digit(c: char) -> bool {
    '0' <= c && c <= '9'
}

/// The value of the digit character `c`.
pub open spec fn digit_value(c: char) -> int {
    c as int - 48
}

/// The shortest decimal text of the natural number `n`.
pub open spec fn decimal(n: nat) -> Seq<char>
    decreases n,
{
    if n < 10 {
        seq![digit_char(n as int)]
    } else {
        decimal(n / 10).push(digit_char((n % 10) as int))
    }
}

/// The decimal text of the integer `i`, with a leading `-` when it is negative.
pub open spec fn int_decimal(i: int) -> Seq<char> {
    if i < 0 {
        seq!['-'] + decimal((-i) as nat)
    } else {
        decimal(i as nat)
    }
}

/// Whether every character of `s` is a decimal digit.
pub open spec fn all_digits(s: Seq<char>) -> bool {
    forall|k: int| 0 <= k < s.len() ==> is_digit(#[trigger] s[k])
}

/// The value of the digit string `s`, most significant digit first.
pub open spec fn digits_value(s: Seq<char>) -> int
    decreases s.len(),
{
    if s.len() == 0 {
        0
    } else {
        digits_value(s.drop_last()) * 10 + digit_value(s.last())
    }
}

/// What `str::parse::<i32>` gives for `s`: an optional `+` or `-`, then one or
/// more decimal digits and nothing else, whose value must fit in an `i32`.
pub open spec fn parse_i32_spec(s: Seq<char>) -> Option<i32> {
    let negative = s.len() > 0 && s[0] == '-';
    let signed = s.len() > 0 && (s[0] == '-' || s[0] == '+');
    let ds = if signed { s.drop_first() } else { s };
    if ds.len() == 0 || !all_digits(ds) {
        None
    } else {
        let v = if negative { -digits_value(ds) } else { digits_value(ds) };
        if i32::MIN <= v && v <= i32::MAX {
            Some(v as i32)
        } else {
            None
        }
    }
}

/// Whether `b` may stand in a header value that reads as text: a visible
/// ASCII character, a space or a tab.
pub open spec fn is_visible_ascii(b: u8) -> bool {
    (32 <= b && b < 127) || b == 9
}

/// Whether every byte of `bs` is visible ASCII, a space or a tab.
pub open spec fn all_visible(bs: Seq<u8>) -> bool {
    forall|k: int| 0 <= k < bs.len() ==> is_visible_ascii(#[trigger] bs[k])
}

/// The characters of the ASCII bytes `bs`.
pub open spec fn ascii_chars(bs: Seq<u8>) -> Seq<char> {
    Seq::new(bs.len(), |k: int| bs[k] as char)
}

/// Appends `c` to `s` (`String::push`).
#[verifier::external_body]
pub(crate) fn push_char(s: &mut String, c: char)
    ensures
        final(s)@ == old(s)@.push(c),
{
    s.push(c)
}

/// The digit character of `d`.
fn digit_to_char(d: u64) -> (c: char)
    requires
        d < 10,
    ensures
        c == digit_char(d as int),
{
    let b: u8 = 48u8 + (d as u8);
    b as char
}

/// Appends the decimal text of `n` to `s`.
pub fn write_decimal(s: &mut String, n: u64)
    ensures
        final(s)@ == old(s)@ + decimal(n as nat),
    decreases n,
{
    if n >= 10 {
        write_decimal(s, n / 10);
    }
    let c = digit_to_char(n % 10);
    push_char(s, c);
    proof {
        assert(n < 10 ==> decimal(n as nat) == seq![digit_char(n as int)]);
    }
}

/// The decimal text of `n`.
pub fn u64_to_string(n: u64) -> (s: String)
    ensures
        s@ == decimal(n as nat),
{
    let mut s = String::new();
    write_decimal(&mut s, n);
    assert(s@ == Seq::<char>::empty() + decimal(n as nat));
    s
}


/// The decimal text of `n`, with a leading `-` when it is negative
/// (what `i32::to_string` gives).
pub fn i32_to_string(n: i32) -> (s: String)
    ensures
        s@ == int_decimal(n as int),
{
    let mut s = String::new();
    if n < 0 {
        push_char(&mut s, '-');
        let m: i64 = -(n as i64);
        write_decimal(&mut s, m as u64);
    } else {
        write_decimal(&mut s, n as u64);
    }
    s
}

/// The characters of `s`, in order.
pub fn chars_of(s: &str) -> (v: Vec<char>)
    ensures
        v@ == s@,
{
    let mut v: Vec<char> = Vec::new();
    for c in it: s.chars()
        invariant
            v@ == it.seq().take(it.index() as int),
    {
        v.push(c);
    }
    v
}

/// A bound above every `i32` magnitude, at which the running value of a
/// digit string is held while it is read.
pub open spec fn digits_cap() -> int {
    2147483649
}

/// `str::parse::<i32>`: an optional `+` or `-`, then decimal digits only,
/// whose value fits in an `i32`; `None` for anything else.
pub fn parse_i32(s: &str) -> (r: Option<i32>)
    ensures
        r == parse_i32_spec(s@),
{
    let cs = chars_of(s);
    let n = cs.len();
    let negative = n > 0 && cs[0] == '-';
    let signed = n > 0 && (cs[0] == '-' || cs[0] == '+');
    let start: usize = if signed { 1 } else { 0 };
    let ghost ds = if signed { s@.drop_first() } else { s@ };
    assert(ds == s@.subrange(start as int, n as int));
    if start >= n {
        return None;
    }
    let mut acc: i64 = 0;
    let mut k: usize = start;
    while k < n
        invariant
            start <= k <= n,
            n == cs@.len(),
            start == (if s@.len() > 0 && (s@[0] == '-' || s@[0] == '+') { 1int } else { 0int }),
            negative == (s@.len() > 0 && s@[0] == '-'),
            cs@ == s@,
            ds == s@.subrange(start as int, n as int),
            all_digits(s@.subrange(start as int, k as int)),
            0 <= acc <= digits_cap(),
            acc == (if digits_value(s@.subrange(start as int, k as int)) < digits_cap() {
                digits_value(s@.subrange(start as int, k as int))
            } else {
                digits_cap()
            }),
        decreases n - k,
    {
        let c = cs[k];
        if !('0' <= c && c <= '9') {
            assert(ds[k - start] == c);
            assert(!is_digit(ds[k - start]));
            assert(!all_digits(ds));
            return None;
        }
        let d: i64 = (c as u32 - 48u32) as i64;
        let ghost pre = s@.subrange(start as int, k as int);
        let ghost next = s@.subrange(start as int, k + 1);
        assert(next.drop_last() == pre);
        assert(next.last() == c);
        let t: i64 = acc * 10 + d;
        acc = if t < 2147483649 { t } else { 2147483649 };
        k = k + 1;
        proof {
            assert forall|j: int| 0 <= j < next.len() implies is_digit(#[trigger] next[j]) by {
                if j < pre.len() {
                    assert(next[j] == pre[j]);
                }
            }
            assert(digits_value(next) == digits_value(pre) * 10 + digit_value(c));
            if digits_value(pre) >= digits_cap() {
                assert(digits_value(pre) * 10 >= digits_cap());
            }
        }
    }
    assert(s@.subrange(start as int, n as int) == ds);
    if negative {
        if acc <= 2147483648 {
            let v: i64 = -acc;
            Some(v as i32)
        } else {
            None
        }
    } else {
        if acc <= 2147483647 {
            Some(acc as i32)
        } else {
            None
        }
    }
}

/// The digit character of `d` reads back as `d`.
pub proof fn lemma_digit_char(d: int)
    requires
        0 <= d < 10,
    ensures
        is_digit(digit_char(d)),
        digit_value(digit_char(d)) == d,
{
    assert(digit_char(d) as int == 48 + d);
}

/// Every character of the decimal text of `n` is a digit, it is never
/// empty, and its value is `n`.
pub proof fn lemma_decimal_digits(n: nat)
    ensures
        decimal(n).len() > 0,
        all_digits(decimal(n)),
        digits_value(decimal(n)) == n,
    decreases n,
{
    if n < 10 {
        lemma_digit_char(n as int);
        assert(decimal(n).drop_last().len() == 0);
        assert(digits_value(decimal(n).drop_last()) == 0);
    } else {
        lemma_digit_char((n % 10) as int);
        lemma_decimal_digits(n / 10);
        let d = decimal(n);
        let p = decimal(n / 10);
        assert(d.drop_last() == p);
        assert(digits_value(d) == digits_value(p) * 10 + digit_value(d.last()));
        assert forall|j: int| 0 <= j < d.len() implies is_digit(#[trigger] d[j]) by {
            if j < p.len() {
                assert(d[j] == p[j]);
            }
        }
    }
}

/// Reading back the decimal text of an `i32` gives the same `i32`.
pub proof fn lemma_parse_i32_of_decimal(n: i32)
    ensures
        parse_i32_spec(int_decimal(n as int)) == Some(n),
{
    if n < 0 {
        let m = (-(n as int)) as nat;
        lemma_decimal_digits(m);
        let s = int_decimal(n as int);
        assert(s.drop_first() == decimal(m));
        assert(s[0] == '-');
    } else {
        lemma_decimal_digits(n as nat);
        let s = decimal(n as nat);
        assert(is_digit(s[0]));
    }
}

/// The text of a raw header value when every byte of it is visible ASCII,
/// a space or a tab (what `HeaderValue::to_str` accepts); `None` otherwise.
pub fn header_text(bytes: &[u8]) -> (r: Option<String>)
    ensures
        match r {
            Some(t) => all_visible(bytes@) && t@ == ascii_chars(bytes@),
            None => !all_visible(bytes@),
        },
{
    let mut t = String::new();
    let mut k: usize = 0;
    while k < bytes.len()
        invariant
            k <= bytes@.len(),
            forall|j: int| 0 <= j < k ==> is_visible_ascii(#[trigger] bytes@[j]),
            t@ == ascii_chars(bytes@.subrange(0, k as int)),
        decreases bytes@.len() - k,
    {
        let b = bytes[k];
        if !((32u8 <= b && b < 127u8) || b == 9u8) {
            assert(!is_visible_ascii(bytes@[k as int]));
            return None;
        }
        push_char(&mut t, b as char);
        k = k + 1;
        assert(ascii_chars(bytes@.subrange(0, k as int)) == ascii_chars(bytes@.subrange(0, k - 1)).push(b as char));
    }
    assert(bytes@.subrange(0, k as int) == bytes@);
    Some(t)
}

} // verus!
