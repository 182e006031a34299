//! Rendering of unsigned integers as ASCII digits and parsing of decimal
//! digit strings.

use vstd::prelude::*;

verus! {

/// The ASCII character of a digit value below 16 (upper-case for hex).
pub open spec fn digit_char(d: nat) -> u8 {
    if d < 10 {
        (48 + d) as u8
    } else {
        (55 + d) as u8
    }
}

/// The digits of `n` in radix `base`, most significant first, without
/// leading zeros (zero itself is the single digit `0`).
pub open spec fn digits(n: nat, base: nat) -> Seq<u8>
    decreases n,
    via digits_decreases
{
    if base < 2 || n < base {
        seq![digit_char(n)]
    } else {
        digits(n / base, base) + seq![digit_char(n % base)]
    }
}

#[via_fn]
proof fn digits_decreases(n: nat, base: nat) {
    if !(base < 2 || n < base) {
        assert(n / base < n) by (nonlinear_arith)
            requires
                base >= 2,
                n >= base,
        ;
    }
}

/// Decimal digits of `n`.
pub open spec fn decimal(n: nat) -> Seq<u8> {
    digits(n, 10)
}

/// Upper-case hexadecimal digits of `n`.
pub open spec fn hex(n: nat) -> Seq<u8> {
    digits(n, 16)
}

pub open spec fn is_digit(c: u8) -> bool {
    48 <= c <= 57
}

/// A non-empty string of ASCII decimal digits.
pub open spec fn is_decimal(s: Seq<u8>) -> bool {
    s.len() > 0 && forall|i: int| 0 <= i < s.len() ==> is_digit(#[trigger] s[i])
}

/// The number that a string of decimal digits denotes.
pub open spec fn decimal_value(s: Seq<u8>) -> nat
    decreases s.len(),
{
    if s.len() == 0 {
        0
    } else {
        decimal_value(s.drop_last()) * 10 + (s.last() - 48) as nat
    }
}

/// What parsing `s` as a `u64` gives: the value when `s` is a digit string
/// whose value fits, nothing otherwise.
pub open spec fn parsed_u64(s: Seq<u8>) -> Option<u64> {
    if is_decimal(s) && decimal_value(s) <= u64::MAX {
        Some(decimal_value(s) as u64)
    } else {
        None
    }
}

/// Decimal rendering reads back as the number rendered.
pub proof fn lemma_decimal_value(n: nat)
    ensures
        is_decimal(decimal(n)),
        decimal_value(decimal(n)) == n,
    decreases n,
{
    let s = decimal(n);
    if n < 10 {
        assert(s.drop_last() =~= Seq::<u8>::empty());
        assert(decimal_value(Seq::<u8>::empty()) == 0);
        assert(s.last() == 48 + n);
    } else {
        lemma_decimal_value(n / 10);
        let p = decimal(n / 10);
        assert(s == p + seq![digit_char(n % 10)]);
        assert(s.drop_last() =~= p);
        assert(n % 10 < 10);
        assert(s.last() == 48 + n % 10);
        assert(decimal_value(s) == decimal_value(p) * 10 + n % 10);
        assert(n == (n / 10) * 10 + n % 10) by (nonlinear_arith);
        assert forall|i: int| 0 <= i < s.len() implies is_digit(#[trigger] s[i]) by {
            if i < p.len() {
                assert(s[i] == p[i]);
            }
        }
    }
}

/// Parsing the decimal rendering of a `u64` gives it back.
pub proof fn lemma_parse_decimal_round_trip(n: u64)
    ensures
        parsed_u64(decimal(n as nat)) == Some(n),
{
    lemma_decimal_value(n as nat);
}

fn digit_byte(d: u64) -> (r: u8)
    requires
        d < 16,
    ensures
        r == digit_char(d as nat),
{
    if d < 10 {
        (48 + d) as u8
    } else {
        (55 + d) as u8
    }
}

/// Renders `n` in radix `base` (2 to 16).
pub fn format_radix(n: u64, base: u64) -> (r: Vec<u8>)
    requires
        2 <= base <= 16,
    ensures
        r@ == digits(n as nat, base as nat),
{
    let mut m: u64 = n;
    let mut out: Vec<u8> = Vec::new();
    while m >= base
        invariant
            2 <= base <= 16,
            digits(n as nat, base as nat) == digits(m as nat, base as nat) + out@,
        decreases m,
    {
        let d = m % base;
        let ghost before = out@;
        out.insert(0, digit_byte(d));
        assert(digits(m as nat, base as nat) == digits((m / base) as nat, base as nat) + seq![
            digit_char(d as nat),
        ]);
        assert(digits(m as nat, base as nat) + before =~= digits((m / base) as nat, base as nat)
            + out@);
        m = m / base;
    }
    out.insert(0, digit_byte(m));
    assert(digits(n as nat, base as nat) =~= out@);
    out
}

/// Renders `n` in decimal.
pub fn format_decimal(n: u64) -> (r: Vec<u8>)
    ensures
        r@ == decimal(n as nat),
{
    format_radix(n, 10)
}

/// Renders `n` in upper-case hexadecimal.
pub fn format_hex(n: u64) -> (r: Vec<u8>)
    ensures
        r@ == hex(n as nat),
{
    format_radix(n, 16)
}

proof fn lemma_value_grows(s: Seq<u8>, i: int)
    requires
        0 <= i <= s.len(),
        forall|k: int| 0 <= k < s.len() ==> is_digit(#[trigger] s[k]),
    ensures
        decimal_value(s.subrange(0, i)) <= decimal_value(s),
    decreases s.len() - i,
{
    if i < s.len() {
        lemma_value_grows(s, i + 1);
        let t = s.subrange(0, i + 1);
        assert(t.drop_last() =~= s.subrange(0, i));
    } else {
        assert(s.subrange(0, i) =~= s);
    }
}

/// Parses a string of decimal digits into a `u64`; `None` when the string is
/// empty, holds anything but a digit, or denotes a value above `u64::MAX`.
pub fn parse_decimal(s: &[u8]) -> (r: Option<u64>)
    ensures
        r == parsed_u64(s@),
{
    if s.len() == 0 {
        return None;
    }
    let mut acc: u64 = 0;
    let mut i: usize = 0;
    while i < s.len()
        invariant
            0 <= i <= s.len(),
            forall|k: int| 0 <= k < i ==> is_digit(#[trigger] s@[k]),
            acc as nat == decimal_value(s@.subrange(0, i as int)),
        decreases s.len() - i,
    {
        let c = s[i];
        assert(s@.subrange(0, i as int + 1).drop_last() =~= s@.subrange(0, i as int));
        if c < 48 || c > 57 {
            assert(!is_digit(s@[i as int]));
            return None;
        }
        let d = (c - 48) as u64;
        if acc > (u64::MAX - d) / 10 {
            proof {
                assert(decimal_value(s@.subrange(0, i as int + 1)) > u64::MAX) by (nonlinear_arith)
                    requires
                        acc > (u64::MAX - d) / 10,
                        d <= 9,
                        decimal_value(s@.subrange(0, i as int + 1)) == acc * 10 + d,
                ;
                if forall|k: int| 0 <= k < s@.len() ==> is_digit(#[trigger] s@[k]) {
                    lemma_value_grows(s@, i as int + 1);
                }
            }
            return None;
        }
        proof {
            assert(acc * 10 + d <= u64::MAX) by (nonlinear_arith)
                requires
                    acc <= (u64::MAX - d) / 10,
                    d <= 9,
            ;
        }
        acc = acc * 10 + d;
        i = i + 1;
    }
    assert(s@.subrange(0, s@.len() as int) =~= s@);
    Some(acc)
}

} // verus!
