//! Reading integers from text the way Rust's integer parsers do: an optional
//! sign, then one or more digits, and a value that fits the target type.

use vstd::prelude::*;

verus! {

/// The value of a digit character in `radix` (10 or 16), if it is one.
pub open spec fn digit_value(c: char, radix: nat) -> Option<nat> {
    if '0' <= c && c <= '9' && (c as nat) - ('0' as nat) < radix {
        Some((c as nat - '0' as nat) as nat)
    } else if radix == 16 && 'a' <= c && c <= 'f' {
        Some((c as nat - 'a' as nat + 10) as nat)
    } else if radix == 16 && 'A' <= c && c <= 'F' {
        Some((c as nat - 'A' as nat + 10) as nat)
    } else {
        None
    }
}

/// Every character of `s` is a digit in `radix`.
pub open spec fn all_digits(s: Seq<char>, radix: nat) -> bool {
    forall|i: int| 0 <= i < s.len() ==> (#[trigger] digit_value(s[i], radix)) is Some
}

/// The number that the digits `s` write in `radix`.
pub open spec fn digits_value(s: Seq<char>, radix: nat) -> nat
    decreases s.len(),
{
    if s.len() == 0 {
        0
    } else {
        digits_value(s.drop_last(), radix) * radix + digit_value(s.last(), radix).unwrap()
    }
}

/// The value of `s` read as an unsigned number in `radix`: an optional `+`,
/// then one or more digits.
pub open spec fn unsigned_value(s: Seq<char>, radix: nat) -> Option<nat> {
    let d = if s.len() > 0 && s[0] == '+' { s.skip(1) } else { s };
    if d.len() > 0 && all_digits(d, radix) {
        Some(digits_value(d, radix))
    } else {
        None
    }
}

/// The value of `s` read as a signed decimal number: an optional `+` or `-`,
/// then one or more digits.
pub open spec fn signed_decimal_value(s: Seq<char>) -> Option<int> {
    if s.len() > 0 && s[0] == '-' {
        let d = s.skip(1);
        if d.len() > 0 && all_digits(d, 10) {
            Some(-(digits_value(d, 10) as int))
        } else {
            None
        }
    } else {
        match unsigned_value(s, 10) {
            Some(v) => Some(v as int),
            None => None,
        }
    }
}

/// What `u32::from_str_radix(s, 16)` gives back.
pub open spec fn hex_u32_of(s: Seq<char>) -> Option<u32> {
    match unsigned_value(s, 16) {
        Some(v) => if v <= u32::MAX {
            Some(v as u32)
        } else {
            None
        },
        None => None,
    }
}

/// What `s.parse::<i64>()` gives back.
pub open spec fn i64_of(s: Seq<char>) -> Option<i64> {
    match signed_decimal_value(s) {
        Some(v) => if i64::MIN <= v <= i64::MAX {
            Some(v as i64)
        } else {
            None
        },
        None => None,
    }
}

/// What `s.parse::<i32>()` gives back.
pub open spec fn i32_of(s: Seq<char>) -> Option<i32> {
    match signed_decimal_value(s) {
        Some(v) => if i32::MIN <= v <= i32::MAX {
            Some(v as i32)
        } else {
            None
        },
        None => None,
    }
}

/// More digits never make a smaller number.
proof fn lemma_digits_value_prefix(s: Seq<char>, k: int, radix: nat)
    requires
        0 <= k <= s.len(),
        radix >= 1,
        all_digits(s, radix),
    ensures
        digits_value(s.take(k), radix) <= digits_value(s, radix),
    decreases s.len() - k,
{
    if k < s.len() {
        lemma_digits_value_prefix(s, k + 1, radix);
        let t = s.take(k + 1);
        assert(t.drop_last() =~= s.take(k));
        assert(digit_value(s[k], radix) is Some);
        let v = digits_value(s.take(k), radix);
        assert(v * radix >= v) by (nonlinear_arith)
            requires
                radix >= 1,
        ;
    } else {
        assert(s.take(k) =~= s);
    }
}

/// The value of a digit character, for a character known to be a digit.
fn exec_digit_value(c: char, radix: u32) -> (r: Option<u32>)
    requires
        radix == 10 || radix == 16,
    ensures
        match digit_value(c, radix as nat) {
            Some(v) => r == Some(v as u32),
            None => r is None,
        },
{
    if '0' <= c && c <= '9' && (c as u32) - ('0' as u32) < radix {
        Some((c as u32) - ('0' as u32))
    } else if radix == 16 && 'a' <= c && c <= 'f' {
        Some((c as u32) - ('a' as u32) + 10)
    } else if radix == 16 && 'A' <= c && c <= 'F' {
        Some((c as u32) - ('A' as u32) + 10)
    } else {
        None
    }
}

/// Reads the digits of `s` from position `start` on in `radix`; `None` when
/// there are none, when one is not a digit, or when the number exceeds `cap`.
fn parse_digits(s: &str, start: usize, radix: u32, cap: u128) -> (r: Option<u128>)
    requires
        radix == 10 || radix == 16,
        start <= s@.len(),
        cap <= 0x1_0000_0000_0000_0000,
    ensures
        ({
            let d = s@.skip(start as int);
            match r {
                Some(v) => d.len() > 0 && all_digits(d, radix as nat) && v == digits_value(
                    d,
                    radix as nat,
                ) && v <= cap,
                None => !(d.len() > 0 && all_digits(d, radix as nat) && digits_value(
                    d,
                    radix as nat,
                ) <= cap),
            }
        }),
{
    let n = s.unicode_len();
    let ghost d = s@.skip(start as int);
    if start == n {
        return None;
    }
    let mut acc: u128 = 0;
    let mut i = start;
    assert(d.take(0) =~= Seq::<char>::empty());
    while i < n
        invariant
            n == s@.len(),
            start <= i <= n,
            d == s@.skip(start as int),
            radix == 10 || radix == 16,
            cap <= 0x1_0000_0000_0000_0000,
            all_digits(d.take(i - start), radix as nat),
            acc == digits_value(d.take(i - start), radix as nat),
            acc <= cap,
        decreases n - i,
    {
        let c = s.get_char(i);
        assert(d[i - start] == c);
        let dv = exec_digit_value(c, radix);
        match dv {
            None => {
                assert(!all_digits(d, radix as nat)) by {
                    assert(digit_value(d[i - start], radix as nat) is None);
                }
                return None;
            },
            Some(v) => {
                let ghost t = d.take(i - start + 1);
                assert(t.drop_last() =~= d.take(i - start));
                assert(t.last() == c);
                assert(all_digits(t, radix as nat)) by {
                    assert forall|j: int| 0 <= j < t.len() implies (#[trigger] digit_value(
                        t[j],
                        radix as nat,
                    )) is Some by {
                        if j < t.len() - 1 {
                            assert(t[j] == d.take(i - start)[j]);
                        }
                    }
                }
                assert(acc * (radix as u128) <= 0x10_0000_0000_0000_0000) by (nonlinear_arith)
                    requires
                        acc <= 0x1_0000_0000_0000_0000,
                        radix <= 16,
                ;
                let next = acc * (radix as u128) + (v as u128);
                if next > cap {
                    proof {
                        let full = digits_value(d, radix as nat);
                        if d.len() > 0 && all_digits(d, radix as nat) {
                            lemma_digits_value_prefix(d, i - start + 1, radix as nat);
                        }
                    }
                    return None;
                }
                acc = next;
            },
        }
        i = i + 1;
    }
    assert(d.take(n - start) =~= d);
    Some(acc)
}

/// Reads a number in hexadecimal, as `u32::from_str_radix(s, 16)` does.
pub fn parse_hex_u32(s: &str) -> (r: Option<u32>)
    ensures
        r == hex_u32_of(s@),
{
    let n = s.unicode_len();
    let start: usize = if n > 0 && s.get_char(0) == '+' { 1 } else { 0 };
    assert(s@.skip(0) =~= s@);
    match parse_digits(s, start, 16, 0xffff_ffff) {
        Some(v) => Some(v as u32),
        None => None,
    }
}

/// Reads a signed decimal number whose value lies within `lo..=hi`.
fn parse_signed_decimal(s: &str, lo: i128, hi: i128) -> (r: Option<i128>)
    requires
        -0x8000_0000_0000_0000 <= lo <= 0 <= hi <= 0x7fff_ffff_ffff_ffff,
    ensures
        match signed_decimal_value(s@) {
            Some(v) => if lo <= v <= hi {
                r == Some(v as i128)
            } else {
                r is None
            },
            None => r is None,
        },
{
    let n = s.unicode_len();
    assert(s@.skip(0) =~= s@);
    if n > 0 && s.get_char(0) == '-' {
        let cap = (0 - lo) as u128;
        match parse_digits(s, 1, 10, cap) {
            Some(v) => Some(0 - (v as i128)),
            None => None,
        }
    } else {
        let start: usize = if n > 0 && s.get_char(0) == '+' { 1 } else { 0 };
        match parse_digits(s, start, 10, hi as u128) {
            Some(v) => Some(v as i128),
            None => None,
        }
    }
}

/// Reads a decimal number, as `s.parse::<i64>()` does.
pub fn parse_i64(s: &str) -> (r: Option<i64>)
    ensures
        r == i64_of(s@),
{
    match parse_signed_decimal(s, -0x8000_0000_0000_0000, 0x7fff_ffff_ffff_ffff) {
        Some(v) => Some(v as i64),
        None => None,
    }
}

/// Reads a decimal number, as `s.parse::<i32>()` does.
pub fn parse_i32(s: &str) -> (r: Option<i32>)
    ensures
        r == i32_of(s@),
{
    match parse_signed_decimal(s, -0x8000_0000, 0x7fff_ffff) {
        Some(v) => Some(v as i32),
        None => None,
    }
}

} // verus!
