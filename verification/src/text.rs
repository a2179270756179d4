//! Decimal and hexadecimal text forms for numbers and byte strings.
//!
//! Amounts are persisted as decimal text and addresses as lowercase hex
//! text. Both directions are verified against one spec-level rendering, and
//! a round trip through the text form is proved to reproduce the value.

use vstd::prelude::*;
use vstd::string::*;

verus! {

/// The character for one decimal digit value.
pub open spec fn dec_digit_char(d: int) -> char {
    if d == 0 {
        '0'
    } else if d == 1 {
        '1'
    } else if d == 2 {
        '2'
    } else if d == 3 {
        '3'
    } else if d == 4 {
        '4'
    } else if d == 5 {
        '5'
    } else if d == 6 {
        '6'
    } else if d == 7 {
        '7'
    } else if d == 8 {
        '8'
    } else {
        '9'
    }
}

/// Whether `c` is a decimal digit.
pub open spec fn is_dec_digit(c: char) -> bool {
    48 <= c as u32 <= 57
}

/// The value of one decimal digit character.
pub open spec fn dec_char_val(c: char) -> int {
    c as u32 - 48
}

/// The decimal rendering of `n`: no sign, no leading zeros, `"0"` for zero.
pub open spec fn spec_dec(n: nat) -> Seq<char>
    decreases n,
{
    if n < 10 {
        seq![dec_digit_char(n as int)]
    } else {
        spec_dec(n / 10) + seq![dec_digit_char((n % 10) as int)]
    }
}

/// The number a digit string stands for, read most significant digit first.
pub open spec fn spec_dec_val(s: Seq<char>) -> int
    decreases s.len(),
{
    if s.len() == 0 {
        0
    } else {
        spec_dec_val(s.drop_last()) * 10 + dec_char_val(s.last())
    }
}

/// Whether every character of `s` is a decimal digit.
pub open spec fn all_dec_digits(s: Seq<char>) -> bool {
    forall|i: int| 0 <= i < s.len() ==> is_dec_digit(s[i])
}

proof fn lemma_dec_digit_char_val(d: int)
    requires
        0 <= d < 10,
    ensures
        is_dec_digit(dec_digit_char(d)),
        dec_char_val(dec_digit_char(d)) == d,
{
}

/// A decimal rendering consists of digits, is never empty, and stands for
/// the number it renders.
pub proof fn lemma_dec_round_trip(n: nat)
    ensures
        all_dec_digits(spec_dec(n)),
        spec_dec(n).len() > 0,
        spec_dec_val(spec_dec(n)) == n,
    decreases n,
{
    if n < 10 {
        lemma_dec_digit_char_val(n as int);
        let s = spec_dec(n);
        assert(s.drop_last() =~= Seq::<char>::empty());
        assert(s.last() == dec_digit_char(n as int));
        assert(spec_dec_val(Seq::<char>::empty()) == 0);
        assert(spec_dec_val(s) == dec_char_val(dec_digit_char(n as int)));
    } else {
        lemma_dec_round_trip(n / 10);
        lemma_dec_digit_char_val((n % 10) as int);
        let s = spec_dec(n);
        let p = spec_dec(n / 10);
        assert(s.drop_last() =~= p);
        assert(s.last() == dec_digit_char((n % 10) as int));
        assert(spec_dec_val(s) == spec_dec_val(p) * 10 + (n % 10));
        assert((n / 10) * 10 + n % 10 == n) by (nonlinear_arith);
        assert forall|i: int| 0 <= i < s.len() implies is_dec_digit(s[i]) by {
            if i < s.len() - 1 {
                assert(s[i] == p[i]);
                assert(is_dec_digit(p[i]));
            } else {
                assert(s[i] == dec_digit_char((n % 10) as int));
            }
        }
    }
}

fn dec_digit_str(d: u128) -> (r: &'static str)
    requires
        d < 10,
    ensures
        r@ =~= seq![dec_digit_char(d as int)],
{
    if d == 0 {
        proof {
            reveal_strlit("0");
        }
        "0"
    } else if d == 1 {
        proof {
            reveal_strlit("1");
        }
        "1"
    } else if d == 2 {
        proof {
            reveal_strlit("2");
        }
        "2"
    } else if d == 3 {
        proof {
            reveal_strlit("3");
        }
        "3"
    } else if d == 4 {
        proof {
            reveal_strlit("4");
        }
        "4"
    } else if d == 5 {
        proof {
            reveal_strlit("5");
        }
        "5"
    } else if d == 6 {
        proof {
            reveal_strlit("6");
        }
        "6"
    } else if d == 7 {
        proof {
            reveal_strlit("7");
        }
        "7"
    } else if d == 8 {
        proof {
            reveal_strlit("8");
        }
        "8"
    } else {
        proof {
            reveal_strlit("9");
        }
        "9"
    }
}

/// Renders `n` in decimal.
pub fn u128_to_dec(n: u128) -> (r: String)
    ensures
        r@ == spec_dec(n as nat),
    decreases n,
{
    if n < 10 {
        String::from_str(dec_digit_str(n))
    } else {
        let mut s = u128_to_dec(n / 10);
        s.append(dec_digit_str(n % 10));
        s
    }
}

/// Renders `n` in decimal.
pub fn u64_to_dec(n: u64) -> (r: String)
    ensures
        r@ == spec_dec(n as nat),
{
    u128_to_dec(n as u128)
}

/// The value of a digit string never shrinks as the string grows.
proof fn lemma_dec_val_prefix_le(s: Seq<char>, i: int)
    requires
        0 <= i <= s.len(),
        all_dec_digits(s),
        spec_dec_val(s.take(i)) >= 0,
    ensures
        spec_dec_val(s) >= spec_dec_val(s.take(i)),
        spec_dec_val(s) >= 0,
    decreases s.len() - i,
{
    if i == s.len() {
        assert(s.take(i) =~= s);
    } else {
        let t = s.take(i + 1);
        assert(t.drop_last() =~= s.take(i));
        assert(t.last() == s[i]);
        assert(is_dec_digit(s[i]));
        assert(spec_dec_val(t) == spec_dec_val(s.take(i)) * 10 + dec_char_val(s[i]));
        assert(spec_dec_val(t) >= spec_dec_val(s.take(i)));
        lemma_dec_val_prefix_le(s, i + 1);
    }
}

/// Parses a decimal digit string.
///
/// Returns the value exactly when the string is non-empty, holds only
/// decimal digits, and the value fits in the result type; `None` otherwise.
pub fn parse_u128_dec(s: &str) -> (r: Option<u128>)
    ensures
        r is Some <==> s@.len() > 0 && all_dec_digits(s@) && spec_dec_val(s@) <= u128::MAX,
        r matches Some(v) ==> v == spec_dec_val(s@),
{
    let n = s.unicode_len();
    if n == 0 {
        return None;
    }
    let mut acc: u128 = 0;
    let mut i: usize = 0;
    while i < n
        invariant
            n == s@.len(),
            0 < n,
            i <= n,
            forall|j: int| 0 <= j < i ==> is_dec_digit(s@[j]),
            acc == spec_dec_val(s@.take(i as int)),
        decreases n - i,
    {
        let c = s.get_char(i);
        let u = c as u32;
        if u < 48 || u > 57 {
            proof {
                assert(!is_dec_digit(s@[i as int]));
                assert(!all_dec_digits(s@));
            }
            return None;
        }
        let d = (u - 48) as u128;
        proof {
            assert(is_dec_digit(s@[i as int]));
            assert(s@.take(i + 1).drop_last() =~= s@.take(i as int));
            assert(s@.take(i + 1).last() == s@[i as int]);
            assert(spec_dec_val(s@.take(i + 1)) == acc * 10 + d);
        }
        if acc > (u128::MAX - d) / 10 {
            proof {
                assert(acc * 10 + d > u128::MAX) by (nonlinear_arith)
                    requires
                        acc > (u128::MAX - d) / 10,
                        d <= 9,
                ;
                if all_dec_digits(s@) {
                    lemma_dec_val_prefix_le(s@, i + 1);
                }
            }
            return None;
        }
        assert(acc * 10 + d <= u128::MAX) by (nonlinear_arith)
            requires
                acc <= (u128::MAX - d) / 10,
                d <= 9,
        ;
        acc = acc * 10 + d;
        i += 1;
    }
    proof {
        assert(s@.take(n as int) =~= s@);
        assert(all_dec_digits(s@));
    }
    Some(acc)
}

/// Parses a decimal digit string into a 64 bit value.
///
/// Returns the value exactly when the string is non-empty, holds only
/// decimal digits, and the value fits in the result type; `None` otherwise.
pub fn parse_u64_dec(s: &str) -> (r: Option<u64>)
    ensures
        r is Some <==> s@.len() > 0 && all_dec_digits(s@) && spec_dec_val(s@) <= u64::MAX,
        r matches Some(v) ==> v == spec_dec_val(s@),
{
    match parse_u128_dec(s) {
        None => None,
        Some(v) => if v <= u64::MAX as u128 {
            Some(v as u64)
        } else {
            None
        },
    }
}

/// Ten to the `k`th power.
pub open spec fn spec_pow10(k: nat) -> nat
    decreases k,
{
    if k == 0 {
        1nat
    } else {
        10 * spec_pow10((k - 1) as nat)
    }
}

/// Powers of ten grow with the exponent.
pub proof fn lemma_pow10_monotone(a: nat, b: nat)
    requires
        a <= b,
    ensures
        spec_pow10(a) <= spec_pow10(b),
    decreases b,
{
    if a < b {
        lemma_pow10_monotone(a, (b - 1) as nat);
        assert(spec_pow10((b - 1) as nat) <= 10 * spec_pow10((b - 1) as nat)) by (nonlinear_arith)
            requires
                spec_pow10((b - 1) as nat) >= 0,
        ;
    }
}

/// Powers of ten multiply by adding exponents.
pub proof fn lemma_pow10_add(a: nat, b: nat)
    ensures
        spec_pow10(a) * spec_pow10(b) == spec_pow10(a + b),
    decreases a,
{
    if a == 0 {
        assert(spec_pow10(0) == 1);
        assert(1 * spec_pow10(b) == spec_pow10(b));
    } else {
        let pa1 = spec_pow10((a - 1) as nat);
        let pb = spec_pow10(b);
        lemma_pow10_add((a - 1) as nat, b);
        assert(spec_pow10(a) == 10 * pa1);
        assert(spec_pow10(a + b) == 10 * spec_pow10((a + b - 1) as nat));
        assert((a + b - 1) as nat == (a - 1) as nat + b);
        assert(spec_pow10((a + b - 1) as nat) == pa1 * pb);
        assert((10 * pa1) * pb == 10 * (pa1 * pb)) by (nonlinear_arith);
        assert(spec_pow10(a) * pb == (10 * pa1) * pb);
    }
}

/// A digit string's value is below ten to its length.
pub proof fn lemma_dec_val_bound(s: Seq<char>)
    requires
        all_dec_digits(s),
    ensures
        0 <= spec_dec_val(s) < spec_pow10(s.len()),
    decreases s.len(),
{
    if s.len() > 0 {
        let p = s.drop_last();
        assert(forall|i: int| 0 <= i < p.len() ==> p[i] == s[i] && is_dec_digit(s[i]));
        lemma_dec_val_bound(p);
        assert(is_dec_digit(s.last()));
        assert(spec_dec_val(p) * 10 + dec_char_val(s.last()) < 10 * spec_pow10(p.len())) by (nonlinear_arith)
            requires
                0 <= spec_dec_val(p) < spec_pow10(p.len()),
                dec_char_val(s.last()) <= 9,
        ;
    }
}

/// Computes ten to the `k`th power.
pub fn pow10_u128(k: usize) -> (r: u128)
    requires
        spec_pow10(k as nat) <= u128::MAX,
    ensures
        r == spec_pow10(k as nat),
    decreases k,
{
    if k == 0 {
        1
    } else {
        proof {
            assert(spec_pow10((k - 1) as nat) <= 10 * spec_pow10((k - 1) as nat)) by (nonlinear_arith)
                requires
                    spec_pow10((k - 1) as nat) >= 0,
            ;
        }
        let p = pow10_u128(k - 1);
        10 * p
    }
}

/// Ten to the eighteenth, written out: it fits comfortably in 128 bits.
pub proof fn lemma_pow10_18_fits()
    ensures
        spec_pow10(18) == 1_000_000_000_000_000_000,
{
    reveal_with_fuel(spec_pow10, 20);
}

/// The index of the first `.` in `s`, if there is one.
pub open spec fn spec_first_dot(s: Seq<char>) -> Option<int>
    decreases s.len(),
{
    if s.len() == 0 {
        None
    } else if s[0] == '.' {
        Some(0int)
    } else {
        match spec_first_dot(s.drop_first()) {
            None => None,
            Some(i) => Some(i + 1),
        }
    }
}

proof fn lemma_first_dot_characterization(s: Seq<char>, i: int)
    requires
        0 <= i < s.len(),
        s[i] == '.',
        forall|j: int| 0 <= j < i ==> s[j] != '.',
    ensures
        spec_first_dot(s) == Some(i),
    decreases i,
{
    if i > 0 {
        let rest = s.drop_first();
        assert(rest[i - 1] == s[i]);
        assert(forall|j: int| 0 <= j < i - 1 ==> rest[j] == s[j + 1] && s[j + 1] != '.');
        lemma_first_dot_characterization(rest, i - 1);
    }
}

proof fn lemma_no_dot(s: Seq<char>)
    requires
        forall|j: int| 0 <= j < s.len() ==> s[j] != '.',
    ensures
        spec_first_dot(s) is None,
    decreases s.len(),
{
    if s.len() > 0 {
        let rest = s.drop_first();
        assert(forall|j: int| 0 <= j < rest.len() ==> rest[j] == s[j + 1] && s[j + 1] != '.');
        lemma_no_dot(rest);
    }
}

/// Finds the first `.` in `s`, if there is one.
pub fn find_dot(s: &str) -> (r: Option<usize>)
    ensures
        r matches Some(i) ==> spec_first_dot(s@) == Some(i as int) && i < s@.len() && s@[i as int]
            == '.',
        r is None ==> spec_first_dot(s@) is None,
{
    let n = s.unicode_len();
    let mut i: usize = 0;
    while i < n
        invariant
            n == s@.len(),
            i <= n,
            forall|j: int| 0 <= j < i ==> s@[j] != '.',
        decreases n - i,
    {
        if s.get_char(i) == '.' {
            proof {
                lemma_first_dot_characterization(s@, i as int);
            }
            return Some(i);
        }
        i += 1;
    }
    proof {
        lemma_no_dot(s@);
    }
    None
}

/// The character for one hex digit value, lowercase.
pub open spec fn hex_digit_char(d: int) -> char {
    if d < 10 {
        dec_digit_char(d)
    } else if d == 10 {
        'a'
    } else if d == 11 {
        'b'
    } else if d == 12 {
        'c'
    } else if d == 13 {
        'd'
    } else if d == 14 {
        'e'
    } else {
        'f'
    }
}

/// The lowercase hex rendering of a byte string, two digits per byte.
pub open spec fn spec_hex(bs: Seq<u8>) -> Seq<char>
    decreases bs.len(),
{
    if bs.len() == 0 {
        Seq::<char>::empty()
    } else {
        spec_hex(bs.drop_last()) + seq![
            hex_digit_char((bs.last() / 16) as int),
            hex_digit_char((bs.last() % 16) as int),
        ]
    }
}

/// The value of one hex digit character, or `16` if it is none.
pub open spec fn hex_char_val(c: char) -> int {
    if 48 <= c as u32 <= 57 {
        c as u32 - 48
    } else if 97 <= c as u32 <= 102 {
        c as u32 - 87
    } else {
        16
    }
}

/// The byte string a hex digit string stands for, two digits per byte.
pub open spec fn spec_unhex(s: Seq<char>) -> Seq<u8>
    decreases s.len(),
{
    if s.len() < 2 {
        Seq::<u8>::empty()
    } else {
        spec_unhex(s.drop_last().drop_last()) + seq![
            (hex_char_val(s[s.len() - 2]) * 16 + hex_char_val(s.last())) as u8,
        ]
    }
}

/// A hex digit string stands for one byte per two digits.
pub proof fn lemma_unhex_len(s: Seq<char>)
    ensures
        spec_unhex(s).len() == s.len() / 2,
    decreases s.len(),
{
    if s.len() >= 2 {
        lemma_unhex_len(s.drop_last().drop_last());
    }
}

/// Whether every character of `s` is a lowercase hex digit.
pub open spec fn all_hex_digits(s: Seq<char>) -> bool {
    forall|i: int| 0 <= i < s.len() ==> hex_char_val(s[i]) < 16
}

proof fn lemma_hex_digit_char_val(d: int)
    requires
        0 <= d < 16,
    ensures
        hex_char_val(hex_digit_char(d)) == d,
{
}

/// Reading back the hex rendering of a byte string gives the bytes again,
/// the rendering is twice as long as the bytes, and holds hex digits only.
pub proof fn lemma_hex_round_trip(bs: Seq<u8>)
    ensures
        spec_hex(bs).len() == 2 * bs.len(),
        all_hex_digits(spec_hex(bs)),
        spec_unhex(spec_hex(bs)) == bs,
    decreases bs.len(),
{
    if bs.len() == 0 {
        assert(spec_unhex(spec_hex(bs)) =~= bs);
    } else {
        lemma_hex_round_trip(bs.drop_last());
        let b = bs.last();
        lemma_hex_digit_char_val((b / 16) as int);
        lemma_hex_digit_char_val((b % 16) as int);
        let s = spec_hex(bs);
        assert(s.drop_last().drop_last() =~= spec_hex(bs.drop_last()));
        assert(s[s.len() - 2] == hex_digit_char((b / 16) as int));
        assert(s.last() == hex_digit_char((b % 16) as int));
        assert((b / 16) * 16 + (b % 16) == b) by (nonlinear_arith);
        assert(spec_unhex(spec_hex(bs)) =~= bs);
        assert(all_hex_digits(s)) by {
            assert(forall|i: int|
                0 <= i < s.len() - 2 ==> s[i] == spec_hex(bs.drop_last())[i] && hex_char_val(s[i])
                    < 16);
        }
    }
}

fn hex_digit_str(d: u8) -> (r: &'static str)
    requires
        d < 16,
    ensures
        r@ =~= seq![hex_digit_char(d as int)],
{
    if d < 10 {
        dec_digit_str(d as u128)
    } else if d == 10 {
        proof {
            reveal_strlit("a");
        }
        "a"
    } else if d == 11 {
        proof {
            reveal_strlit("b");
        }
        "b"
    } else if d == 12 {
        proof {
            reveal_strlit("c");
        }
        "c"
    } else if d == 13 {
        proof {
            reveal_strlit("d");
        }
        "d"
    } else if d == 14 {
        proof {
            reveal_strlit("e");
        }
        "e"
    } else {
        proof {
            reveal_strlit("f");
        }
        "f"
    }
}

/// Renders a byte string as lowercase hex, two digits per byte.
pub fn bytes_to_hex(bs: &Vec<u8>) -> (r: String)
    ensures
        r@ == spec_hex(bs@),
{
    let mut s = String::new();
    let n = bs.len();
    let mut i: usize = 0;
    while i < n
        invariant
            n == bs@.len(),
            i <= n,
            s@ == spec_hex(bs@.take(i as int)),
        decreases n - i,
    {
        let b = bs[i];
        s.append(hex_digit_str(b / 16));
        s.append(hex_digit_str(b % 16));
        proof {
            assert(bs@.take(i + 1).drop_last() =~= bs@.take(i as int));
            assert(bs@.take(i + 1).last() == bs@[i as int]);
            assert(s@ =~= spec_hex(bs@.take(i + 1)));
        }
        i += 1;
    }
    proof {
        assert(bs@.take(n as int) =~= bs@);
    }
    s
}

/// Parses a lowercase hex string into bytes.
///
/// Returns the bytes exactly when the string has even length and holds only
/// decimal digits or the lowercase letters `a` to `f`; `None` otherwise.
pub fn hex_to_bytes(s: &str) -> (r: Option<Vec<u8>>)
    ensures
        r is Some <==> s@.len() % 2 == 0 && all_hex_digits(s@),
        r matches Some(v) ==> v@ == spec_unhex(s@),
{
    let n = s.unicode_len();
    if n % 2 != 0 {
        return None;
    }
    let mut out: Vec<u8> = Vec::new();
    let mut i: usize = 0;
    while i < n
        invariant
            n == s@.len(),
            n % 2 == 0,
            i <= n,
            i % 2 == 0,
            forall|j: int| 0 <= j < i ==> hex_char_val(s@[j]) < 16,
            out@ == spec_unhex(s@.take(i as int)),
        decreases n - i,
    {
        let hi = hex_char_digit(s.get_char(i));
        let lo = hex_char_digit(s.get_char(i + 1));
        if hi >= 16 || lo >= 16 {
            proof {
                if hi >= 16 {
                    assert(hex_char_val(s@[i as int]) >= 16);
                } else {
                    assert(hex_char_val(s@[i + 1]) >= 16);
                }
                assert(!all_hex_digits(s@));
            }
            return None;
        }
        out.push(hi * 16 + lo);
        proof {
            let t = s@.take(i + 2);
            assert(t.drop_last().drop_last() =~= s@.take(i as int));
            assert(t[t.len() - 2] == s@[i as int]);
            assert(t.last() == s@[i + 1]);
            assert(out@ =~= spec_unhex(s@.take(i + 2)));
        }
        i += 2;
    }
    proof {
        assert(s@.take(n as int) =~= s@);
        assert(all_hex_digits(s@));
    }
    Some(out)
}

fn hex_char_digit(c: char) -> (r: u8)
    ensures
        r == if hex_char_val(c) < 16 {
            hex_char_val(c)
        } else {
            16int
        },
{
    let u = c as u32;
    if 48 <= u && u <= 57 {
        (u - 48) as u8
    } else if 97 <= u && u <= 102 {
        (u - 87) as u8
    } else {
        16
    }
}

} // verus!
