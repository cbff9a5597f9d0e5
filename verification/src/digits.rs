//! Decimal and hexadecimal digit strings: classification, numeric value,
//! rendering a number as its decimal digit string, and a checked decimal
//! parser.  These are the building blocks for keycode normalization and for
//! the club-id field of the setup form.

use vstd::prelude::*;

verus! {

// ---------------------------------------------------------------------------
// Digit classification
// ---------------------------------------------------------------------------

/// `c` is an ASCII decimal digit `'0'..='9'`.
pub open spec fn is_dec_digit(c: char) -> bool {
    '0' as u32 <= c as u32 && c as u32 <= '9' as u32
}

/// `c` is an ASCII hexadecimal digit (`0-9`, `a-f` or `A-F`).
pub open spec fn is_hex_digit(c: char) -> bool {
    is_dec_digit(c) || ('a' as u32 <= c as u32 && c as u32 <= 'f' as u32) || ('A' as u32 <= c as u32
        && c as u32 <= 'F' as u32)
}

/// Numeric value of a decimal digit.
pub open spec fn dec_digit_value(c: char) -> nat {
    (c as u32 - '0' as u32) as nat
}

/// Numeric value of a hexadecimal digit.
pub open spec fn hex_digit_value(c: char) -> nat {
    if is_dec_digit(c) {
        dec_digit_value(c)
    } else if 'a' as u32 <= c as u32 && c as u32 <= 'f' as u32 {
        (c as u32 - 'a' as u32 + 10) as nat
    } else {
        (c as u32 - 'A' as u32 + 10) as nat
    }
}

/// Every character of `s` is a decimal digit.
pub open spec fn all_dec_digits(s: Seq<char>) -> bool {
    forall|i: int| 0 <= i < s.len() ==> is_dec_digit(#[trigger] s[i])
}

/// Every character of `s` is a hexadecimal digit.
pub open spec fn all_hex_digits(s: Seq<char>) -> bool {
    forall|i: int| 0 <= i < s.len() ==> is_hex_digit(#[trigger] s[i])
}

// ---------------------------------------------------------------------------
// Numeric value of a digit string
// ---------------------------------------------------------------------------

/// The number denoted by the decimal digit string `s` (most significant
/// digit first; the empty string denotes 0).
pub open spec fn dec_value(s: Seq<char>) -> nat
    decreases s.len(),
{
    if s.len() == 0 {
        0
    } else {
        dec_value(s.drop_last()) * 10 + dec_digit_value(s.last())
    }
}

/// The number denoted by the hexadecimal digit string `s`.
pub open spec fn hex_value(s: Seq<char>) -> nat
    decreases s.len(),
{
    if s.len() == 0 {
        0
    } else {
        hex_value(s.drop_last()) * 16 + hex_digit_value(s.last())
    }
}

/// 16^n; used to bound the value of an n-digit hexadecimal string.
pub open spec fn pow16(n: nat) -> nat
    decreases n,
{
    if n == 0 {
        1
    } else {
        16 * pow16((n - 1) as nat)
    }
}

/// The value of a decimal digit string only grows as digits are appended:
/// the value of a prefix never exceeds the value of the whole string.
pub proof fn lemma_dec_value_prefix_le(s: Seq<char>, i: int)
    requires
        0 <= i <= s.len(),
    ensures
        dec_value(s.subrange(0, i)) <= dec_value(s),
    decreases s.len() - i,
{
    if i < s.len() {
        lemma_dec_value_prefix_le(s, i + 1);
        let a = s.subrange(0, i);
        let b = s.subrange(0, i + 1);
        assert(b.drop_last() =~= a);
        assert(dec_value(b) == dec_value(a) * 10 + dec_digit_value(b.last()));
    } else {
        assert(s.subrange(0, i) =~= s);
    }
}

// ---------------------------------------------------------------------------
// Rendering a number as a decimal string
// ---------------------------------------------------------------------------

/// The decimal digit character for `d` (`d < 10`).
pub open spec fn dec_digit_char(d: nat) -> char {
    if d == 0 {
        '0'
    } else if d == 1 {
        '1'
    } else if d == 2 {
        '2'
    } else if d == 3 {
        '3'
    } else if d == 4 {
        '4'
    } else if d == 5 {
        '5'
    } else if d == 6 {
        '6'
    } else if d == 7 {
        '7'
    } else if d == 8 {
        '8'
    } else {
        '9'
    }
}

/// The canonical decimal rendering of `n`, without leading zeros
/// (`0` renders as `"0"`).
pub open spec fn dec_string(n: nat) -> Seq<char>
    decreases n,
{
    if n < 10 {
        seq![dec_digit_char(n)]
    } else {
        dec_string(n / 10).push(dec_digit_char(n % 10))
    }
}

/// `s` left-padded with `'0'` to 10 characters (unchanged if already longer).
pub open spec fn zero_pad10(s: Seq<char>) -> Seq<char> {
    if s.len() >= 10 {
        s
    } else {
        Seq::new((10 - s.len()) as nat, |i: int| '0') + s
    }
}

// ---------------------------------------------------------------------------
// Executable digit tests
// ---------------------------------------------------------------------------

/// Decide whether `c` is a decimal digit.
pub fn dec_digit(c: char) -> (r: bool)
    ensures
        r == is_dec_digit(c),
{
    let u = c as u32;
    '0' as u32 <= u && u <= '9' as u32
}

/// Decide whether `c` is a hexadecimal digit.
pub fn hex_digit(c: char) -> (r: bool)
    ensures
        r == is_hex_digit(c),
{
    let u = c as u32;
    dec_digit(c) || ('a' as u32 <= u && u <= 'f' as u32) || ('A' as u32 <= u && u <= 'F' as u32)
}

/// Decide whether every character of `s` is a decimal digit.
pub fn str_all_dec_digits(s: &str) -> (r: bool)
    ensures
        r == all_dec_digits(s@),
{
    let n = s.unicode_len();
    let mut i: usize = 0;
    while i < n
        invariant
            0 <= i <= n,
            n == s@.len(),
            forall|j: int| 0 <= j < i ==> is_dec_digit(#[trigger] s@[j]),
        decreases n - i,
    {
        if !dec_digit(s.get_char(i)) {
            return false;
        }
        i = i + 1;
    }
    true
}

/// Decide whether every character of `s` is a hexadecimal digit.
pub fn str_all_hex_digits(s: &str) -> (r: bool)
    ensures
        r == all_hex_digits(s@),
{
    let n = s.unicode_len();
    let mut i: usize = 0;
    while i < n
        invariant
            0 <= i <= n,
            n == s@.len(),
            forall|j: int| 0 <= j < i ==> is_hex_digit(#[trigger] s@[j]),
        decreases n - i,
    {
        if !hex_digit(s.get_char(i)) {
            return false;
        }
        i = i + 1;
    }
    true
}

// ---------------------------------------------------------------------------
// Executable conversions
// ---------------------------------------------------------------------------

/// Numeric value of the decimal digit `c`.
pub fn dec_digit_to_value(c: char) -> (r: u32)
    requires
        is_dec_digit(c),
    ensures
        r as nat == dec_digit_value(c),
        r <= 9,
{
    c as u32 - '0' as u32
}

/// Numeric value of the hexadecimal digit `c`.
pub fn hex_digit_to_value(c: char) -> (r: u32)
    requires
        is_hex_digit(c),
    ensures
        r as nat == hex_digit_value(c),
        r <= 15,
{
    if c as u32 <= '9' as u32 {
        c as u32 - '0' as u32
    } else if 'a' as u32 <= c as u32 && c as u32 <= 'f' as u32 {
        c as u32 - 'a' as u32 + 10
    } else {
        c as u32 - 'A' as u32 + 10
    }
}

/// The number denoted by a hexadecimal string of at most 7 digits.
/// 16^7 - 1 fits comfortably in a `u32`, so no overflow is possible.
pub fn hex_str_to_u32(s: &str) -> (r: u32)
    requires
        all_hex_digits(s@),
        s@.len() <= 7,
    ensures
        r as nat == hex_value(s@),
{
    let n = s.unicode_len();
    let mut i: usize = 0;
    let mut acc: u32 = 0;
    proof {
        assert(s@.subrange(0, 0) =~= Seq::<char>::empty());
    }
    while i < n
        invariant
            0 <= i <= n <= 7,
            n == s@.len(),
            all_hex_digits(s@),
            acc as nat == hex_value(s@.subrange(0, i as int)),
            (acc as nat) < pow16(i as nat),
        decreases n - i,
    {
        let c = s.get_char(i);
        let d = hex_digit_to_value(c);
        proof {
            let pre = s@.subrange(0, i as int);
            let cur = s@.subrange(0, i as int + 1);
            assert(cur.drop_last() =~= pre);
            assert(cur.last() == s@[i as int]);
            assert(pow16((i + 1) as nat) == 16 * pow16(i as nat));
            lemma_pow16_le_7(i as nat + 1);
        }
        acc = acc * 16 + d;
        i = i + 1;
    }
    proof {
        assert(s@.subrange(0, n as int) =~= s@);
    }
    acc
}

/// 16^n grows with n.
proof fn lemma_pow16_mono(n: nat, m: nat)
    requires
        n <= m,
    ensures
        pow16(n) <= pow16(m),
    decreases m,
{
    if n < m {
        lemma_pow16_mono(n, (m - 1) as nat);
    }
}

/// 16^n for n <= 7 stays below 2^32 (so the accumulator never overflows).
proof fn lemma_pow16_le_7(n: nat)
    requires
        n <= 7,
    ensures
        pow16(n) <= 0x10000000,
{
    lemma_pow16_mono(n, 7);
    reveal_with_fuel(pow16, 8);
    assert(pow16(7) == 0x10000000);
}

/// Append the single decimal digit `d` to `out`.
fn push_dec_digit(out: &mut String, d: u32)
    requires
        d <= 9,
    ensures
        final(out)@ == old(out)@.push(dec_digit_char(d as nat)),
{
    proof {
        reveal_strlit("0");
        reveal_strlit("1");
        reveal_strlit("2");
        reveal_strlit("3");
        reveal_strlit("4");
        reveal_strlit("5");
        reveal_strlit("6");
        reveal_strlit("7");
        reveal_strlit("8");
        reveal_strlit("9");
    }
    if d == 0 {
        out.append("0");
    } else if d == 1 {
        out.append("1");
    } else if d == 2 {
        out.append("2");
    } else if d == 3 {
        out.append("3");
    } else if d == 4 {
        out.append("4");
    } else if d == 5 {
        out.append("5");
    } else if d == 6 {
        out.append("6");
    } else if d == 7 {
        out.append("7");
    } else if d == 8 {
        out.append("8");
    } else {
        out.append("9");
    }
    proof {
        assert(final(out)@ =~= old(out)@.push(dec_digit_char(d as nat)));
    }
}

/// Append the decimal rendering of `n` to `out`.
pub fn push_dec_string(out: &mut String, n: u32)
    ensures
        final(out)@ == old(out)@ + dec_string(n as nat),
    decreases n,
{
    if n >= 10 {
        proof {
            assert(n / 10 < n) by (nonlinear_arith)
                requires
                    n >= 10,
            ;
        }
        push_dec_string(out, n / 10);
        push_dec_digit(out, n % 10);
        proof {
            assert(final(out)@ =~= old(out)@ + dec_string(n as nat));
        }
    } else {
        push_dec_digit(out, n);
        proof {
            assert(final(out)@ =~= old(out)@ + dec_string(n as nat));
        }
    }
}

/// Render `n` as a decimal string left-padded with zeros to 10 characters.
pub fn to_padded10_string(n: u32) -> (r: String)
    ensures
        r@ == zero_pad10(dec_string(n as nat)),
{
    let mut digits = String::new();
    push_dec_string(&mut digits, n);
    let len = digits.as_str().unicode_len();
    if len >= 10 {
        proof {
            assert(digits@ =~= zero_pad10(dec_string(n as nat)));
        }
        return digits;
    }
    let mut out = String::new();
    let mut k: usize = 0;
    proof {
        reveal_strlit("0");
    }
    while k < 10 - len
        invariant
            0 <= k <= 10 - len,
            len == digits@.len(),
            len < 10,
            out@ =~= Seq::new(k as nat, |i: int| '0'),
            "0"@ =~= seq!['0'],
        decreases 10 - len - k,
    {
        out.append("0");
        proof {
            assert(out@ =~= Seq::new((k + 1) as nat, |i: int| '0'));
        }
        k = k + 1;
    }
    out.append(digits.as_str());
    proof {
        assert(out@ =~= zero_pad10(dec_string(n as nat)));
    }
    out
}

// ---------------------------------------------------------------------------
// Checked decimal parsing
// ---------------------------------------------------------------------------

/// `s` with one leading `'+'` removed, if present.
pub open spec fn sign_stripped(s: Seq<char>) -> Seq<char> {
    if s.len() > 0 && s[0] == '+' {
        s.subrange(1, s.len() as int)
    } else {
        s
    }
}

/// What parsing `s` as a `u32` yields: an optional leading `'+'`, then at
/// least one decimal digit, and the value must fit in a `u32`.
pub open spec fn parse_u32_spec(s: Seq<char>) -> Option<u32> {
    let t = sign_stripped(s);
    if t.len() > 0 && all_dec_digits(t) && dec_value(t) <= u32::MAX {
        Some(dec_value(t) as u32)
    } else {
        None
    }
}

/// Parse `s` as a `u32`: an optional leading `'+'`, then decimal digits.
/// Returns `None` on any other character, on an empty digit string, and on
/// values that do not fit.
pub fn parse_u32(s: &str) -> (r: Option<u32>)
    ensures
        r == parse_u32_spec(s@),
{
    let n = s.unicode_len();
    let has_sign = n > 0 && s.get_char(0) == '+';
    let start: usize = if has_sign {
        1
    } else {
        0
    };
    let ghost t = sign_stripped(s@);
    proof {
        assert(t =~= s@.subrange(start as int, s@.len() as int));
    }
    if n == start {
        return None;
    }
    let mut i: usize = start;
    let mut acc: u64 = 0;
    proof {
        assert(t.subrange(0, 0) =~= Seq::<char>::empty());
    }
    while i < n
        invariant
            start <= i <= n,
            n == s@.len(),
            t == sign_stripped(s@),
            t == s@.subrange(start as int, s@.len() as int),
            start <= 1,
            n > start,
            acc as nat == dec_value(t.subrange(0, i - start)),
            acc <= u32::MAX,
            forall|j: int| 0 <= j < i - start ==> is_dec_digit(#[trigger] t[j]),
        decreases n - i,
    {
        let c = s.get_char(i);
        proof {
            assert(t[i - start] == s@[i as int]);
        }
        if !dec_digit(c) {
            proof {
                assert(!is_dec_digit(t[i - start]));
                assert(!all_dec_digits(t));
            }
            return None;
        }
        let d = dec_digit_to_value(c);
        let next: u64 = acc * 10 + d as u64;
        proof {
            let pre = t.subrange(0, i - start);
            let cur = t.subrange(0, i + 1 - start);
            assert(cur.drop_last() =~= pre);
            assert(cur.last() == t[i - start]);
        }
        if next > u32::MAX as u64 {
            proof {
                let cur = t.subrange(0, i + 1 - start);
                assert(dec_value(cur) == (acc as nat) * 10 + (d as nat));
                lemma_dec_value_prefix_le(t, i + 1 - start);
                assert(dec_value(t) > u32::MAX);
            }
            return None;
        }
        acc = next;
        i = i + 1;
    }
    proof {
        assert(t.subrange(0, n - start) =~= t);
    }
    Some(acc as u32)
}

} // verus!

verus! {

// ---------------------------------------------------------------------------
// Facts about decimal renderings
// ---------------------------------------------------------------------------

/// 10^n; used to bound the length of a decimal rendering.
pub open spec fn pow10(n: nat) -> nat
    decreases n,
{
    if n == 0 {
        1
    } else {
        10 * pow10((n - 1) as nat)
    }
}

/// A hexadecimal digit string of length n denotes a number below 16^n.
pub proof fn lemma_hex_value_bound(s: Seq<char>)
    requires
        all_hex_digits(s),
    ensures
        hex_value(s) < pow16(s.len()),
    decreases s.len(),
{
    if s.len() > 0 {
        assert(all_hex_digits(s.drop_last())) by {
            assert(forall|i: int|
                0 <= i < s.len() - 1 ==> s.drop_last()[i] == #[trigger] s[i]);
        }
        lemma_hex_value_bound(s.drop_last());
        assert(is_hex_digit(s.last()));
        assert(hex_digit_value(s.last()) <= 15);
    }
}

/// Every character of a decimal rendering is a decimal digit.
pub proof fn lemma_dec_string_digits(n: nat)
    ensures
        all_dec_digits(dec_string(n)),
    decreases n,
{
    if n < 10 {
        assert(is_dec_digit(dec_digit_char(n)));
        assert(forall|i: int|
            0 <= i < dec_string(n).len() ==> is_dec_digit(#[trigger] dec_string(n)[i]));
    } else {
        assert(n / 10 < n) by (nonlinear_arith)
            requires
                n >= 10,
        ;
        lemma_dec_string_digits(n / 10);
        let s = dec_string(n / 10);
        assert(dec_string(n) == s.push(dec_digit_char(n % 10)));
        assert(is_dec_digit(dec_digit_char(n % 10)));
        assert(forall|i: int|
            0 <= i < dec_string(n).len() ==> is_dec_digit(#[trigger] dec_string(n)[i]));
    }
}

/// The decimal rendering of a number denotes that number.
pub proof fn lemma_dec_string_value(n: nat)
    ensures
        dec_value(dec_string(n)) == n,
    decreases n,
{
    if n < 10 {
        let s = dec_string(n);
        assert(s.len() == 1);
        assert(s.drop_last() =~= Seq::<char>::empty());
        assert(dec_value(s.drop_last()) == 0);
        assert(s.last() == dec_digit_char(n));
        assert(dec_digit_value(dec_digit_char(n)) == n);
        assert(dec_value(s) == dec_value(s.drop_last()) * 10 + dec_digit_value(s.last()));
    } else {
        assert(n / 10 < n) by (nonlinear_arith)
            requires
                n >= 10,
        ;
        lemma_dec_string_value(n / 10);
        let s = dec_string(n / 10);
        let c = dec_digit_char(n % 10);
        assert(dec_string(n) == s.push(c));
        assert(s.push(c).drop_last() =~= s);
        assert(s.push(c).last() == c);
        assert(dec_value(s.push(c)) == dec_value(s) * 10 + dec_digit_value(c));
        assert(dec_digit_value(c) == n % 10);
        vstd::arithmetic::div_mod::lemma_fundamental_div_mod(n as int, 10);
        assert(dec_value(s.push(c)) == (n / 10) * 10 + n % 10);
    }
}

/// 10^n grows with n.
proof fn lemma_pow10_mono(n: nat, m: nat)
    requires
        n <= m,
    ensures
        pow10(n) <= pow10(m),
    decreases m,
{
    if n < m {
        lemma_pow10_mono(n, (m - 1) as nat);
    }
}

/// A number below 10^k renders with at most k digits (k at least 1).
pub proof fn lemma_dec_string_len(n: nat, k: nat)
    requires
        n < pow10(k),
        k >= 1,
    ensures
        dec_string(n).len() <= k,
    decreases n,
{
    if n >= 10 {
        vstd::arithmetic::div_mod::lemma_fundamental_div_mod(n as int, 10);
        if k == 1 {
            assert(pow10(1) == 10);
            assert(false);
        }
        assert(n / 10 < pow10((k - 1) as nat)) by {
            if n / 10 >= pow10((k - 1) as nat) {
                assert(n >= 10 * pow10((k - 1) as nat)) by (nonlinear_arith)
                    requires
                        n / 10 >= pow10((k - 1) as nat),
                        n == 10 * (n as int / 10) + n as int % 10,
                        n as int % 10 >= 0,
                ;
            }
        }
        assert(n / 10 < n) by (nonlinear_arith)
            requires
                n >= 10,
        ;
        lemma_dec_string_len(n / 10, (k - 1) as nat);
    }
}

/// An all-zero digit string denotes zero.
proof fn lemma_dec_value_all_zeros(z: Seq<char>)
    requires
        forall|i: int| 0 <= i < z.len() ==> #[trigger] z[i] == '0',
    ensures
        dec_value(z) == 0,
    decreases z.len(),
{
    if z.len() > 0 {
        assert(forall|i: int|
            0 <= i < z.len() - 1 ==> #[trigger] z.drop_last()[i] == z[i]);
        lemma_dec_value_all_zeros(z.drop_last());
        assert(z.last() == z[z.len() - 1]);
        assert(dec_digit_value('0') == 0);
    }
}

/// Leading zeros do not change the denoted number.
pub proof fn lemma_dec_value_zero_prefix(zeros: Seq<char>, s: Seq<char>)
    requires
        forall|i: int| 0 <= i < zeros.len() ==> #[trigger] zeros[i] == '0',
    ensures
        dec_value(zeros + s) == dec_value(s),
    decreases s.len(),
{
    if s.len() == 0 {
        assert(zeros + s =~= zeros);
        lemma_dec_value_all_zeros(zeros);
    } else {
        lemma_dec_value_zero_prefix(zeros, s.drop_last());
        assert((zeros + s).drop_last() =~= zeros + s.drop_last());
        assert((zeros + s).last() == s.last());
    }
}

} // verus!
