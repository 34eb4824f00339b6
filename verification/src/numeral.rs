//! Numerals: printing integers and reading them back.

use vstd::prelude::*;

use crate::text::{chars_of, is_space, is_word};

verus! {

/// The character for a digit below sixteen, in lower case.
pub open spec fn digit_char(d: nat) -> char {
    if d < 10 {
        ('0' as nat + d) as char
    } else {
        ('a' as nat + d - 10) as char
    }
}

/// The value of a digit character in some base up to sixteen.
pub open spec fn digit_value(c: char) -> Option<nat> {
    if '0' <= c <= '9' {
        Some((c as nat - '0' as nat) as nat)
    } else if 'a' <= c <= 'f' {
        Some((c as nat - 'a' as nat + 10) as nat)
    } else if 'A' <= c <= 'F' {
        Some((c as nat - 'A' as nat + 10) as nat)
    } else {
        None
    }
}

/// The numeral of `n` in base `radix`, without leading zeros.
pub open spec fn numeral(n: nat, radix: nat) -> Seq<char>
    decreases n,
    when radix >= 2
    via numeral_decreases
{
    if n < radix {
        seq![digit_char(n)]
    } else {
        numeral(n / radix, radix).push(digit_char(n % radix))
    }
}

#[via_fn]
proof fn numeral_decreases(n: nat, radix: nat) {
    if n >= radix {
        assert(n / radix < n) by (nonlinear_arith)
            requires
                n >= radix >= 2,
        ;
    }
}

/// The decimal numeral of `n`.
pub open spec fn decimal(n: nat) -> Seq<char> {
    numeral(n, 10)
}

/// The hexadecimal numeral of `n` with its `0x` prefix.
pub open spec fn prefixed_hex(n: nat) -> Seq<char> {
    seq!['0', 'x'] + numeral(n, 16)
}

/// A digit character in upper case.
pub open spec fn upper_digit(c: char) -> char {
    if 'a' <= c <= 'f' {
        (c as nat - 'a' as nat + 'A' as nat) as char
    } else {
        c
    }
}

/// The numeral of `n` in base `radix`, with upper-case digits.
pub open spec fn upper_numeral(n: nat, radix: nat) -> Seq<char> {
    numeral(n, radix).map_values(|c: char| upper_digit(c))
}

/// Every character of `s` is a digit in base `radix`.
pub open spec fn all_digits(s: Seq<char>, radix: nat) -> bool {
    forall|i: int|
        0 <= i < s.len() ==> digit_value(#[trigger] s[i]) is Some && digit_value(s[i])->0 < radix
}

/// The value of a run of digits, most significant first.
pub open spec fn digits_value(s: Seq<char>, radix: nat) -> nat
    decreases s.len(),
{
    if s.len() == 0 {
        0
    } else {
        digits_value(s.drop_last(), radix) * radix + (digit_value(s.last())->0)
    }
}

/// Reads an unsigned integer no larger than `max`: an optional `+` and then at
/// least one digit.
pub open spec fn parse_unsigned(s: Seq<char>, radix: nat, max: nat) -> Option<nat> {
    let digits = if s.len() > 0 && s[0] == '+' {
        s.skip(1)
    } else {
        s
    };
    if digits.len() > 0 && all_digits(digits, radix) && digits_value(digits, radix) <= max {
        Some(digits_value(digits, radix))
    } else {
        None
    }
}

/// A digit below the base reads back as itself and is neither a sign nor a blank.
pub proof fn lemma_digit(d: nat)
    requires
        d < 16,
    ensures
        digit_value(digit_char(d)) == Some(d),
        !is_space(digit_char(d)),
        digit_char(d) != '+',
        digit_char(d) != '"',
        digit_char(d) != '=',
        digit_char(d) != '.',
        digit_char(d) != '/',
        digit_char(d) != ':',
        (digit_char(d) == '0') == (d == 0),
{
}

/// A numeral is made of digits and reads back as its number.
pub proof fn lemma_numeral(n: nat, radix: nat)
    requires
        2 <= radix <= 16,
    ensures
        numeral(n, radix).len() > 0,
        all_digits(numeral(n, radix), radix),
        digits_value(numeral(n, radix), radix) == n,
        forall|i: int|
            #![trigger numeral(n, radix)[i]]
            0 <= i < numeral(n, radix).len() ==> exists|d: nat|
                d < radix && numeral(n, radix)[i] == #[trigger] digit_char(d),
        n > 0 ==> numeral(n, radix)[0] != '0',
    decreases n,
{
    if n < radix {
        lemma_digit(n);
        let s = numeral(n, radix);
        assert(s == seq![digit_char(n)]);
        assert(s.drop_last().len() == 0);
        assert(digits_value(s.drop_last(), radix) == 0);
        assert(s.last() == digit_char(n));
        assert(digits_value(s, radix) == 0 * radix + n);
    } else {
        let q = n / radix;
        let r = n % radix;
        assert(q < n && r < radix && q * radix + r == n && q > 0) by (nonlinear_arith)
            requires
                n >= radix >= 2,
                q == n / radix,
                r == n % radix,
        ;
        lemma_numeral(q, radix);
        lemma_digit(r);
        let p = numeral(q, radix);
        let s = numeral(n, radix);
        assert(s == p.push(digit_char(r)));
        assert(s.drop_last() =~= p);
        assert(s.last() == digit_char(r));
        assert forall|i: int| #![trigger s[i]] 0 <= i < s.len() implies exists|d: nat|
            d < radix && s[i] == #[trigger] digit_char(d) by {
            if i < p.len() {
                assert(s[i] == p[i]);
            } else {
                assert(s[i] == digit_char(r));
            }
        }
        assert forall|i: int| 0 <= i < s.len() implies digit_value(#[trigger] s[i]) is Some
            && digit_value(s[i])->0 < radix by {
            if i < p.len() {
                assert(s[i] == p[i]);
            }
        }
        assert(s[0] == p[0]);
    }
}

/// Printing and reading are inverse, for every base up to sixteen.
pub proof fn law_numeral_reads_back(n: nat, radix: nat, max: nat)
    requires
        2 <= radix <= 16,
        n <= max,
    ensures
        parse_unsigned(numeral(n, radix), radix, max) == Some(n),
{
    lemma_numeral(n, radix);
    let s = numeral(n, radix);
    let d = choose|d: nat| d < radix && s[0] == #[trigger] digit_char(d);
    lemma_digit(d);
}

/// The case of its digits does not change what a numeral says.
pub proof fn lemma_upper_digits(s: Seq<char>, radix: nat)
    requires
        all_digits(s, radix),
    ensures
        all_digits(s.map_values(|c: char| upper_digit(c)), radix),
        digits_value(s.map_values(|c: char| upper_digit(c)), radix) == digits_value(s, radix),
    decreases s.len(),
{
    let upper = s.map_values(|c: char| upper_digit(c));
    assert forall|i: int| 0 <= i < upper.len() implies digit_value(#[trigger] upper[i])
        == digit_value(s[i]) by {
        assert(upper[i] == upper_digit(s[i]));
    }
    if s.len() > 0 {
        lemma_upper_digits(s.drop_last(), radix);
        assert(upper.drop_last() =~= s.drop_last().map_values(|c: char| upper_digit(c)));
    }
}

/// A leading zero does not change what a numeral says.
pub proof fn lemma_leading_zero(s: Seq<char>, radix: nat)
    requires
        radix >= 1,
        all_digits(s, radix),
    ensures
        all_digits(seq!['0'] + s, radix),
        digits_value(seq!['0'] + s, radix) == digits_value(s, radix),
    decreases s.len(),
{
    let padded = seq!['0'] + s;
    assert forall|i: int| 0 <= i < padded.len() implies digit_value(#[trigger] padded[i]) is Some
        && digit_value(padded[i])->0 < radix by {
        if i > 0 {
            assert(padded[i] == s[i - 1]);
        }
    }
    if s.len() == 0 {
        assert(padded.drop_last().len() == 0);
        assert(digits_value(padded.drop_last(), radix) == 0);
        assert(padded.last() == '0');
        assert(digits_value(padded, radix) == 0 * radix + 0);
    } else {
        lemma_leading_zero(s.drop_last(), radix);
        assert(padded.drop_last() =~= seq!['0'] + s.drop_last());
        assert(padded.last() == s.last());
    }
}

/// A numeral is a word free of separators.
pub proof fn lemma_numeral_plain(n: nat, radix: nat)
    requires
        2 <= radix <= 16,
    ensures
        is_word(numeral(n, radix)),
        !numeral(n, radix).contains('='),
        !numeral(n, radix).contains('"'),
        !numeral(n, radix).contains('+'),
        !numeral(n, radix).contains('.'),
        !numeral(n, radix).contains('/'),
        !numeral(n, radix).contains(':'),
{
    lemma_numeral(n, radix);
    let s = numeral(n, radix);
    assert forall|i: int| 0 <= i < s.len() implies !is_space(#[trigger] s[i]) && s[i] != '='
        && s[i] != '"' && s[i] != '+' && s[i] != '.' && s[i] != '/' && s[i] != ':' by {
        let d = choose|d: nat| d < radix && s[i] == #[trigger] digit_char(d);
        lemma_digit(d);
    }
}

fn exec_digit_char(d: u8) -> (c: char)
    requires
        d < 16,
    ensures
        c == digit_char(d as nat),
{
    if d < 10 {
        (48u8 + d) as char
    } else {
        (97u8 + (d - 10)) as char
    }
}

fn exec_digit_value(c: char) -> (v: Option<u8>)
    ensures
        v is Some == digit_value(c) is Some,
        v is Some ==> v->0 as nat == digit_value(c)->0 && v->0 < 16,
{
    if '0' <= c && c <= '9' {
        Some((c as u32 - '0' as u32) as u8)
    } else if 'a' <= c && c <= 'f' {
        Some((c as u32 - 'a' as u32 + 10) as u8)
    } else if 'A' <= c && c <= 'F' {
        Some((c as u32 - 'A' as u32 + 10) as u8)
    } else {
        None
    }
}

/// Appends the numeral of `n` in base `radix`.
pub fn push_numeral(out: &mut String, n: u128, radix: u8)
    requires
        2 <= radix <= 16,
    ensures
        final(out)@ == old(out)@ + numeral(n as nat, radix as nat),
    decreases n,
{
    let base: u128 = radix as u128;
    if n < base {
        out.push(exec_digit_char(n as u8));
        assert(out@ =~= old(out)@ + numeral(n as nat, radix as nat));
    } else {
        let q: u128 = n / base;
        let r: u128 = n % base;
        assert(q < n) by (nonlinear_arith)
            requires
                n >= base >= 2,
                q == n / base,
        ;
        push_numeral(out, q, radix);
        out.push(exec_digit_char(r as u8));
        assert(out@ =~= old(out)@ + numeral(n as nat, radix as nat));
    }
}

/// Appends the decimal numeral of `n`.
pub fn push_decimal(out: &mut String, n: u128)
    ensures
        final(out)@ == old(out)@ + decimal(n as nat),
{
    push_numeral(out, n, 10);
}

/// Appends the hexadecimal numeral of `n` with its `0x` prefix.
pub fn push_prefixed_hex(out: &mut String, n: u128)
    ensures
        final(out)@ == old(out)@ + prefixed_hex(n as nat),
{
    out.push('0');
    out.push('x');
    push_numeral(out, n, 16);
    assert(out@ =~= old(out)@ + prefixed_hex(n as nat));
}

/// The hexadecimal numeral of `n` in exactly `width` digits, the higher ones
/// dropped.
pub open spec fn fixed_hex(n: nat, width: nat) -> Seq<char>
    decreases width,
{
    if width == 0 {
        Seq::empty()
    } else {
        fixed_hex(n / 16, (width - 1) as nat).push(digit_char(n % 16))
    }
}

/// Appends the hexadecimal numeral of `n` in exactly `width` digits.
pub fn push_fixed_hex(out: &mut String, n: u64, width: u8)
    ensures
        final(out)@ == old(out)@ + fixed_hex(n as nat, width as nat),
    decreases width,
{
    if width > 0 {
        push_fixed_hex(out, n / 16, width - 1);
        out.push(exec_digit_char((n % 16) as u8));
    }
    assert(out@ =~= old(out)@ + fixed_hex(n as nat, width as nat));
}

/// Reading more digits never lowers the value.
proof fn lemma_digits_value_monotone(s: Seq<char>, k: int, radix: nat)
    requires
        0 <= k <= s.len(),
        radix >= 1,
    ensures
        digits_value(s.take(k), radix) <= digits_value(s, radix),
    decreases s.len() - k,
{
    if k == s.len() {
        assert(s.take(k) =~= s);
    } else {
        lemma_digits_value_monotone(s, k + 1, radix);
        let t = s.take(k + 1);
        assert(t.drop_last() =~= s.take(k));
        let v = digits_value(s.take(k), radix);
        assert(v * radix >= v) by (nonlinear_arith)
            requires
                radix >= 1,
                v >= 0,
        ;
    }
}

/// Reads an unsigned integer no larger than `max`: an optional `+` and then at
/// least one digit in base `radix`.
pub fn read_unsigned(s: &str, radix: u8, max: u64) -> (r: Option<u64>)
    requires
        2 <= radix <= 16,
    ensures
        match r {
            Some(v) => parse_unsigned(s@, radix as nat, max as nat) == Some(v as nat),
            None => parse_unsigned(s@, radix as nat, max as nat) is None,
        },
{
    let chars = chars_of(s);
    let start: usize = if chars.len() > 0 && chars[0] == '+' {
        1
    } else {
        0
    };
    let ghost digits = chars@.skip(start as int);
    proof {
        assert(chars@.skip(0) =~= chars@);
    }
    if start == chars.len() {
        return None;
    }
    let mut value: u64 = 0;
    let mut i: usize = start;
    assert(digits.take(0).len() == 0);
    while i < chars.len()
        invariant
            2 <= radix <= 16,
            start <= i <= chars@.len(),
            start < chars@.len(),
            chars@ == s@,
            start == if chars@.len() > 0 && chars@[0] == '+' { 1int } else { 0int },
            digits == chars@.skip(start as int),
            digits == (if s@.len() > 0 && s@[0] == '+' { s@.skip(1) } else { s@ }),
            all_digits(digits.take(i - start), radix as nat),
            value == digits_value(digits.take(i - start), radix as nat),
            value <= max,
        decreases chars@.len() - i,
    {
        let ghost k = i - start;
        assert(digits[k] == chars@[i as int]);
        assert(digits.take(k + 1).drop_last() =~= digits.take(k));
        assert(digits.take(k + 1).last() == chars@[i as int]);
        let d: u8 = match exec_digit_value(chars[i]) {
            Some(d) => d,
            None => {
                return None;
            },
        };
        if d >= radix {
            return None;
        }
        assert(0 <= value * radix <= u64::MAX * 16) by (nonlinear_arith)
            requires
                0 <= value <= u64::MAX,
                0 <= radix <= 16,
        ;
        let next: u128 = (value as u128) * (radix as u128) + (d as u128);
        assert(next == digits_value(digits.take(k + 1), radix as nat));
        if next > max as u128 {
            proof {
                lemma_digits_value_monotone(digits, k + 1, radix as nat);
            }
            return None;
        }
        value = next as u64;
        assert forall|j: int| 0 <= j < k + 1 implies digit_value(#[trigger] digits.take(k + 1)[j])
            is Some && digit_value(digits.take(k + 1)[j])->0 < radix by {
            if j < k {
                assert(digits.take(k + 1)[j] == digits.take(k)[j]);
            }
        }
        i += 1;
    }
    assert(digits.take(i - start) =~= digits);
    Some(value)
}

} // verus!
