//! Kernel command-line handling for PVH direct boot.
//!
//! A paravirtual guest learns the time-stamp-counter frequency from the
//! `tsc_early_khz` parameter. This module adds the parameter when it is absent
//! and holds a supplied one against the frequency the backend reports.

use vstd::prelude::*;

use crate::numeral::{
    all_digits, decimal, digit_value, digits_value, law_numeral_reads_back, lemma_numeral, lemma_numeral_plain, parse_unsigned,
    lemma_leading_zero, lemma_upper_digits, numeral, push_decimal, read_unsigned, upper_numeral,
};
use crate::text::{
    byte_len, byte_tokens, char_is_space, chars_of, command_line_tokens, is_space, is_word,
    lemma_bytes_part, lemma_tokens_are_words,
    lemma_tokens_concat, lemma_tokens_shift, lemma_tokens_space, lemma_tokens_word, lemma_word_len,
    push_text, same_text, slice_of, split_at_byte, split_at_first, split_once, token_views, tokens, tokens_at,
    word_len, words,
};

verus! {

/// Lowest time-stamp-counter frequency a guest is offered.
pub const MIN_TSC_FREQUENCY_HZ: u64 = 500_000_000;

/// Highest time-stamp-counter frequency a guest is offered.
pub const MAX_TSC_FREQUENCY_HZ: u64 = 10_000_000_000;

pub const HZ_PER_KHZ: u64 = 1000;

/// Why a frequency could not be placed on a command line.
#[derive(Debug, PartialEq, Eq)]
pub enum TscFrequencyError {
    /// The frequency is too small to convert to kHz.
    TooSmall(u64),
    /// The frequency is outside the supported range.
    OutOfRange(u64),
    /// The command line names the parameter more than once.
    Duplicate,
    /// The parameter, quoted here, holds no unsigned integer.
    Malformed(String),
    /// The parameter disagrees with the backend.
    Mismatch { specified: u64, reported: u64 },
}

/// The mathematical value of a [`TscFrequencyError`].
pub enum TscFailure {
    TooSmall(nat),
    OutOfRange(nat),
    Duplicate,
    Malformed(Seq<char>),
    Mismatch { specified: nat, reported: nat },
}

impl View for TscFrequencyError {
    type V = TscFailure;

    open spec fn view(&self) -> TscFailure {
        match self {
            TscFrequencyError::TooSmall(hz) => TscFailure::TooSmall(*hz as nat),
            TscFrequencyError::OutOfRange(hz) => TscFailure::OutOfRange(*hz as nat),
            TscFrequencyError::Duplicate => TscFailure::Duplicate,
            TscFrequencyError::Malformed(parameter) => TscFailure::Malformed(parameter@),
            TscFrequencyError::Mismatch { specified, reported } => TscFailure::Mismatch {
                specified: *specified as nat,
                reported: *reported as nat,
            },
        }
    }
}

impl TscFrequencyError {
    /// The diagnostic text of the error.
    pub open spec fn text(self) -> Seq<char> {
        match self {
            TscFrequencyError::TooSmall(hz) => "TSC frequency "@ + decimal(hz as nat)
                + " Hz is too small to convert to kHz"@,
            TscFrequencyError::OutOfRange(hz) => "TSC frequency "@ + decimal(hz as nat)
                + " Hz is outside the supported range of 500 MHz through 10 GHz"@,
            TscFrequencyError::Duplicate =>
                "kernel command line contains duplicate tsc_early_khz parameters"@,
            TscFrequencyError::Malformed(parameter) =>
                "kernel command line contains malformed tsc_early_khz parameter: "@ + parameter@,
            TscFrequencyError::Mismatch { specified, reported } =>
                "kernel command line tsc_early_khz value "@ + decimal(specified as nat)
                    + " does not match the backend-reported value "@ + decimal(reported as nat),
        }
    }

    pub fn message(&self) -> (s: String)
        ensures
            s@ == self.text(),
    {
        let mut s = String::new();
        match self {
            TscFrequencyError::TooSmall(hz) => {
                push_text(&mut s, "TSC frequency ");
                push_decimal(&mut s, *hz as u128);
                push_text(&mut s, " Hz is too small to convert to kHz");
            },
            TscFrequencyError::OutOfRange(hz) => {
                push_text(&mut s, "TSC frequency ");
                push_decimal(&mut s, *hz as u128);
                push_text(
                    &mut s,
                    " Hz is outside the supported range of 500 MHz through 10 GHz",
                );
            },
            TscFrequencyError::Duplicate => {
                push_text(
                    &mut s,
                    "kernel command line contains duplicate tsc_early_khz parameters",
                );
            },
            TscFrequencyError::Malformed(parameter) => {
                push_text(
                    &mut s,
                    "kernel command line contains malformed tsc_early_khz parameter: ",
                );
                push_text(&mut s, parameter.as_str());
            },
            TscFrequencyError::Mismatch { specified, reported } => {
                push_text(&mut s, "kernel command line tsc_early_khz value ");
                push_decimal(&mut s, *specified as u128);
                push_text(&mut s, " does not match the backend-reported value ");
                push_decimal(&mut s, *reported as u128);
            },
        }
        assert(s@ =~= self.text());
        s
    }
}

/// Kernel parameter names treat hyphens and underscores alike.
pub open spec fn canonical_name_char(c: char) -> char {
    if c == '-' {
        '_'
    } else {
        c
    }
}

pub open spec fn same_parameter_name(actual: Seq<char>, expected: Seq<char>) -> bool {
    actual.map_values(|c: char| canonical_name_char(c)) == expected.map_values(
        |c: char| canonical_name_char(c),
    )
}

fn canonical(c: char) -> (r: char)
    ensures
        r == canonical_name_char(c),
{
    if c == '-' {
        '_'
    } else {
        c
    }
}

/// Whether two kernel parameter names are the same to the kernel.
pub fn linux_parameter_name_matches(actual: &str, expected: &str) -> (b: bool)
    ensures
        b == same_parameter_name(actual@, expected@),
{
    let a = chars_of(actual);
    let e = chars_of(expected);
    let ghost am = a@.map_values(|c: char| canonical_name_char(c));
    let ghost em = e@.map_values(|c: char| canonical_name_char(c));
    if a.len() != e.len() {
        assert(am.len() != em.len());
        return false;
    }
    let mut i: usize = 0;
    while i < a.len()
        invariant
            i <= a@.len() == e@.len(),
            am == a@.map_values(|c: char| canonical_name_char(c)),
            em == e@.map_values(|c: char| canonical_name_char(c)),
            am == actual@.map_values(|c: char| canonical_name_char(c)),
            em == expected@.map_values(|c: char| canonical_name_char(c)),
            forall|k: int| 0 <= k < i ==> #[trigger] am[k] == em[k],
        decreases a@.len() - i,
    {
        if canonical(a[i]) != canonical(e[i]) {
            assert(am[i as int] != em[i as int]);
            return false;
        }
        i += 1;
    }
    assert(am =~= em);
    true
}

/// The text of a parameter value without its surrounding quotes. A quote on one
/// side only is malformed.
pub open spec fn unquoted(value: Seq<char>) -> Option<Seq<char>> {
    if value.len() > 0 && value[0] == '"' {
        if value.len() > 1 && value.last() == '"' {
            Some(value.subrange(1, value.len() - 1))
        } else {
            None
        }
    } else if value.len() > 0 && value.last() == '"' {
        None
    } else {
        Some(value)
    }
}

/// The base of a kernel numeral, by its prefix.
pub open spec fn linux_radix(value: Seq<char>) -> nat {
    if value.len() >= 2 && value[0] == '0' && (value[1] == 'x' || value[1] == 'X') {
        16
    } else if value.len() > 0 && value[0] == '0' {
        8
    } else {
        10
    }
}

/// The 32-bit unsigned integer that a kernel parameter value spells: optional
/// quotes, an optional sign, and a hexadecimal, octal, or decimal numeral.
pub open spec fn linux_uint(value: Seq<char>) -> Option<nat> {
    match unquoted(value) {
        None => None,
        Some(text) => {
            let number = if text.len() > 0 && text[0] == '+' {
                text.skip(1)
            } else {
                text
            };
            let radix = linux_radix(number);
            let digits = if radix == 16 {
                number.skip(2)
            } else {
                number
            };
            parse_unsigned(digits, radix, u32::MAX as nat)
        },
    }
}

/// Reads a kernel parameter value as an unsigned 32-bit integer.
pub fn parse_linux_uint(value: &str) -> (r: Option<u32>)
    ensures
        match r {
            Some(v) => linux_uint(value@) == Some(v as nat),
            None => linux_uint(value@) is None,
        },
{
    let chars = chars_of(value);
    let mut from: usize = 0;
    let mut to: usize = chars.len();
    if chars.len() > 0 && chars[0] == '"' {
        if chars.len() > 1 && chars[chars.len() - 1] == '"' {
            from = 1;
            to = chars.len() - 1;
        } else {
            return None;
        }
    } else if chars.len() > 0 && chars[chars.len() - 1] == '"' {
        return None;
    }
    let ghost text = chars@.subrange(from as int, to as int);
    proof {
        assert(chars@.subrange(0, chars@.len() as int) =~= chars@);
        assert(unquoted(value@) == Some(text));
    }
    if from < to && chars[from] == '+' {
        from = from + 1;
    }
    let ghost number = chars@.subrange(from as int, to as int);
    proof {
        assert(number =~= if text.len() > 0 && text[0] == '+' {
            text.skip(1)
        } else {
            text
        });
    }
    if from == to {
        return None;
    }
    let mut radix: u8 = 10;
    if to - from >= 2 && chars[from] == '0' && (chars[from + 1] == 'x' || chars[from + 1] == 'X') {
        radix = 16;
        from = from + 2;
    } else if chars[from] == '0' {
        radix = 8;
    }
    let digits = slice_of(&chars, from, to);
    proof {
        assert(digits@ =~= if radix == 16 {
            number.skip(2)
        } else {
            number
        });
        assert(radix as nat == linux_radix(number));
    }
    match read_unsigned(digits.as_str(), radix, u32::MAX as u64) {
        Some(v) => {
            Some(v as u32)
        },
        None => None,
    }
}

/// How a kernel parameter spells its number.
pub enum UintSpelling {
    Decimal,
    /// Behind `0x`.
    LowerHex,
    /// Behind `0X`, with upper-case digits.
    UpperHex,
    /// Behind `0`.
    Octal,
}

/// The spelling of a number.
pub open spec fn spelled_uint(n: nat, spelling: UintSpelling) -> Seq<char> {
    match spelling {
        UintSpelling::Decimal => decimal(n),
        UintSpelling::LowerHex => seq!['0', 'x'] + numeral(n, 16),
        UintSpelling::UpperHex => seq!['0', 'X'] + upper_numeral(n, 16),
        UintSpelling::Octal => seq!['0'] + numeral(n, 8),
    }
}

/// A number's text with a sign before it and quotes around both, where wanted.
pub open spec fn dressed_uint(text: Seq<char>, plus: bool, quoted: bool) -> Seq<char> {
    let signed = if plus {
        seq!['+'] + text
    } else {
        text
    };
    if quoted {
        seq!['"'] + signed + seq!['"']
    } else {
        signed
    }
}

/// Every 32-bit unsigned integer reads back from each of its spellings, with or
/// without a sign and quotes.
pub proof fn law_uint_reads_back(n: nat, spelling: UintSpelling, plus: bool, quoted: bool)
    requires
        n <= u32::MAX,
    ensures
        linux_uint(dressed_uint(spelled_uint(n, spelling), plus, quoted)) == Some(n),
{
    let text = spelled_uint(n, spelling);
    let radix: nat = match spelling {
        UintSpelling::Decimal => if n == 0 {
            8
        } else {
            10
        },
        UintSpelling::Octal => 8,
        _ => 16,
    };
    let digits = if radix == 16 {
        text.skip(2)
    } else {
        text
    };
    lemma_numeral(n, 10);
    lemma_numeral(n, 16);
    lemma_numeral(n, 8);
    lemma_numeral_plain(n, 10);
    lemma_numeral_plain(n, 16);
    lemma_numeral_plain(n, 8);
    match spelling {
        UintSpelling::Decimal => {
            if n == 0 {
                assert(text =~= seq!['0']);
                assert(numeral(n, 8) =~= seq!['0']);
            }
        },
        UintSpelling::LowerHex => {
            assert(digits =~= numeral(n, 16));
        },
        UintSpelling::UpperHex => {
            lemma_upper_digits(numeral(n, 16), 16);
            assert(digits =~= upper_numeral(n, 16));
        },
        UintSpelling::Octal => {
            lemma_leading_zero(numeral(n, 8), 8);
            assert(text[1] == numeral(n, 8)[0]);
        },
    }
    assert(digits.len() > 0);
    assert(all_digits(digits, radix));
    assert(digits_value(digits, radix) == n);
    assert(digit_value(digits[0]) is Some);
    assert(digit_value(digits.last()) is Some);
    assert(digits.last() == text.last());
    assert(linux_radix(text) == radix);
    assert(parse_unsigned(digits, radix, u32::MAX as nat) == Some(n));
    let signed = dressed_uint(text, plus, false);
    assert((if signed.len() > 0 && signed[0] == '+' {
        signed.skip(1)
    } else {
        signed
    }) =~= text);
    let value = dressed_uint(text, plus, quoted);
    assert(signed.last() == text.last());
    if quoted {
        assert(value.subrange(1, value.len() - 1) =~= signed);
    }
    assert(unquoted(value) == Some(signed));
}

/// The name of a command-line token: what stands before its first `=`.
pub open spec fn parameter_name(token: Seq<char>) -> Seq<char> {
    match split_at_first(token, '=') {
        Some((name, _)) => name,
        None => token,
    }
}

/// The token names the early TSC frequency parameter.
pub open spec fn names_tsc(token: Seq<char>) -> bool {
    same_parameter_name(parameter_name(token), "tsc_early_khz"@)
}

/// The TSC parameters among the kernel's own tokens: those before `--`.
pub open spec fn tsc_parameters(ts: Seq<(int, Seq<char>)>) -> Seq<Seq<char>>
    decreases ts.len(),
{
    if ts.len() == 0 || ts[0].1 == "--"@ {
        Seq::empty()
    } else if names_tsc(ts[0].1) {
        seq![ts[0].1] + tsc_parameters(ts.skip(1))
    } else {
        tsc_parameters(ts.skip(1))
    }
}

/// The offset of the first `--` token, after which arguments are for init.
pub open spec fn delimiter(ts: Seq<(int, Seq<char>)>) -> Option<int>
    decreases ts.len(),
{
    if ts.len() == 0 {
        None
    } else if ts[0].1 == "--"@ {
        Some(ts[0].0)
    } else {
        delimiter(ts.skip(1))
    }
}

/// The value of a parameter token, where it spells an integer.
pub open spec fn parameter_value(token: Seq<char>) -> Option<nat> {
    match split_at_first(token, '=') {
        Some((_, value)) => linux_uint(value),
        None => None,
    }
}

/// The parameter generated for a frequency.
pub open spec fn tsc_parameter(khz: nat) -> Seq<char> {
    "tsc_early_khz="@ + decimal(khz)
}

/// Why the frequency cannot be propagated, if it cannot.
pub open spec fn tsc_failure(cmdline: Seq<char>, hz: nat) -> Option<TscFailure> {
    let khz = hz / HZ_PER_KHZ as nat;
    let supplied = tsc_parameters(tokens(cmdline));
    if hz < HZ_PER_KHZ {
        Some(TscFailure::TooSmall(hz))
    } else if hz < MIN_TSC_FREQUENCY_HZ || hz > MAX_TSC_FREQUENCY_HZ {
        Some(TscFailure::OutOfRange(hz))
    } else if supplied.len() == 0 {
        None
    } else if supplied.len() > 1 {
        Some(TscFailure::Duplicate)
    } else {
        match parameter_value(supplied[0]) {
            None => Some(TscFailure::Malformed(supplied[0])),
            Some(value) => if value == khz {
                None
            } else {
                Some(TscFailure::Mismatch { specified: value, reported: khz })
            },
        }
    }
}

/// The command line with the frequency on it.
pub open spec fn tsc_command_line(cmdline: Seq<char>, hz: nat) -> Seq<char> {
    let parameter = tsc_parameter(hz / HZ_PER_KHZ as nat);
    let ts = tokens(cmdline);
    if tsc_parameters(ts).len() > 0 {
        cmdline
    } else {
        match delimiter(ts) {
            Some(offset) => cmdline.take(offset) + parameter + seq![' '] + cmdline.skip(offset),
            None => if cmdline.len() == 0 || is_space(cmdline.last()) {
                cmdline + parameter
            } else {
                cmdline + seq![' '] + parameter
            },
        }
    }
}

/// A text has one place at each offset in bytes.
proof fn lemma_same_split(s: Seq<char>, head: Seq<char>, tail: Seq<char>, at: int)
    requires
        s == head + tail,
        0 <= at <= s.len(),
        byte_len(head) == byte_len(s.take(at)),
    ensures
        head == s.take(at),
        tail == s.skip(at),
{
    let k = head.len() as int;
    assert(s.take(k) =~= head);
    if k < at {
        lemma_bytes_part(s, k, at);
        lemma_nonempty_bytes(s.subrange(k, at));
    } else if at < k {
        lemma_bytes_part(s, at, k);
        lemma_nonempty_bytes(s.subrange(at, k));
    }
    assert(tail =~= s.skip(at));
}

proof fn lemma_nonempty_bytes(s: Seq<char>)
    requires
        s.len() > 0,
    ensures
        byte_len(s) > 0,
{
    crate::text::lemma_bytes_char(s[0]);
}

/// Puts the reported frequency on the kernel command line, or holds the
/// parameter that is already there against it. On an error the command line is
/// left as it was.
pub fn propagate_tsc_frequency(cmdline: &mut String, frequency_hz: u64) -> (r: Result<
    (),
    TscFrequencyError,
>)
    ensures
        match r {
            Ok(()) => tsc_failure(old(cmdline)@, frequency_hz as nat) is None && final(cmdline)@
                == tsc_command_line(old(cmdline)@, frequency_hz as nat),
            Err(e) => tsc_failure(old(cmdline)@, frequency_hz as nat) == Some(e@)
                && final(cmdline)@ == old(cmdline)@,
        },
{
    if frequency_hz < HZ_PER_KHZ {
        return Err(TscFrequencyError::TooSmall(frequency_hz));
    }
    if frequency_hz < MIN_TSC_FREQUENCY_HZ || frequency_hz > MAX_TSC_FREQUENCY_HZ {
        return Err(TscFrequencyError::OutOfRange(frequency_hz));
    }
    let frequency_khz: u64 = frequency_hz / HZ_PER_KHZ;
    let list = command_line_tokens(cmdline.as_str());
    let ghost ts = tokens(cmdline@);
    let mut parameter: Option<String> = None;
    let mut delimiter_offset: Option<usize> = None;
    let mut i: usize = 0;
    assert(ts.skip(0) =~= ts);
    assert(token_views(list@).len() == list@.len());
    assert(byte_tokens(cmdline@).len() == ts.len());
    assert(tsc_parameters(ts) =~= Seq::empty() + tsc_parameters(ts.skip(0)));
    while i < list.len()
        invariant_except_break
            delimiter_offset is None,
        invariant
            i <= list@.len(),
            token_views(list@) == byte_tokens(cmdline@),
            ts == tokens(cmdline@),
            ts.len() == list@.len(),
            cmdline@ == old(cmdline)@,
            HZ_PER_KHZ <= frequency_hz,
            MIN_TSC_FREQUENCY_HZ <= frequency_hz <= MAX_TSC_FREQUENCY_HZ,
            delimiter(ts) == delimiter(ts.skip(i as int)),
            tsc_parameters(ts) == (match parameter {
                Some(p) => seq![p@],
                None => Seq::empty(),
            }) + tsc_parameters(ts.skip(i as int)),
        ensures
            i <= list@.len(),
            delimiter_offset is Some == delimiter(ts) is Some,
            delimiter_offset is Some ==> delimiter_offset->0 == byte_len(
                cmdline@.take(delimiter(ts)->0),
            ),
            delimiter_offset is Some ==> i < ts.len() && delimiter(ts)->0 == ts[i as int].0,
            tsc_parameters(ts) == (match parameter {
                Some(p) => seq![p@],
                None => Seq::empty(),
            }),
        decreases list@.len() - i,
    {
        let token = &list[i].1;
        proof {
            assert(byte_tokens(cmdline@)[i as int] == (list@[i as int].0 as int, token@));
            assert(ts[i as int].1 == token@);
            assert(ts.skip(i as int)[0] == ts[i as int]);
            assert(ts.skip(i as int).skip(1) =~= ts.skip(i + 1));
        }
        if same_text(token.as_str(), "--") {
            delimiter_offset = Some(list[i].0);
            proof {
                assert(tsc_parameters(ts) =~= match parameter {
                    Some(p) => seq![p@],
                    None => Seq::empty(),
                });
            }
            break;
        }
        let named: bool = match split_once(token.as_str(), '=') {
            Some((name, _value)) => linux_parameter_name_matches(name.as_str(), "tsc_early_khz"),
            None => linux_parameter_name_matches(token.as_str(), "tsc_early_khz"),
        };
        if named {
            if parameter.is_some() {
                return Err(TscFrequencyError::Duplicate);
            }
            parameter = Some(token.clone());
            proof {
                assert(Seq::empty() + (seq![token@] + tsc_parameters(ts.skip(i + 1)))
                    =~= seq![token@] + tsc_parameters(ts.skip(i + 1)));
            }
        }
        i += 1;
    }
    match parameter {
        Some(parameter) => {
            let specified: u64 = match split_once(parameter.as_str(), '=') {
                Some((_name, value)) => match parse_linux_uint(value.as_str()) {
                    Some(v) => v as u64,
                    None => {
                        return Err(TscFrequencyError::Malformed(parameter));
                    },
                },
                None => {
                    return Err(TscFrequencyError::Malformed(parameter));
                },
            };
            if specified != frequency_khz {
                return Err(
                    TscFrequencyError::Mismatch { specified, reported: frequency_khz },
                );
            }
            Ok(())
        },
        None => {
            let mut generated = String::new();
            push_text(&mut generated, "tsc_early_khz=");
            push_decimal(&mut generated, frequency_khz as u128);
            assert(generated@ =~= tsc_parameter(frequency_khz as nat));
            match delimiter_offset {
                Some(offset) => {
                    proof {
                        lemma_tokens_are_words(cmdline@, 0);
                        assert(ts[i as int].0 <= cmdline@.len());
                    }
                    let (mut line, tail) = split_at_byte(cmdline.as_str(), offset);
                    proof {
                        lemma_same_split(cmdline@, line@, tail@, delimiter(ts)->0);
                    }
                    push_text(&mut line, generated.as_str());
                    line.push(' ');
                    push_text(&mut line, tail.as_str());
                    assert(line@ =~= tsc_command_line(cmdline@, frequency_hz as nat));
                    *cmdline = line;
                    Ok(())
                },
                None => {
                    let chars = chars_of(cmdline.as_str());
                    if chars.len() > 0 && !char_is_space(chars[chars.len() - 1]) {
                        cmdline.push(' ');
                    }
                    push_text(cmdline, generated.as_str());
                    assert(cmdline@ =~= tsc_command_line(old(cmdline)@, frequency_hz as nat));
                    Ok(())
                },
            }
        },
    }
}

/// The number of tokens that belong to the kernel: those before `--`.
pub open spec fn kernel_token_count(ts: Seq<(int, Seq<char>)>) -> int
    decreases ts.len(),
{
    if ts.len() == 0 || ts[0].1 == "--"@ {
        0
    } else {
        1 + kernel_token_count(ts.skip(1))
    }
}

proof fn lemma_kernel_token_count(ts: Seq<(int, Seq<char>)>)
    ensures
        0 <= kernel_token_count(ts) <= ts.len(),
        forall|j: int| 0 <= j < kernel_token_count(ts) ==> (#[trigger] ts[j]).1 != "--"@,
        delimiter(ts) is Some <==> kernel_token_count(ts) < ts.len(),
        delimiter(ts) is Some ==> ts[kernel_token_count(ts)] == (delimiter(ts)->0, "--"@),
    decreases ts.len(),
{
    if ts.len() > 0 && ts[0].1 != "--"@ {
        let rest = ts.skip(1);
        lemma_kernel_token_count(rest);
        assert forall|j: int| 0 <= j < kernel_token_count(ts) implies (#[trigger] ts[j]).1
            != "--"@ by {
            if j > 0 {
                assert(ts[j] == rest[j - 1]);
            }
        }
        if kernel_token_count(ts) < ts.len() {
            assert(ts[kernel_token_count(ts)] == rest[kernel_token_count(rest)]);
        }
    }
}

/// Tokens without a delimiter in front of others add their own parameters.
proof fn lemma_parameters_concat(a: Seq<(int, Seq<char>)>, b: Seq<(int, Seq<char>)>)
    requires
        forall|j: int| 0 <= j < a.len() ==> (#[trigger] a[j]).1 != "--"@,
    ensures
        tsc_parameters(a + b) == tsc_parameters(a) + tsc_parameters(b),
        kernel_token_count(a + b) == a.len() + kernel_token_count(b),
    decreases a.len(),
{
    if a.len() == 0 {
        assert(a + b =~= b);
        assert(tsc_parameters(a) + tsc_parameters(b) =~= tsc_parameters(b));
    } else {
        assert((a + b)[0] == a[0]);
        assert((a + b).skip(1) =~= a.skip(1) + b);
        assert forall|j: int| 0 <= j < a.skip(1).len() implies (#[trigger] a.skip(1)[j]).1
            != "--"@ by {
            assert(a.skip(1)[j] == a[j + 1]);
        }
        lemma_parameters_concat(a.skip(1), b);
        assert(tsc_parameters(a + b) =~= tsc_parameters(a) + tsc_parameters(b));
    }
}

/// The generated parameter is one token, names the frequency, and spells it.
proof fn lemma_tsc_parameter(khz: nat)
    requires
        0 < khz <= u32::MAX,
    ensures
        is_word(tsc_parameter(khz)),
        tsc_parameter(khz) != "--"@,
        names_tsc(tsc_parameter(khz)),
        parameter_value(tsc_parameter(khz)) == Some(khz),
{
    reveal_strlit("--");
    reveal_strlit("tsc_early_khz=");
    reveal_strlit("tsc_early_khz");
    let p = tsc_parameter(khz);
    let digits = decimal(khz);
    lemma_numeral(khz, 10);
    lemma_numeral_plain(khz, 10);
    assert forall|i: int| 0 <= i < p.len() implies !is_space(#[trigger] p[i]) by {
        if i >= 14 {
            assert(p[i] == digits[i - 14]);
        }
    }
    assert(p[13] == '=');
    assert(p.contains('='));
    p.index_of_first_ensures('=');
    let at = p.index_of_first('=')->0;
    assert(at == 13) by {
        if at > 13 {
            assert(p[13] != '=');
        }
    }
    assert(p.take(13) =~= "tsc_early_khz"@);
    assert(p.skip(14) =~= digits);
    assert(digits.contains(digits[0]));
    assert(digits.contains(digits.last()));
    law_numeral_reads_back(khz, 10, u32::MAX as nat);
}

/// A delimiter splits the command line into the kernel's tokens and the rest.
proof fn lemma_delimiter_split(cmdline: Seq<char>, o: int)
    requires
        delimiter(tokens(cmdline)) == Some(o),
    ensures
        0 <= o <= cmdline.len(),
        o == 0 || is_space(cmdline[o - 1]),
        tokens(cmdline) == tokens(cmdline.take(o)) + tokens_at(cmdline.skip(o), o),
        tokens(cmdline.take(o)).len() == kernel_token_count(tokens(cmdline)),
        tokens_at(cmdline.skip(o), o).len() > 0,
        tokens_at(cmdline.skip(o), o)[0].1 == "--"@,
{
    let ts = tokens(cmdline);
    let k = kernel_token_count(ts);
    lemma_kernel_token_count(ts);
    lemma_tokens_are_words(cmdline, 0);
    let head = cmdline.take(o);
    let tail = cmdline.skip(o);
    assert(ts[k] == (o, "--"@));
    assert(is_word(ts[k].1));
    assert(cmdline.subrange(o, o + ts[k].1.len())[0] == ts[k].1[0]);
    assert(!is_space(cmdline[o]));
    assert(cmdline =~= head + tail);
    assert(o == 0 || is_space(head.last()));
    lemma_tokens_concat(head, tail, 0);
    let a = tokens(head);
    let b = tokens_at(tail, o);
    assert(ts == a + b);
    lemma_tokens_are_words(head, 0);
    lemma_word_len(tail);
    let n = word_len(tail);
    lemma_tokens_are_words(tail.skip(n), o + n);
    let later = tokens_at(tail.skip(n), o + n);
    assert(b == seq![(o, tail.take(n))] + later);
    if k < a.len() {
        assert(ts[k] == a[k]);
        assert(false);
    } else if k > a.len() {
        assert(ts[k] == b[k - a.len()]);
        assert(b[k - a.len()] == later[k - a.len() - 1]);
        assert(false);
    }
    assert(b[0] == ts[k]);
}

/// Placing a word and a blank between two texts places one token.
proof fn lemma_insert_word(head: Seq<char>, p: Seq<char>, tail: Seq<char>)
    requires
        is_word(p),
        head.len() == 0 || is_space(head.last()),
    ensures
        tokens(head + p + seq![' '] + tail) == tokens(head) + (seq![(head.len() as int, p)]
            + tokens_at(tail, head.len() as int + p.len() + 1)),
{
    let at_p = head.len() as int;
    let at_blank = at_p + p.len();
    assert(head + p + seq![' '] + tail =~= head + (p + (seq![' '] + tail)));
    lemma_tokens_concat(head, p + (seq![' '] + tail), 0);
    lemma_tokens_concat(p, seq![' '] + tail, at_p);
    lemma_tokens_concat(seq![' '], tail, at_blank);
    lemma_tokens_word(p, at_p);
    lemma_tokens_space(' ', at_blank);
    let moved = tokens_at(tail, at_blank + 1);
    assert(Seq::<(int, Seq<char>)>::empty() + moved =~= moved);
}

/// One parameter token alone, seen by the kernel.
proof fn lemma_single_parameter(at: int, p: Seq<char>)
    requires
        names_tsc(p),
        p != "--"@,
    ensures
        tsc_parameters(seq![(at, p)]) == seq![p],
{
    let one = seq![(at, p)];
    assert(one.skip(1).len() == 0);
    assert(tsc_parameters(one.skip(1)) =~= Seq::empty());
    assert(tsc_parameters(one) =~= seq![p]);
}

/// What propagation does to the tokens when none names the frequency: the
/// generated parameter becomes the last of the kernel's own tokens.
proof fn lemma_propagated_tokens(cmdline: Seq<char>, hz: nat)
    requires
        MIN_TSC_FREQUENCY_HZ <= hz <= MAX_TSC_FREQUENCY_HZ,
        tsc_parameters(tokens(cmdline)).len() == 0,
    ensures
        ({
            let after = tsc_command_line(cmdline, hz);
            let p = tsc_parameter(hz / HZ_PER_KHZ as nat);
            let k = kernel_token_count(tokens(cmdline));
            &&& tsc_parameters(tokens(after)) == seq![p]
            &&& 0 <= k <= words(cmdline).len()
            &&& words(after) == words(cmdline).insert(k, p)
        }),
{
    let after = tsc_command_line(cmdline, hz);
    let p = tsc_parameter(hz / HZ_PER_KHZ as nat);
    lemma_tsc_parameter(hz / HZ_PER_KHZ as nat);
    let ts = tokens(cmdline);
    let k = kernel_token_count(ts);
    lemma_kernel_token_count(ts);
    match delimiter(ts) {
        Some(o) => {
            lemma_delimiter_split(cmdline, o);
            let head = cmdline.take(o);
            let tail = cmdline.skip(o);
            let a = tokens(head);
            let b = tokens_at(tail, o);
            assert forall|j: int| 0 <= j < a.len() implies (#[trigger] a[j]).1 != "--"@ by {
                assert(a[j] == ts[j]);
            }
            lemma_parameters_concat(a, b);
            assert(tsc_parameters(a) =~= Seq::empty());
            let at_tail = o + p.len() + 1;
            lemma_insert_word(head, p, tail);
            lemma_tokens_shift(tail, o, at_tail - o);
            let moved = tokens_at(tail, at_tail);
            assert(moved[0] == (b[0].0 + (at_tail - o), b[0].1));
            let one = seq![(o, p)];
            assert(tokens(after) == a + (one + moved));
            lemma_parameters_concat(a, one + moved);
            lemma_parameters_concat(one, moved);
            lemma_single_parameter(o, p);
            assert(tsc_parameters(moved) =~= Seq::empty());
            assert(tsc_parameters(tokens(after)) =~= seq![p]);
            assert(words(after).len() == words(cmdline).insert(k, p).len());
            assert forall|i: int| 0 <= i < words(after).len() implies #[trigger] words(after)[i]
                == words(cmdline).insert(k, p)[i] by {
                if i < k {
                    assert(tokens(after)[i] == a[i]);
                    assert(ts[i] == a[i]);
                } else if i > k {
                    assert(tokens(after)[i] == moved[i - k - 1]);
                    assert(ts[i - 1] == b[i - 1 - k]);
                    assert(moved[i - 1 - k] == (b[i - 1 - k].0 + (at_tail - o), b[i - 1 - k].1));
                } else {
                    assert(tokens(after)[i] == (o, p));
                }
            }
            assert(words(after) =~= words(cmdline).insert(k, p));
        },
        None => {
            let blank = if cmdline.len() == 0 || is_space(cmdline.last()) {
                Seq::<char>::empty()
            } else {
                seq![' ']
            };
            let at_blank = cmdline.len() as int;
            let at_p = at_blank + blank.len();
            assert(after =~= cmdline + (blank + p));
            lemma_tokens_concat(cmdline, blank + p, 0);
            lemma_tokens_concat(blank, p, at_blank);
            lemma_tokens_word(p, at_p);
            if blank.len() > 0 {
                lemma_tokens_space(' ', at_blank);
            }
            assert(tokens_at(blank, at_blank) =~= Seq::empty());
            let added = seq![(at_p, p)];
            assert(tokens(after) =~= ts + added);
            lemma_parameters_concat(ts, added);
            lemma_single_parameter(at_p, p);
            assert(tsc_parameters(tokens(after)) =~= seq![p]);
            assert(words(after) =~= words(cmdline).insert(k, p));
        },
    }
}

/// Propagation adds at most one token and changes no other: either the command
/// line is untouched, or the generated parameter joins as the last of the
/// kernel's own tokens.
pub proof fn law_propagation_keeps_tokens(cmdline: Seq<char>, hz: nat)
    requires
        tsc_failure(cmdline, hz) is None,
    ensures
        tsc_parameters(tokens(cmdline)).len() > 0 ==> tsc_command_line(cmdline, hz) == cmdline,
        tsc_parameters(tokens(cmdline)).len() == 0 ==> words(tsc_command_line(cmdline, hz))
            == words(cmdline).insert(
            kernel_token_count(tokens(cmdline)),
            tsc_parameter(hz / HZ_PER_KHZ as nat),
        ),
{
    if tsc_parameters(tokens(cmdline)).len() == 0 {
        lemma_propagated_tokens(cmdline, hz);
    }
}

/// Propagation is stable: propagating the same frequency again succeeds and
/// leaves the command line as it is.
pub proof fn law_propagation_is_stable(cmdline: Seq<char>, hz: nat)
    requires
        tsc_failure(cmdline, hz) is None,
    ensures
        tsc_failure(tsc_command_line(cmdline, hz), hz) is None,
        tsc_command_line(tsc_command_line(cmdline, hz), hz) == tsc_command_line(cmdline, hz),
{
    if tsc_parameters(tokens(cmdline)).len() == 0 {
        lemma_propagated_tokens(cmdline, hz);
        lemma_tsc_parameter(hz / HZ_PER_KHZ as nat);
    }
}

/// After propagation the kernel sees exactly one frequency parameter, and it
/// spells the reported frequency in kHz.
pub proof fn law_propagated_frequency_is_unique(cmdline: Seq<char>, hz: nat)
    requires
        tsc_failure(cmdline, hz) is None,
    ensures
        ({
            let supplied = tsc_parameters(tokens(tsc_command_line(cmdline, hz)));
            supplied.len() == 1 && parameter_value(supplied[0]) == Some(hz / HZ_PER_KHZ as nat)
        }),
{
    if tsc_parameters(tokens(cmdline)).len() == 0 {
        lemma_propagated_tokens(cmdline, hz);
        lemma_tsc_parameter(hz / HZ_PER_KHZ as nat);
    }
}

} // verus!
