use crate::text::{chars_of, string_of};
use vstd::prelude::*;
use vstd::slice::slice_subrange;

verus! {

/// Whether `c` is one of the ten decimal digits.
pub open spec fn is_digit(c: char) -> bool {
    0x30 <= c as u32 <= 0x39
}

/// The number that the decimal digit `c` stands for.
pub open spec fn digit_value(c: char) -> nat {
    (c as u32 - 0x30) as nat
}

/// Whether every character of `s` is a decimal digit.
pub open spec fn all_digits(s: Seq<char>) -> bool {
    forall|i: int| 0 <= i < s.len() ==> is_digit(#[trigger] s[i])
}

/// The number that the digits of `s` write in base ten.
pub open spec fn decimal_value(s: Seq<char>) -> nat
    decreases s.len(),
{
    if s.len() == 0 {
        0
    } else {
        decimal_value(s.drop_last()) * 10 + digit_value(s.last())
    }
}

/// `s` without its leading sign, where it begins with `+` or, if `minus`
/// allows it, with `-`.
pub open spec fn without_sign(s: Seq<char>, minus: bool) -> Seq<char> {
    if s.len() > 0 && (s[0] == '+' || (minus && s[0] == '-')) {
        s.subrange(1, s.len() as int)
    } else {
        s
    }
}

/// The number that `s` writes, where `s` is an optional `+` and then one or
/// more decimal digits, and the number is at most `max`.
pub open spec fn unsigned(s: Seq<char>, max: nat) -> Option<nat> {
    let digits = without_sign(s, false);
    if digits.len() > 0 && all_digits(digits) && decimal_value(digits) <= max {
        Some(decimal_value(digits))
    } else {
        None
    }
}

/// The number that `s` writes, where `s` is an optional `+` or `-` and then
/// one or more decimal digits, and the number lies between `min` and `max`.
pub open spec fn signed(s: Seq<char>, min: int, max: int) -> Option<int> {
    let digits = without_sign(s, true);
    let v = if s.len() > 0 && s[0] == '-' {
        -(decimal_value(digits) as int)
    } else {
        decimal_value(digits) as int
    };
    if digits.len() > 0 && all_digits(digits) && min <= v <= max {
        Some(v)
    } else {
        None
    }
}

/// The unsigned 32-bit number that `s` writes.
pub open spec fn u32_of(s: Seq<char>) -> Option<u32> {
    match unsigned(s, 0xFFFF_FFFF) {
        Some(v) => Some(v as u32),
        None => None,
    }
}

/// The unsigned 8-bit number that `s` writes.
pub open spec fn u8_of(s: Seq<char>) -> Option<u8> {
    match unsigned(s, 0xFF) {
        Some(v) => Some(v as u8),
        None => None,
    }
}

/// The signed 32-bit number that `s` writes.
pub open spec fn i32_of(s: Seq<char>) -> Option<i32> {
    match signed(s, -0x8000_0000, 0x7FFF_FFFF) {
        Some(v) => Some(v as i32),
        None => None,
    }
}

/// A digit string is worth at least as much as each of its prefixes.
pub proof fn lemma_decimal_value_prefix(s: Seq<char>, k: int)
    requires
        0 <= k <= s.len(),
    ensures
        decimal_value(s.subrange(0, k)) <= decimal_value(s),
    decreases s.len(),
{
    if k == s.len() {
        assert(s.subrange(0, k) =~= s);
    } else {
        lemma_decimal_value_prefix(s.drop_last(), k);
        assert(s.drop_last().subrange(0, k) =~= s.subrange(0, k));
    }
}

/// Decides `is_digit`.
pub fn is_ascii_digit(c: char) -> (b: bool)
    ensures
        b == is_digit(c),
{
    let n: u32 = c as u32;
    0x30 <= n && n <= 0x39
}

/// Reads the digits of `s` from `from` to its end as a number of at most
/// `max`.
fn parse_digits(s: &[char], from: usize, max: u64) -> (r: Option<u64>)
    requires
        from <= s@.len(),
        max <= 0x1_0000_0000,
    ensures
        ({
            let digits = s@.subrange(from as int, s@.len() as int);
            match r {
                Some(v) => digits.len() > 0 && all_digits(digits) && decimal_value(digits) == v
                    && v <= max,
                None => !(digits.len() > 0 && all_digits(digits) && decimal_value(digits) <= max),
            }
        }),
{
    let n = s.len();
    let ghost digits = s@.subrange(from as int, n as int);
    if from == n {
        return None;
    }
    let mut acc: u64 = 0;
    let mut i: usize = from;
    while i < n
        invariant
            from <= i <= n == s@.len(),
            digits == s@.subrange(from as int, n as int),
            all_digits(digits.subrange(0, i - from)),
            acc == decimal_value(digits.subrange(0, i - from)),
            acc <= max <= 0x1_0000_0000,
        decreases n - i,
    {
        let c = s[i];
        assert(digits[i - from] == c);
        if !is_ascii_digit(c) {
            return None;
        }
        let d: u64 = (c as u32 - 0x30) as u64;
        let next: u64 = acc * 10 + d;
        proof {
            let longer = digits.subrange(0, i - from + 1);
            assert(longer.drop_last() =~= digits.subrange(0, i - from));
            assert(all_digits(longer)) by {
                assert forall|k: int| 0 <= k < longer.len() implies is_digit(
                    #[trigger] longer[k],
                ) by {}
            }
            if next > max {
                lemma_decimal_value_prefix(digits, i - from + 1);
            }
        }
        if next > max {
            return None;
        }
        acc = next;
        i += 1;
    }
    assert(digits.subrange(0, n - from) =~= digits);
    Some(acc)
}

/// Reads an unsigned 32-bit number.
pub fn parse_u32(s: &[char]) -> (r: Option<u32>)
    ensures
        r == u32_of(s@),
{
    let from: usize = if s.len() > 0 && s[0] == '+' {
        1
    } else {
        0
    };
    assert(s@.subrange(0, s@.len() as int) =~= s@);
    match parse_digits(s, from, 0xFFFF_FFFF) {
        Some(v) => Some(v as u32),
        None => None,
    }
}

/// Reads an unsigned 8-bit number.
pub fn parse_u8(s: &[char]) -> (r: Option<u8>)
    ensures
        r == u8_of(s@),
{
    let from: usize = if s.len() > 0 && s[0] == '+' {
        1
    } else {
        0
    };
    assert(s@.subrange(0, s@.len() as int) =~= s@);
    match parse_digits(s, from, 0xFF) {
        Some(v) => Some(v as u8),
        None => None,
    }
}

/// Reads a signed 32-bit number.
pub fn parse_i32(s: &[char]) -> (r: Option<i32>)
    ensures
        r == i32_of(s@),
{
    let negative = s.len() > 0 && s[0] == '-';
    let from: usize = if s.len() > 0 && (s[0] == '+' || s[0] == '-') {
        1
    } else {
        0
    };
    assert(s@.subrange(0, s@.len() as int) =~= s@);
    let max: u64 = if negative {
        0x8000_0000
    } else {
        0x7FFF_FFFF
    };
    match parse_digits(s, from, max) {
        Some(v) => {
            if negative {
                Some((0 - (v as i64)) as i32)
            } else {
                Some(v as i32)
            }
        },
        None => None,
    }
}

/// The end of the longest run of decimal digits of `s` that begins at `from`.
pub open spec fn digits_end(s: Seq<char>, from: int) -> int
    decreases s.len() - from,
{
    if 0 <= from < s.len() && is_digit(s[from]) {
        digits_end(s, from + 1)
    } else {
        from
    }
}

/// Whether `s` from `at` to its end is an exponent: `e` or `E`, an optional
/// sign, and one or more digits.
pub open spec fn is_exponent(s: Seq<char>, at: int) -> bool {
    let digits = if at + 1 < s.len() && (s[at + 1] == '+' || s[at + 1] == '-') {
        at + 2
    } else {
        at + 1
    };
    &&& 0 <= at < s.len()
    &&& s[at] == 'e' || s[at] == 'E'
    &&& digits < s.len()
    &&& digits_end(s, digits) == s.len()
}

/// Whether `s` from `at` to its end is a decimal number: digits with an
/// optional point among them or at either end, at least one digit in all,
/// and an optional exponent.
pub open spec fn is_number(s: Seq<char>, at: int) -> bool {
    let point = digits_end(s, at);
    let mantissa_end = if point < s.len() && s[point] == '.' {
        digits_end(s, point + 1)
    } else {
        point
    };
    let digit_count = if point < s.len() && s[point] == '.' {
        mantissa_end - at - 1
    } else {
        mantissa_end - at
    };
    &&& 0 <= at
    &&& digit_count >= 1
    &&& mantissa_end == s.len() || is_exponent(s, mantissa_end)
}

/// The code of `c`, or of its lower-case form where `c` is an upper-case
/// ASCII letter.
pub open spec fn lower(c: char) -> u32 {
    if 0x41 <= c as u32 <= 0x5A {
        (c as u32 + 0x20) as u32
    } else {
        c as u32
    }
}

/// Whether `s` reads the lower-case word `word`, in either case of each
/// letter.
pub open spec fn reads_word(s: Seq<char>, word: Seq<char>) -> bool {
    s.len() == word.len() && forall|i: int| 0 <= i < s.len() ==> lower(s[i]) == word[i] as u32
}

/// Whether `s` reads `inf` or `infinity`.
pub open spec fn is_infinity(s: Seq<char>) -> bool {
    reads_word(s, "inf"@) || reads_word(s, "infinity"@)
}

/// Whether `s` reads `nan`.
pub open spec fn is_nan(s: Seq<char>) -> bool {
    reads_word(s, "nan"@)
}

/// The length of the sign that `s` begins with: 1 or 0.
pub open spec fn sign_len(s: Seq<char>) -> int {
    if s.len() > 0 && (s[0] == '+' || s[0] == '-') {
        1
    } else {
        0
    }
}

/// Whether `s` writes a floating-point number: an optional sign, and then a
/// decimal number or one of the words `inf`, `infinity` and `nan`.
pub open spec fn is_float(s: Seq<char>) -> bool {
    let body = s.subrange(sign_len(s), s.len() as int);
    is_number(s, sign_len(s)) || is_infinity(body) || is_nan(body)
}

/// Whether `s` writes a floating-point number without a minus sign that is
/// not `nan`: one that is not below zero.
pub open spec fn is_unsigned_float(s: Seq<char>) -> bool {
    let body = s.subrange(sign_len(s), s.len() as int);
    !(s.len() > 0 && s[0] == '-') && (is_number(s, sign_len(s)) || is_infinity(body))
}

/// Skips the digits of `s` from `from` on.
fn skip_digits(s: &[char], from: usize) -> (end: usize)
    requires
        from <= s@.len(),
    ensures
        end == digits_end(s@, from as int),
        from <= end <= s@.len(),
{
    let n = s.len();
    let mut i: usize = from;
    while i < n && is_ascii_digit(s[i])
        invariant
            from <= i <= n == s@.len(),
            digits_end(s@, from as int) == digits_end(s@, i as int),
        decreases n - i,
    {
        i += 1;
    }
    i
}

/// Decides `is_exponent`.
fn exponent_at(s: &[char], at: usize) -> (b: bool)
    requires
        at <= s@.len(),
    ensures
        b == is_exponent(s@, at as int),
{
    let n = s.len();
    if at >= n || !(s[at] == 'e' || s[at] == 'E') {
        return false;
    }
    let digits: usize = if at + 1 < n && (s[at + 1] == '+' || s[at + 1] == '-') {
        at + 2
    } else {
        at + 1
    };
    digits < n && skip_digits(s, digits) == n
}

/// Decides `is_number`.
fn number_at(s: &[char], at: usize) -> (b: bool)
    requires
        at <= s@.len(),
    ensures
        b == is_number(s@, at as int),
{
    let n = s.len();
    let point = skip_digits(s, at);
    let has_point = point < n && s[point] == '.';
    let mantissa_end = if has_point {
        skip_digits(s, point + 1)
    } else {
        point
    };
    let digit_count = if has_point {
        mantissa_end - at - 1
    } else {
        mantissa_end - at
    };
    digit_count >= 1 && (mantissa_end == n || exponent_at(s, mantissa_end))
}

/// Computes `lower`.
fn lower_code(c: char) -> (n: u32)
    ensures
        n == lower(c),
{
    let n: u32 = c as u32;
    if 0x41 <= n && n <= 0x5A {
        n + 0x20
    } else {
        n
    }
}

/// Decides `reads_word`.
fn reads(s: &[char], word: &str) -> (b: bool)
    ensures
        b == reads_word(s@, word@),
{
    let mut i: usize = 0;
    let mut same = true;
    for c in it: word.chars()
        invariant
            it.seq() == word@,
            same ==> i == it.index() && i <= s@.len() && forall|k: int|
                0 <= k < i ==> lower(s@[k]) == word@[k] as u32,
            !same ==> !reads_word(s@, word@),
    {
        if same {
            if i < s.len() && lower_code(s[i]) == c as u32 {
                i += 1;
            } else {
                same = false;
            }
        }
    }
    same && i == s.len()
}

/// Decides `is_float`.
pub fn is_float_text(s: &[char]) -> (b: bool)
    ensures
        b == is_float(s@),
{
    let at: usize = if s.len() > 0 && (s[0] == '+' || s[0] == '-') {
        1
    } else {
        0
    };
    let body = slice_subrange(s, at, s.len());
    number_at(s, at) || reads(body, "inf") || reads(body, "infinity") || reads(body, "nan")
}

/// Decides `is_unsigned_float`.
pub fn is_unsigned_float_text(s: &[char]) -> (b: bool)
    ensures
        b == is_unsigned_float(s@),
{
    if s.len() > 0 && s[0] == '-' {
        return false;
    }
    let at: usize = if s.len() > 0 && s[0] == '+' {
        1
    } else {
        0
    };
    let body = slice_subrange(s, at, s.len());
    number_at(s, at) || reads(body, "inf") || reads(body, "infinity")
}

/// The text of a floating-point number, kept as it was written: what it
/// holds always satisfies `is_float`.
#[derive(Debug, PartialEq)]
pub struct FloatLiteral {
    text: String,
}

impl View for FloatLiteral {
    type V = Seq<char>;

    closed spec fn view(&self) -> Seq<char> {
        self.text@
    }
}

impl FloatLiteral {
    #[verifier::type_invariant]
    spec fn well_formed(&self) -> bool {
        is_float(self.text@)
    }

    /// The literal with the text `s`, where `s` writes a floating-point
    /// number.
    pub fn from_chars(s: &[char]) -> (r: Option<FloatLiteral>)
        ensures
            match r {
                Some(f) => f@ == s@ && is_float(s@),
                None => !is_float(s@),
            },
    {
        if is_float_text(s) {
            Some(FloatLiteral { text: string_of(s) })
        } else {
            None
        }
    }

    /// The literal with the text `s`, where `s` writes a floating-point
    /// number.
    pub fn new(s: &str) -> (r: Option<FloatLiteral>)
        ensures
            match r {
                Some(f) => f@ == s@ && is_float(s@),
                None => !is_float(s@),
            },
    {
        let chars = chars_of(s);
        FloatLiteral::from_chars(chars.as_slice())
    }

    /// The literal with the text `s`, which writes a floating-point number.
    pub(crate) fn constant(s: &str) -> (f: FloatLiteral)
        requires
            is_float(s@),
        ensures
            f@ == s@,
    {
        FloatLiteral { text: s.to_owned() }
    }

    /// The text of the literal.
    pub fn as_str(&self) -> (s: &str)
        ensures
            s@ == self@,
            is_float(s@),
    {
        proof {
            use_type_invariant(self);
        }
        self.text.as_str()
    }

    /// Whether the literal begins with a minus sign.
    pub fn is_negative(&self) -> (b: bool)
        ensures
            b == (self@.len() > 0 && self@[0] == '-'),
    {
        let s = self.text.as_str();
        s.unicode_len() > 0 && s.get_char(0) == '-'
    }
}

} // verus!
