//! Reading the 16-bit identifiers that a user types in hexadecimal.

use vstd::prelude::*;

use crate::text::{digit, hex4, lemma_digits};

verus! {

/// Why a text is no 16-bit hexadecimal number.
#[derive(Debug, Clone, Copy, PartialEq, Eq, Structural)]
pub enum HexError {
    /// There is nothing to read.
    Empty,
    /// A character is no hexadecimal digit.
    InvalidDigit,
    /// The number does not fit 16 bits.
    Overflow,
}

impl HexError {
    /// The text of the error.
    pub open spec fn text(self) -> Seq<char> {
        match self {
            HexError::Empty => "cannot parse integer from empty string"@,
            HexError::InvalidDigit => "invalid digit found in string"@,
            HexError::Overflow => "number too large to fit in target type"@,
        }
    }

    /// The message to show.
    pub fn message(self) -> (message: String)
        ensures
            message@ == self.text(),
    {
        let text = match self {
            HexError::Empty => "cannot parse integer from empty string",
            HexError::InvalidDigit => "invalid digit found in string",
            HexError::Overflow => "number too large to fit in target type",
        };
        text.to_owned()
    }
}

/// `s` without the prefixes `0x` at its start, however many there are.
pub open spec fn strip_prefixes(s: Seq<char>) -> Seq<char>
    decreases s.len(),
{
    if s.len() >= 2 && s[0] == '0' && s[1] == 'x' {
        strip_prefixes(s.skip(2))
    } else {
        s
    }
}

/// The value of a hexadecimal digit of either case.
pub open spec fn digit_value(c: char) -> Option<int> {
    if '0' <= c <= '9' {
        Some(c as int - '0' as int)
    } else if 'a' <= c <= 'f' {
        Some(c as int - 'a' as int + 10)
    } else if 'A' <= c <= 'F' {
        Some(c as int - 'A' as int + 10)
    } else {
        None
    }
}

/// The number that a row of digits stands for, read from the left. What first
/// stops the reading is the error.
pub open spec fn digits_value(s: Seq<char>) -> Result<int, HexError>
    decreases s.len(),
{
    if s.len() == 0 {
        Ok(0)
    } else {
        match (digits_value(s.drop_last()), digit_value(s.last())) {
            (Err(e), _) => Err(e),
            (Ok(_), None) => Err(HexError::InvalidDigit),
            (Ok(high), Some(low)) => if high * 16 + low > u16::MAX {
                Err(HexError::Overflow)
            } else {
                Ok(high * 16 + low)
            },
        }
    }
}

/// The number that an unprefixed text stands for: digits, with a plus sign before
/// them or not.
pub open spec fn number_value(s: Seq<char>) -> Result<int, HexError> {
    if s.len() == 0 {
        Err(HexError::Empty)
    } else if s[0] == '+' && s.len() > 1 {
        digits_value(s.skip(1))
    } else {
        digits_value(s)
    }
}

/// The number that a user's text stands for.
pub open spec fn hex_value(s: Seq<char>) -> Result<int, HexError> {
    number_value(strip_prefixes(s))
}

fn read_digit(c: char) -> (value: Option<u32>)
    ensures
        match digit_value(c) {
            Some(v) => value == Some(v as u32) && 0 <= v < 16,
            None => value is None,
        },
{
    if '0' <= c && c <= '9' {
        Some(c as u32 - '0' as u32)
    } else if 'a' <= c && c <= 'f' {
        Some(c as u32 - 'a' as u32 + 10)
    } else if 'A' <= c && c <= 'F' {
        Some(c as u32 - 'A' as u32 + 10)
    } else {
        None
    }
}

/// Reads a 16-bit hexadecimal number, with any number of prefixes `0x`, an
/// optional plus sign, and digits of either case.
pub fn parse_hex_u16(s: &str) -> (number: Result<u16, String>)
    ensures
        match hex_value(s@) {
            Ok(v) => number is Ok && number->Ok_0 == v,
            Err(e) => number is Err && number->Err_0@ == e.text(),
        },
{
    let n: usize = s.unicode_len();
    let mut i: usize = 0;
    assert(s@.skip(0) =~= s@);
    while n - i >= 2 && s.get_char(i) == '0' && s.get_char(i + 1) == 'x'
        invariant
            n == s@.len(),
            i <= n,
            strip_prefixes(s@) == strip_prefixes(s@.skip(i as int)),
        decreases n - i,
    {
        assert(s@.skip(i as int).skip(2) =~= s@.skip(i + 2));
        i = i + 2;
    }
    let ghost rest = s@.skip(i as int);
    assert(strip_prefixes(s@) == rest);
    if i == n {
        return Err(HexError::Empty.message());
    }
    if s.get_char(i) == '+' && n - i > 1 {
        i = i + 1;
    }
    let ghost digits = s@.skip(i as int);
    assert(rest.skip(1) =~= s@.skip(i as int) || rest == digits);
    assert(hex_value(s@) == digits_value(digits));
    let start: usize = i;
    let mut value: u32 = 0;
    assert(digits.take(0) =~= Seq::<char>::empty());
    while i < n
        invariant
            n == s@.len(),
            start <= i <= n,
            digits == s@.skip(start as int),
            hex_value(s@) == digits_value(digits),
            digits_value(digits.take(i - start)) == Ok::<int, HexError>(value as int),
            value <= u16::MAX,
        decreases n - i,
    {
        let ghost next = digits.take(i - start + 1);
        assert(next.drop_last() =~= digits.take(i - start));
        assert(next.last() == s@[i as int]);
        let error = match read_digit(s.get_char(i)) {
            None => Some(HexError::InvalidDigit),
            Some(low) => {
                if value * 16 + low > u16::MAX as u32 {
                    Some(HexError::Overflow)
                } else {
                    value = value * 16 + low;
                    None
                }
            },
        };
        if let Some(error) = error {
            proof {
                lemma_first_error(digits, i - start + 1);
            }
            return Err(error.message());
        }
        i = i + 1;
    }
    assert(digits.take(n - start) =~= digits);
    Ok(value as u16)
}

/// What stops the reading of a part at the start stops the reading of the whole.
proof fn lemma_first_error(s: Seq<char>, n: int)
    requires
        0 <= n <= s.len(),
        digits_value(s.take(n)) is Err,
    ensures
        digits_value(s) == digits_value(s.take(n)),
    decreases s.len(),
{
    if n == s.len() {
        assert(s.take(n) =~= s);
    } else {
        assert(s.drop_last().take(n) =~= s.take(n));
        lemma_first_error(s.drop_last(), n);
    }
}

/// One more digit adds itself to sixteen times the number before it.
proof fn lemma_one_more_digit(s: Seq<char>, high: int, low: int)
    requires
        digits_value(s) == Ok::<int, HexError>(high),
        0 <= low < 16,
        high * 16 + low <= u16::MAX,
    ensures
        digits_value(s.push(digit(low))) == Ok::<int, HexError>(high * 16 + low),
{
    lemma_digits(low);
    assert(s.push(digit(low)).drop_last() =~= s);
}

/// An identifier reads back as itself from the four digits that a listing shows,
/// with the prefix `0x` before them or without it.
pub proof fn law_listed_identifier_reads_back(n: u16)
    ensures
        hex_value(hex4(n)) == Ok::<int, HexError>(n as int),
        hex_value("0x"@ + hex4(n)) == Ok::<int, HexError>(n as int),
{
    let (a, b, c, d) = (n as int / 4096, n as int / 256 % 16, n as int / 16 % 16, n as int % 16);
    lemma_digits(a);
    lemma_digits(b);
    let none = Seq::<char>::empty();
    assert(digits_value(none) == Ok::<int, HexError>(0));
    lemma_one_more_digit(none, 0, a);
    lemma_one_more_digit(none.push(digit(a)), a, b);
    lemma_one_more_digit(none.push(digit(a)).push(digit(b)), a * 16 + b, c);
    lemma_one_more_digit(
        none.push(digit(a)).push(digit(b)).push(digit(c)),
        (a * 16 + b) * 16 + c,
        d,
    );
    let s = hex4(n);
    assert(s =~= none.push(digit(a)).push(digit(b)).push(digit(c)).push(digit(d)));
    assert(strip_prefixes(s) == s);
    reveal_strlit("0x");
    assert(("0x"@ + s).skip(2) =~= s);
}

/// A hexadecimal digit of either case.
pub open spec fn is_hex_digit(c: char) -> bool {
    '0' <= c <= '9' || 'a' <= c <= 'f' || 'A' <= c <= 'F'
}

/// What a row of hexadecimal digits sums up to, each worth sixteen times the next.
pub open spec fn hex_sum(s: Seq<char>) -> int {
    s.fold_left(
        0int,
        |value: int, c: char|
            value * 16 + if c <= '9' {
                c as int - '0' as int
            } else if c <= 'F' {
                c as int - 'A' as int + 10
            } else {
                c as int - 'a' as int + 10
            },
    )
}

proof fn lemma_digits_sum(s: Seq<char>)
    requires
        forall|i: int| 0 <= i < s.len() ==> is_hex_digit(#[trigger] s[i]),
    ensures
        hex_sum(s) >= 0,
        digits_value(s) == if hex_sum(s) <= 65535 {
            Ok::<int, HexError>(hex_sum(s))
        } else {
            Err::<int, HexError>(HexError::Overflow)
        },
    decreases s.len(),
{
    reveal_with_fuel(Seq::fold_left, 2);
    if s.len() > 0 {
        assert(forall|i: int| 0 <= i < s.drop_last().len() ==> s.drop_last()[i] == s[i]);
        lemma_digits_sum(s.drop_last());
        assert(is_hex_digit(s[s.len() - 1]));
    }
}

/// A row of digits is read as the number that it sums up to, or refused as too large if that
/// number needs more than 16 bits.
pub proof fn law_digits_are_read_as_their_sum(s: Seq<char>)
    requires
        s.len() > 0,
        forall|i: int| 0 <= i < s.len() ==> is_hex_digit(#[trigger] s[i]),
    ensures
        hex_value(s) == if hex_sum(s) <= 65535 {
            Ok::<int, HexError>(hex_sum(s))
        } else {
            Err::<int, HexError>(HexError::Overflow)
        },
{
    assert(is_hex_digit(s[0]));
    assert(s.len() >= 2 ==> is_hex_digit(s[1]));
    lemma_digits_sum(s);
}

/// The text starts with the prefix `0x`.
pub open spec fn is_prefixed(s: Seq<char>) -> bool {
    s.len() >= 2 && s[0] == '0' && s[1] == 'x'
}

/// A character that is no digit makes the text no number, unless the digits before it are
/// already too large a number. This holds of any text that starts neither with a prefix nor
/// with a sign.
pub proof fn law_first_bad_character_is_refused(s: Seq<char>, i: int)
    requires
        !is_prefixed(s),
        0 <= i < s.len(),
        s[0] != '+' || s.len() == 1,
        forall|k: int| 0 <= k < i ==> is_hex_digit(#[trigger] s[k]),
        !is_hex_digit(s[i]),
    ensures
        hex_value(s) == Err::<int, HexError>(
            if hex_sum(s.take(i)) <= 65535 {
                HexError::InvalidDigit
            } else {
                HexError::Overflow
            },
        ),
{
    lemma_bad_character(s, i);
}

proof fn lemma_bad_character(s: Seq<char>, i: int)
    requires
        0 <= i < s.len(),
        forall|k: int| 0 <= k < i ==> is_hex_digit(#[trigger] s[k]),
        !is_hex_digit(s[i]),
    ensures
        digits_value(s) == Err::<int, HexError>(
            if hex_sum(s.take(i)) <= 65535 {
                HexError::InvalidDigit
            } else {
                HexError::Overflow
            },
        ),
{
    assert(forall|k: int| 0 <= k < s.take(i).len() ==> s.take(i)[k] == s[k]);
    lemma_digits_sum(s.take(i));
    assert(s.take(i + 1).drop_last() =~= s.take(i));
    assert(s.take(i + 1).last() == s[i]);
    lemma_first_error(s, i + 1);
}

/// No text is no number. A prefix changes nothing, and neither does a plus sign before a
/// text that has no sign or prefix of its own; before one that has, it is refused.
pub proof fn law_prefix_and_sign_change_nothing(s: Seq<char>)
    ensures
        hex_value(Seq::empty()) == Err::<int, HexError>(HexError::Empty),
        hex_value(seq!['0', 'x'] + s) == hex_value(s),
        s.len() > 0 && s[0] != '+' && !is_prefixed(s) ==> hex_value(seq!['+'] + s) == hex_value(s),
        s.len() > 0 && (s[0] == '+' || is_prefixed(s)) ==> hex_value(seq!['+'] + s) == Err::<
            int,
            HexError,
        >(HexError::InvalidDigit),
        hex_value(seq!['+']) == Err::<int, HexError>(HexError::InvalidDigit),
{
    assert((seq!['0', 'x'] + s).skip(2) =~= s);
    let signed = seq!['+'] + s;
    assert(signed.skip(1) =~= s);
    if s.len() > 0 {
        assert(strip_prefixes(signed) == signed);
        if s[0] == '+' {
            lemma_bad_character(s, 0);
            assert(s.take(0) =~= Seq::empty());
            assert(hex_sum(Seq::empty()) == 0) by {
                reveal_with_fuel(Seq::fold_left, 1);
            }
        } else if is_prefixed(s) {
            lemma_bad_character(s, 1);
            assert(s.take(1) =~= seq!['0']);
            assert(seq!['0'].drop_last() =~= Seq::<char>::empty());
            assert(hex_sum(seq!['0']) == 0) by {
                reveal_with_fuel(Seq::fold_left, 2);
            }
        }
    }
    lemma_bad_character(seq!['+'], 0);
    assert(seq!['+'].take(0) =~= Seq::empty());
    assert(hex_sum(Seq::empty()) == 0) by {
        reveal_with_fuel(Seq::fold_left, 1);
    }
}

/// What is said of a text that is no number.
pub proof fn law_texts_of_hex_errors()
    ensures
        HexError::Empty.text() == "cannot parse integer from empty string"@,
        HexError::InvalidDigit.text() == "invalid digit found in string"@,
        HexError::Overflow.text() == "number too large to fit in target type"@,
{
}

} // verus!
