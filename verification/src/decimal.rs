//! Decimal text of channel identifiers: reading an `i64` the way
//! `str::parse::<i64>` does, and writing integers in decimal.

use vstd::prelude::*;
use vstd::string::*;

verus! {

/// Why a text is not the decimal form of an `i64`; the same kinds that
/// `std::num::IntErrorKind` reports for `str::parse::<i64>`.
#[derive(Debug, Clone, Copy, PartialEq, Eq, Structural)]
pub enum IntErrorKind {
    /// The text is empty.
    Empty,
    /// A character is not a digit where a digit is expected, or the text is a
    /// lone sign.
    InvalidDigit,
    /// The number is greater than `i64::MAX`.
    PosOverflow,
    /// The number is less than `i64::MIN`.
    NegOverflow,
}

/// The character of a decimal digit.
pub open spec fn digit_char(d: int) -> char {
    if d == 0 {
        '0'
    } else if d == 1 {
        '1'
    } else if d == 2 {
        '2'
    } else if d == 3 {
        '3'
    } else if d == 4 {
        '4'
    } else if d == 5 {
        '5'
    } else if d == 6 {
        '6'
    } else if d == 7 {
        '7'
    } else if d == 8 {
        '8'
    } else {
        '9'
    }
}

/// An ASCII decimal digit.
pub open spec fn is_digit(c: char) -> bool {
    48 <= (c as u32) && (c as u32) <= 57
}

/// The number that a digit stands for.
pub open spec fn digit_value(c: char) -> int {
    (c as u32) - 48
}

/// Every character of `s` is a digit.
pub open spec fn all_digits(s: Seq<char>) -> bool {
    forall|i: int| 0 <= i < s.len() ==> is_digit(#[trigger] s[i])
}

/// The number that a sequence of digits stands for, most significant first.
pub open spec fn digits_value(s: Seq<char>) -> int
    decreases s.len(),
{
    if s.len() == 0 {
        0
    } else {
        digits_value(s.drop_last()) * 10 + digit_value(s.last())
    }
}

/// The number that a decimal text stands for: an optional `+` or `-`, then
/// one digit or more, nothing else. `None` for any other text.
pub open spec fn decimal_value(s: Seq<char>) -> Option<int> {
    if s.len() == 0 {
        None
    } else if s[0] == '-' || s[0] == '+' {
        let rest = s.drop_first();
        if rest.len() > 0 && all_digits(rest) {
            if s[0] == '-' {
                Some(-digits_value(rest))
            } else {
                Some(digits_value(rest))
            }
        } else {
            None
        }
    } else if all_digits(s) {
        Some(digits_value(s))
    } else {
        None
    }
}

/// `s` is the decimal text of a number that fits an `i64`.
pub open spec fn is_i64_text(s: Seq<char>) -> bool {
    decimal_value(s) is Some && i64::MIN <= decimal_value(s)->0 <= i64::MAX
}

/// Reading digits from the left, as `str::parse::<i64>` does: at each
/// character, a non-digit is an `InvalidDigit`, and a running value outside
/// the range of `i64` is an overflow; the first such failure is the result.
pub open spec fn read_digits(s: Seq<char>, negative: bool) -> Result<i64, IntErrorKind>
    decreases s.len(),
{
    if s.len() == 0 {
        Ok(0)
    } else {
        match read_digits(s.drop_last(), negative) {
            Err(e) => Err(e),
            Ok(v) => {
                let c = s.last();
                if !is_digit(c) {
                    Err(IntErrorKind::InvalidDigit)
                } else {
                    let next = if negative {
                        v * 10 - digit_value(c)
                    } else {
                        v * 10 + digit_value(c)
                    };
                    if next > i64::MAX {
                        Err(IntErrorKind::PosOverflow)
                    } else if next < i64::MIN {
                        Err(IntErrorKind::NegOverflow)
                    } else {
                        Ok(next as i64)
                    }
                }
            },
        }
    }
}

/// What `str::parse::<i64>` gives for a text.
pub open spec fn parse_int(s: Seq<char>) -> Result<i64, IntErrorKind> {
    if s.len() == 0 {
        Err(IntErrorKind::Empty)
    } else if (s[0] == '+' || s[0] == '-') && s.len() == 1 {
        Err(IntErrorKind::InvalidDigit)
    } else if s[0] == '+' {
        read_digits(s.drop_first(), false)
    } else if s[0] == '-' {
        read_digits(s.drop_first(), true)
    } else {
        read_digits(s, false)
    }
}

/// The decimal digits of a natural number, without leading zeros.
pub open spec fn decimal(n: nat) -> Seq<char>
    decreases n,
{
    if n < 10 {
        seq![digit_char(n as int)]
    } else {
        decimal(n / 10).push(digit_char((n % 10) as int))
    }
}

/// The decimal text of an integer: `-` before the digits of a negative one.
pub open spec fn signed_decimal(n: int) -> Seq<char> {
    if n < 0 {
        seq!['-'] + decimal((-n) as nat)
    } else {
        decimal(n as nat)
    }
}

pub proof fn lemma_digit_char(d: int)
    requires
        0 <= d < 10,
    ensures
        is_digit(digit_char(d)),
        digit_value(digit_char(d)) == d,
{
}

/// One digit as a string slice.
fn digit_text(d: u64) -> (s: &'static str)
    requires
        d < 10,
    ensures
        s@ == seq![digit_char(d as int)],
{
    if d == 0 {
        proof {
            reveal_strlit("0");
        }
        "0"
    } else if d == 1 {
        proof {
            reveal_strlit("1");
        }
        "1"
    } else if d == 2 {
        proof {
            reveal_strlit("2");
        }
        "2"
    } else if d == 3 {
        proof {
            reveal_strlit("3");
        }
        "3"
    } else if d == 4 {
        proof {
            reveal_strlit("4");
        }
        "4"
    } else if d == 5 {
        proof {
            reveal_strlit("5");
        }
        "5"
    } else if d == 6 {
        proof {
            reveal_strlit("6");
        }
        "6"
    } else if d == 7 {
        proof {
            reveal_strlit("7");
        }
        "7"
    } else if d == 8 {
        proof {
            reveal_strlit("8");
        }
        "8"
    } else {
        proof {
            reveal_strlit("9");
        }
        "9"
    }
}

/// The decimal digits of `n`.
fn write_digits(n: u64) -> (s: String)
    ensures
        s@ == decimal(n as nat),
    decreases n,
{
    if n < 10 {
        digit_text(n).to_owned()
    } else {
        let mut s = write_digits(n / 10);
        s.append(digit_text(n % 10));
        s
    }
}

/// `n` in decimal, as `format!("{}", n)` writes it.
pub fn render_u64(n: u64) -> (s: String)
    ensures
        s@ == decimal(n as nat),
{
    write_digits(n)
}

/// `n` in decimal, as `format!("{}", n)` writes it.
pub fn render_i64(n: i64) -> (s: String)
    ensures
        s@ == signed_decimal(n as int),
{
    if n < 0 {
        let magnitude: u64 = (0i128 - n as i128) as u64;
        let mut s = "-".to_owned();
        proof {
            reveal_strlit("-");
        }
        let digits = write_digits(magnitude);
        s.append(digits.as_str());
        s
    } else {
        write_digits(n as u64)
    }
}

/// Reads `text` as a decimal `i64`, as `str::parse::<i64>` does.
pub fn parse_i64(text: &str) -> (r: Result<i64, IntErrorKind>)
    ensures
        r == parse_int(text@),
{
    let len = text.unicode_len();
    if len == 0 {
        return Err(IntErrorKind::Empty);
    }
    let first = text.get_char(0);
    let signed = first == '+' || first == '-';
    if signed && len == 1 {
        return Err(IntErrorKind::InvalidDigit);
    }
    let negative = first == '-';
    let start: usize = if signed {
        1
    } else {
        0
    };
    let ghost digits = text@.subrange(start as int, len as int);
    proof {
        if signed {
            assert(digits =~= text@.drop_first());
        } else {
            assert(digits =~= text@);
        }
        assert(digits.take(0) =~= Seq::<char>::empty());
    }
    let mut value: i64 = 0;
    let mut i: usize = start;
    while i < len
        invariant
            start <= i <= len,
            len == text@.len(),
            digits == text@.subrange(start as int, len as int),
            read_digits(digits.take(i - start), negative) == Ok::<i64, IntErrorKind>(value),
            parse_int(text@) == read_digits(digits, negative),
        decreases len - i,
    {
        let c = text.get_char(i);
        let code = c as u32;
        let ghost k = i - start;
        proof {
            assert(digits.take(k + 1).drop_last() =~= digits.take(k));
            assert(digits.take(k + 1).last() == c);
        }
        if code < 48 || code > 57 {
            proof {
                lemma_read_failure_persists(digits, k + 1, negative);
                assert(digits.take(digits.len() as int) =~= digits);
            }
            return Err(IntErrorKind::InvalidDigit);
        }
        let d = (code - 48) as i128;
        let next: i128 = if negative {
            value as i128 * 10 - d
        } else {
            value as i128 * 10 + d
        };
        if next > i64::MAX as i128 {
            proof {
                lemma_read_failure_persists(digits, k + 1, negative);
                assert(digits.take(digits.len() as int) =~= digits);
            }
            return Err(IntErrorKind::PosOverflow);
        }
        if next < i64::MIN as i128 {
            proof {
                lemma_read_failure_persists(digits, k + 1, negative);
                assert(digits.take(digits.len() as int) =~= digits);
            }
            return Err(IntErrorKind::NegOverflow);
        }
        value = next as i64;
        i = i + 1;
    }
    proof {
        assert(digits.take(len - start) =~= digits);
    }
    Ok(value)
}

/// Once reading a prefix has failed, reading more characters fails the same way.
proof fn lemma_read_failure_persists(s: Seq<char>, k: int, negative: bool)
    requires
        0 <= k <= s.len(),
        read_digits(s.take(k), negative) is Err,
    ensures
        read_digits(s.take(s.len() as int), negative) == read_digits(s.take(k), negative),
    decreases s.len() - k,
{
    if k < s.len() {
        assert(s.take(k + 1).drop_last() =~= s.take(k));
        lemma_read_failure_persists(s, k + 1, negative);
    }
}

/// Reading succeeds only on digits.
proof fn lemma_read_ok_only_digits(s: Seq<char>, negative: bool)
    requires
        read_digits(s, negative) is Ok,
    ensures
        all_digits(s),
    decreases s.len(),
{
    if s.len() > 0 {
        lemma_read_ok_only_digits(s.drop_last(), negative);
        assert forall|i: int| 0 <= i < s.len() implies is_digit(#[trigger] s[i]) by {
            if i < s.len() - 1 {
                assert(s.drop_last()[i] == s[i]);
            }
        }
    }
}

/// On digits, reading gives the (signed) value when it fits an `i64`, and the
/// overflow of its sign when it does not.
proof fn lemma_read_digits_value(s: Seq<char>, negative: bool)
    requires
        all_digits(s),
    ensures
        digits_value(s) >= 0,
        ({
            let x = if negative { -digits_value(s) } else { digits_value(s) };
            read_digits(s, negative) == if i64::MIN <= x <= i64::MAX {
                Ok::<i64, IntErrorKind>(x as i64)
            } else if negative {
                Err(IntErrorKind::NegOverflow)
            } else {
                Err(IntErrorKind::PosOverflow)
            }
        }),
    decreases s.len(),
{
    if s.len() > 0 {
        let p = s.drop_last();
        assert forall|i: int| 0 <= i < p.len() implies is_digit(#[trigger] p[i]) by {
            assert(p[i] == s[i]);
        }
        lemma_read_digits_value(p, negative);
        assert(is_digit(s[s.len() - 1]));
    }
}

/// `parse_int` succeeds exactly on the decimal texts whose value fits an
/// `i64`, and then gives that value.
pub proof fn lemma_parse_int_value(s: Seq<char>)
    ensures
        parse_int(s) is Ok <==> (decimal_value(s) is Some && i64::MIN <= decimal_value(s)->0
            <= i64::MAX),
        parse_int(s) is Ok ==> decimal_value(s) == Some(parse_int(s)->Ok_0 as int),
{
    if s.len() > 0 {
        if s[0] == '+' || s[0] == '-' {
            let rest = s.drop_first();
            let negative = s[0] == '-';
            if s.len() > 1 {
                if read_digits(rest, negative) is Ok {
                    lemma_read_ok_only_digits(rest, negative);
                }
                if all_digits(rest) {
                    lemma_read_digits_value(rest, negative);
                }
            }
        } else {
            if read_digits(s, false) is Ok {
                lemma_read_ok_only_digits(s, false);
            }
            if all_digits(s) {
                lemma_read_digits_value(s, false);
            }
        }
    }
}

/// The decimal digits of `n` are digits, at least one, standing for `n`.
pub proof fn lemma_decimal_digits(n: nat)
    ensures
        decimal(n).len() >= 1,
        all_digits(decimal(n)),
        digits_value(decimal(n)) == n,
    decreases n,
{
    if n < 10 {
        lemma_digit_char(n as int);
        let s = decimal(n);
        assert(s.drop_last() =~= Seq::<char>::empty());
        assert(digits_value(s.drop_last()) == 0);
        assert(s.last() == digit_char(n as int));
        assert(digits_value(s) == digits_value(s.drop_last()) * 10 + digit_value(s.last()));
    } else {
        lemma_decimal_digits(n / 10);
        lemma_digit_char((n % 10) as int);
        let s = decimal(n);
        assert(s.drop_last() =~= decimal(n / 10));
        assert(n == (n / 10) * 10 + n % 10);
        assert(digits_value(s) == digits_value(decimal(n / 10)) * 10 + digit_value(s.last()));
        assert forall|i: int| 0 <= i < s.len() implies is_digit(#[trigger] s[i]) by {
            if i < s.len() - 1 {
                assert(s[i] == decimal(n / 10)[i]);
            }
        }
    }
}

/// Reading back what `render_i64` writes gives the same number.
pub proof fn lemma_parse_render_round_trip(n: i64)
    ensures
        parse_int(signed_decimal(n as int)) == Ok::<i64, IntErrorKind>(n),
{
    let s = signed_decimal(n as int);
    if n < 0 {
        lemma_decimal_digits((-n) as nat);
        assert(s.drop_first() =~= decimal((-n) as nat));
    } else {
        lemma_decimal_digits(n as nat);
        assert(is_digit(s[0]));
    }
    lemma_parse_int_value(s);
}

/// A channel identifier written by `render_u64` reads back, as an `i64`, to
/// the same number whenever it fits an `i64`.
pub proof fn lemma_channel_id_round_trip(id: u64)
    requires
        id <= i64::MAX,
    ensures
        parse_int(decimal(id as nat)) == Ok::<i64, IntErrorKind>(id as i64),
{
    lemma_parse_render_round_trip(id as i64);
}

} // verus!
