//! Decimal numbers as text.
use vstd::prelude::*;

verus! {

/// Why a text is no number of the wanted range.
#[derive(Debug, Clone, Copy, PartialEq, Eq, Structural)]
pub enum NumberError {
    Empty,
    InvalidDigit,
    TooLarge,
}

impl NumberError {
    /// The error in words.
    pub open spec fn text(self) -> Seq<char> {
        match self {
            NumberError::Empty => "cannot parse integer from empty string"@,
            NumberError::InvalidDigit => "invalid digit found in string"@,
            NumberError::TooLarge => "number too large to fit in target type"@,
        }
    }

    /// The error in words.
    pub fn message(&self) -> (text: &'static str)
        ensures
            text@ == self.text(),
    {
        match self {
            NumberError::Empty => "cannot parse integer from empty string",
            NumberError::InvalidDigit => "invalid digit found in string",
            NumberError::TooLarge => "number too large to fit in target type",
        }
    }
}

/// A decimal digit.
pub open spec fn is_digit(c: char) -> bool {
    '0' <= c <= '9'
}

/// Only decimal digits.
pub open spec fn all_digits(s: Seq<char>) -> bool {
    forall|i: int| 0 <= i < s.len() ==> is_digit(#[trigger] s[i])
}

/// The number that a row of decimal digits spells.
pub open spec fn decimal_value(s: Seq<char>) -> nat
    decreases s.len(),
{
    if s.len() == 0 {
        0
    } else {
        decimal_value(s.drop_last()) * 10 + (s.last() as int - '0' as int) as nat
    }
}

/// The digit that stands for `d`.
pub open spec fn digit_char(d: nat) -> char {
    ('0' as int + d) as char
}

/// `n` in decimal, without leading zeros.
pub open spec fn decimal_text(n: nat) -> Seq<char>
    decreases n,
{
    if n < 10 {
        seq![digit_char(n)]
    } else {
        decimal_text(n / 10).push(digit_char(n % 10))
    }
}

/// A text without its leading plus sign, if it has one.
pub open spec fn without_plus(s: Seq<char>) -> Seq<char> {
    if s.len() > 0 && s[0] == '+' {
        s.skip(1)
    } else {
        s
    }
}

/// Reading the digits from the left passes `max` before it meets anything else.
pub open spec fn overflows(digits: Seq<char>, max: nat) -> bool {
    exists|k: int|
        0 <= k <= digits.len() && all_digits(#[trigger] digits.take(k)) && decimal_value(
            digits.take(k),
        ) > max
}

/// What a text says, read as a number of at most `max`: an optional plus sign,
/// then decimal digits and nothing else.
pub open spec fn parsed(s: Seq<char>, max: nat) -> Result<nat, NumberError> {
    let digits = without_plus(s);
    if s.len() == 0 {
        Err(NumberError::Empty)
    } else if overflows(digits, max) {
        Err(NumberError::TooLarge)
    } else if digits.len() == 0 || !all_digits(digits) {
        Err(NumberError::InvalidDigit)
    } else {
        Ok(decimal_value(digits))
    }
}

/// A row of digits is worth at least what any row that it continues is worth.
proof fn lemma_decimal_value_grows(s: Seq<char>, k: int)
    requires
        0 <= k <= s.len(),
        all_digits(s),
    ensures
        decimal_value(s.take(k)) <= decimal_value(s),
    decreases s.len(),
{
    if k == s.len() {
        assert(s.take(k) =~= s);
    } else {
        let shorter = s.drop_last();
        assert(shorter.take(k) =~= s.take(k));
        assert forall|i: int| 0 <= i < shorter.len() implies is_digit(#[trigger] shorter[i]) by {
            assert(is_digit(s[i]));
        }
        lemma_decimal_value_grows(shorter, k);
        assert(is_digit(s[s.len() - 1]));
    }
}

/// A number that was read is at most `max`.
pub proof fn lemma_parsed_bound(s: Seq<char>, max: nat)
    ensures
        parsed(s, max) matches Ok(n) ==> n <= max,
{
    let digits = without_plus(s);
    assert(digits.take(digits.len() as int) =~= digits);
}

/// Reads a decimal number of at most `max`.
pub fn parse_unsigned(text: &str, max: u128) -> (result: Result<u128, NumberError>)
    ensures
        match (result, parsed(text@, max as nat)) {
            (Ok(n), Ok(m)) => n == m,
            (Err(e), Err(f)) => e == f,
            _ => false,
        },
{
    let len: usize = text.unicode_len();
    if len == 0 {
        return Err(NumberError::Empty);
    }
    let start: usize = if text.get_char(0) == '+' {
        1
    } else {
        0
    };
    let ghost digits = without_plus(text@);
    let mut value: u128 = 0;
    let mut i: usize = start;
    proof {
        assert(digits.take(0) =~= Seq::empty());
        if start == 0 {
            assert(text@.skip(0) =~= text@);
        }
        assert(digits =~= text@.skip(start as int));
    }
    while i < len
        invariant
            len == text@.len(),
            len > 0,
            start <= i <= len,
            digits == text@.skip(start as int),
            digits == without_plus(text@),
            all_digits(digits.take(i - start)),
            value == decimal_value(digits.take(i - start)),
            value <= max,
        decreases len - i,
    {
        let c: char = text.get_char(i);
        let ghost k = i - start;
        proof {
            assert(digits[k] == c);
            assert(digits.take(k + 1).drop_last() =~= digits.take(k));
            assert(digits.take(k + 1).last() == c);
        }
        if !('0' <= c && c <= '9') {
            proof {
                assert(!is_digit(digits[k]));
                assert forall|j: int| 0 <= j <= digits.len() && all_digits(
                    #[trigger] digits.take(j),
                ) implies decimal_value(digits.take(j)) <= max by {
                    if j > k {
                        assert(is_digit(digits.take(j)[k]));
                    } else {
                        assert(digits.take(k).take(j) =~= digits.take(j));
                        lemma_decimal_value_grows(digits.take(k), j);
                    }
                }
            }
            return Err(NumberError::InvalidDigit);
        }
        let d: u128 = (c as u32 - '0' as u32) as u128;
        proof {
            assert forall|j: int| 0 <= j < digits.take(k + 1).len() implies is_digit(
                #[trigger] digits.take(k + 1)[j],
            ) by {
                if j < k {
                    assert(is_digit(digits.take(k)[j]));
                }
            }
        }
        if value > max / 10 || d > max - value * 10 {
            proof {
                assert(decimal_value(digits.take(k + 1)) == value * 10 + d);
                assert(value * 10 + d > max);
            }
            return Err(NumberError::TooLarge);
        }
        value = value * 10 + d;
        i = i + 1;
    }
    proof {
        assert(digits.take(digits.len() as int) =~= digits);
        assert forall|j: int| 0 <= j <= digits.len() && all_digits(
            #[trigger] digits.take(j),
        ) implies decimal_value(digits.take(j)) <= max by {
            lemma_decimal_value_grows(digits, j);
        }
    }
    if start == len {
        return Err(NumberError::InvalidDigit);
    }
    Ok(value)
}

/// The one-character text of a decimal digit.
fn digit_text(d: u8) -> (text: &'static str)
    requires
        d < 10,
    ensures
        text@ == seq![digit_char(d as nat)],
{
    proof {
        reveal_strlit("0");
        reveal_strlit("1");
        reveal_strlit("2");
        reveal_strlit("3");
        reveal_strlit("4");
        reveal_strlit("5");
        reveal_strlit("6");
        reveal_strlit("7");
        reveal_strlit("8");
        reveal_strlit("9");
    }
    let text = match d {
        0 => "0",
        1 => "1",
        2 => "2",
        3 => "3",
        4 => "4",
        5 => "5",
        6 => "6",
        7 => "7",
        8 => "8",
        _ => "9",
    };
    assert(text@ =~= seq![digit_char(d as nat)]);
    text
}

/// Appends `n` in decimal.
pub fn append_decimal(text: &mut String, n: u128)
    ensures
        final(text)@ == old(text)@ + decimal_text(n as nat),
    decreases n,
{
    if n >= 10 {
        append_decimal(text, n / 10);
    }
    text.append(digit_text((n % 10) as u8));
    proof {
        if n >= 10 {
            assert(old(text)@ + decimal_text((n / 10) as nat) + seq![digit_char((n % 10) as nat)]
                =~= old(text)@ + decimal_text((n / 10) as nat).push(digit_char((n % 10) as nat)));
        }
    }
}

/// Reading back what was written gives the number.
pub proof fn law_parse_inverts_decimal_text(n: nat, max: nat)
    requires
        n <= max,
    ensures
        parsed(decimal_text(n), max) == Ok::<nat, NumberError>(n),
{
    lemma_decimal_text(n);
    let s = decimal_text(n);
    assert(is_digit(s[0]));
    assert forall|j: int| 0 <= j <= s.len() && all_digits(#[trigger] s.take(j)) implies decimal_value(
        s.take(j),
    ) <= max by {
        lemma_decimal_value_grows(s, j);
    }
}

/// The decimal text of a number: digits only, at least one, worth the number.
proof fn lemma_decimal_text(n: nat)
    ensures
        decimal_text(n).len() > 0,
        all_digits(decimal_text(n)),
        decimal_value(decimal_text(n)) == n,
    decreases n,
{
    if n < 10 {
        let s = decimal_text(n);
        assert(s.drop_last() =~= Seq::empty());
        assert(decimal_value(Seq::empty()) == 0);
    } else {
        lemma_decimal_text(n / 10);
        let s = decimal_text(n / 10);
        assert(decimal_text(n).drop_last() =~= s);
        assert forall|i: int| 0 <= i < decimal_text(n).len() implies is_digit(
            #[trigger] decimal_text(n)[i],
        ) by {
            if i < s.len() {
                assert(is_digit(s[i]));
            }
        }
    }
}

/// Reading one more character. A number that was read becomes ten times as large
/// plus the digit, if that is allowed; what was refused stays refused for the same
/// reason.
pub proof fn law_one_more_character(s: Seq<char>, c: char, max: nat)
    requires
        s.len() > 0,
        s != seq!['+'],
    ensures
        parsed(s.push(c), max) == (match parsed(s, max) {
            Ok(n) => if !('0' <= c <= '9') {
                Err(NumberError::InvalidDigit)
            } else if 10 * n + (c as int - '0' as int) > max {
                Err(NumberError::TooLarge)
            } else {
                Ok((10 * n + (c as int - '0' as int)) as nat)
            },
            Err(error) => Err(error),
        }),
{
    let (t, d, e) = (s.push(c), without_plus(s), without_plus(s.push(c)));
    assert(e =~= d.push(c));
    assert(d.len() > 0) by {
        if d.len() == 0 {
            assert(s =~= seq!['+']);
        }
    }
    assert forall|k: int| 0 <= k <= d.len() implies #[trigger] e.take(k) == d.take(k) by {
        assert(e.take(k) =~= d.take(k));
    }
    assert(e.take(e.len() as int) =~= e);
    assert(d.take(d.len() as int) =~= d);
    assert(e.drop_last() =~= d);
    if overflows(d, max) {
        let k = choose|k: int|
            0 <= k <= d.len() && all_digits(#[trigger] d.take(k)) && decimal_value(d.take(k))
                > max;
        assert(e.take(k) == d.take(k));
    } else if !all_digits(d) {
        let j = choose|j: int| 0 <= j < d.len() && !is_digit(#[trigger] d[j]);
        assert(!is_digit(e[j]));
        assert forall|k: int| 0 <= k <= e.len() && all_digits(
            #[trigger] e.take(k),
        ) implies decimal_value(e.take(k)) <= max by {
            if k == e.len() {
                assert(is_digit(e[j]));
            } else {
                assert(all_digits(d.take(k)));
            }
        }
    } else {
        assert(all_digits(e) <==> is_digit(c)) by {
            assert(e[d.len() as int] == c);
            assert forall|j: int| 0 <= j < e.len() && is_digit(c) implies is_digit(
                #[trigger] e[j],
            ) by {
                if j < d.len() {
                    assert(is_digit(d[j]));
                }
            }
        }
        assert forall|k: int| 0 <= k < e.len() && all_digits(
            #[trigger] e.take(k),
        ) implies decimal_value(e.take(k)) <= max by {
            assert(all_digits(d.take(k)));
        }
        if is_digit(c) {
            assert(decimal_value(e) == decimal_value(d) * 10 + (c as int - '0' as int));
            if decimal_value(e) > max {
                assert(all_digits(e.take(e.len() as int)));
            }
        }
    }
}

/// Reading begins with nothing, which is no number, or with a plus sign, which
/// alone is none and changes nothing before a digit, or with a character that has
/// to be a digit.
pub proof fn law_first_character(c: char, max: nat)
    ensures
        parsed(Seq::empty(), max) == Err::<nat, NumberError>(NumberError::Empty),
        parsed(seq!['+'], max) == Err::<nat, NumberError>(NumberError::InvalidDigit),
        parsed(seq!['+', c], max) == (if !('0' <= c <= '9') {
            Err::<nat, NumberError>(NumberError::InvalidDigit)
        } else {
            parsed(seq![c], max)
        }),
        c != '+' ==> parsed(seq![c], max) == (if !('0' <= c <= '9') {
            Err::<nat, NumberError>(NumberError::InvalidDigit)
        } else if c as int - '0' as int > max {
            Err(NumberError::TooLarge)
        } else {
            Ok((c as int - '0' as int) as nat)
        }),
{
    let (none, one) = (Seq::<char>::empty(), seq![c]);
    assert(seq!['+', c].skip(1) =~= one);
    assert(seq!['+'].skip(1) =~= none);
    assert(one.drop_last() =~= none);
    assert(decimal_value(none) == 0);
    assert(none.take(0) =~= none);
    assert(one.take(0) =~= none);
    assert(one.take(1) =~= one);
    assert(one[0] == c);
    assert(all_digits(one) <==> is_digit(c));
    assert(decimal_value(one) == (c as int - '0' as int) as nat);
    assert forall|k: int| 0 <= k <= 0 && all_digits(#[trigger] none.take(k)) implies decimal_value(
        none.take(k),
    ) <= max by {
        assert(none.take(k) =~= none);
    }
    assert forall|k: int| 0 <= k <= 1 && all_digits(#[trigger] one.take(k)) implies k == 0 || k
        == 1 by {}
    if all_digits(one) && decimal_value(one) > max {
        assert(overflows(one, max));
    } else {
        assert(!overflows(one, max));
    }
    assert(!overflows(none, max));
}

/// A number is written with decimal digits only, at least one of them, and
/// without a leading zero unless it is zero.
pub proof fn law_decimal_text_has_no_leading_zero(n: nat)
    ensures
        decimal_text(n).len() > 0,
        forall|i: int| 0 <= i < decimal_text(n).len() ==> '0' <= #[trigger] decimal_text(n)[i] <= '9',
        decimal_text(n)[0] == '0' ==> n == 0 && decimal_text(n).len() == 1,
    decreases n,
{
    lemma_decimal_text(n);
    assert forall|i: int| 0 <= i < decimal_text(n).len() implies '0' <= #[trigger] decimal_text(
        n,
    )[i] <= '9' by {
        assert(is_digit(decimal_text(n)[i]));
    }
    if n >= 10 {
        law_decimal_text_has_no_leading_zero(n / 10);
        lemma_decimal_text(n / 10);
        assert(decimal_text(n)[0] == decimal_text(n / 10)[0]);
    }
}

/// The words of each refusal.
pub proof fn law_number_error_words(error: NumberError)
    ensures
        error is Empty ==> error.text() == "cannot parse integer from empty string"@,
        error is InvalidDigit ==> error.text() == "invalid digit found in string"@,
        error is TooLarge ==> error.text() == "number too large to fit in target type"@,
{
}

} // verus!
