//! Decimal text of unsigned numbers.
use vstd::prelude::*;

verus! {

/// The character of a decimal digit.
pub open spec fn digit_char(digit: nat) -> char {
    (48 + digit) as char
}

/// Whether `c` is one of the ten ASCII digits.
pub open spec fn is_digit(c: char) -> bool {
    '0' <= c && c <= '9'
}

/// Whether every character of `text` is an ASCII digit.
pub open spec fn all_digits(text: Seq<char>) -> bool {
    forall|i: int| 0 <= i < text.len() ==> is_digit(#[trigger] text[i])
}

/// The decimal text of `n`, without leading zeros.
pub open spec fn decimal(n: nat) -> Seq<char>
    decreases n,
{
    if n < 10 {
        seq![digit_char(n)]
    } else {
        decimal(n / 10).push(digit_char(n % 10))
    }
}

/// The number that a run of digits spells.
pub open spec fn digits_value(text: Seq<char>) -> nat
    decreases text.len(),
{
    if text.len() == 0 {
        0
    } else {
        digits_value(text.drop_last()) * 10 + (text.last() as nat - 48) as nat
    }
}

/// `text` without one leading plus sign.
pub open spec fn without_plus(text: Seq<char>) -> Seq<char> {
    if text.len() > 0 && text[0] == '+' {
        text.skip(1)
    } else {
        text
    }
}

/// The `u64` that `text` spells: an optional plus sign, then at least one digit and nothing else,
/// of a number that fits.
pub open spec fn parsed_u64(text: Seq<char>) -> Option<u64> {
    let digits = without_plus(text);
    if digits.len() > 0 && all_digits(digits) && digits_value(digits) <= u64::MAX {
        Some(digits_value(digits) as u64)
    } else {
        None
    }
}

/// The decimal text of a number is a run of digits that spells it.
pub proof fn lemma_decimal_digits(n: nat)
    ensures
        decimal(n).len() > 0,
        all_digits(decimal(n)),
        digits_value(decimal(n)) == n,
    decreases n,
{
    if n < 10 {
        reveal_with_fuel(digits_value, 2);
    } else {
        lemma_decimal_digits(n / 10);
        assert(decimal(n).drop_last() =~= decimal(n / 10));
    }
}

/// Parsing the decimal text of a `u64` gives the number back.
pub proof fn law_parse_of_decimal(n: u64)
    ensures
        parsed_u64(decimal(n as nat)) == Some(n),
{
    lemma_decimal_digits(n as nat);
    assert(is_digit(decimal(n as nat)[0]));
}

/// The text of one digit.
fn digit_text(digit: u64) -> (text: &'static str)
    requires
        digit < 10,
    ensures
        text@ == seq![digit_char(digit as nat)],
{
    proof {
        reveal_strlit("0");
        reveal_strlit("1");
        reveal_strlit("2");
        reveal_strlit("3");
        reveal_strlit("4");
        reveal_strlit("5");
        reveal_strlit("6");
        reveal_strlit("7");
        reveal_strlit("8");
        reveal_strlit("9");
    }
    let text = match digit {
        0 => "0",
        1 => "1",
        2 => "2",
        3 => "3",
        4 => "4",
        5 => "5",
        6 => "6",
        7 => "7",
        8 => "8",
        _ => "9",
    };
    assert(text@ =~= seq![digit_char(digit as nat)]);
    text
}

/// Writes the decimal text of `n` behind `out`.
pub fn push_decimal(out: &mut String, n: u64)
    ensures
        final(out)@ == old(out)@ + decimal(n as nat),
    decreases n,
{
    if n >= 10 {
        push_decimal(out, n / 10);
    }
    out.append(digit_text(n % 10));
    assert(out@ =~= old(out)@ + decimal(n as nat));
}

/// The decimal text of a number ends in its last digit, and what stands before that is the decimal
/// text of the number without its last digit; a number of one digit has nothing before it.
pub proof fn law_decimal_text(n: nat)
    ensures
        decimal(n).len() > 0,
        decimal(n).last() as int == '0' as int + n % 10,
        n < 10 ==> decimal(n).len() == 1,
        n >= 10 ==> decimal(n).drop_last() == decimal(n / 10),
{
    if n >= 10 {
        assert(decimal(n).drop_last() =~= decimal(n / 10));
    }
}

/// A text of one character spells a number if and only if the character is a digit, and then it
/// spells that digit. Without a digit nothing is spelled.
pub proof fn law_parse_one_character(c: char)
    ensures
        '0' <= c <= '9' ==> parsed_u64(seq![c]) == Some((c as int - '0' as int) as u64),
        !('0' <= c <= '9') ==> parsed_u64(seq![c]) is None,
        parsed_u64(Seq::<char>::empty()) is None,
{
    reveal_with_fuel(digits_value, 2);
    let text = seq![c];
    if c == '+' {
        assert(text.skip(1).len() == 0);
    } else {
        assert(without_plus(text) == text);
        assert(is_digit(text[0]) <==> '0' <= c <= '9');
    }
}

/// One more character behind a text that spells a number spells a number if and only if the
/// character is a digit and the number that it makes fits. One more character never mends a text
/// that spells none, but for the first digit.
pub proof fn law_parse_one_more_character(text: Seq<char>, c: char)
    requires
        text.len() > 0,
        text != seq!['+'],
    ensures
        match parsed_u64(text) {
            Some(n) => {
                let longer = n * 10 + (c as int - '0' as int);
                if '0' <= c <= '9' && longer <= u64::MAX {
                    parsed_u64(text.push(c)) == Some(longer as u64)
                } else {
                    parsed_u64(text.push(c)) is None
                }
            },
            None => parsed_u64(text.push(c)) is None,
        },
{
    let digits = without_plus(text);
    let longer = without_plus(text.push(c));
    assert(longer =~= digits.push(c));
    assert(longer.drop_last() =~= digits);
    if digits.len() == 0 {
        assert(text =~= seq!['+']);
    }
    if all_digits(longer) {
        assert(is_digit(longer.last()));
        assert forall|i: int| 0 <= i < digits.len() implies is_digit(#[trigger] digits[i]) by {
            assert(is_digit(longer[i]));
        }
    }
    if all_digits(digits) && is_digit(c) {
        assert forall|i: int| 0 <= i < longer.len() implies is_digit(#[trigger] longer[i]) by {
            if i < digits.len() {
                assert(is_digit(digits[i]));
            }
        }
        assert(digits_value(longer) == digits_value(digits) * 10 + (c as nat - 48));
    }
}

/// One plus sign in front of a text changes nothing about what the text spells. In front of a text
/// that has one already, or has nothing, it makes a text that spells no number.
pub proof fn law_parse_plus_sign(text: Seq<char>)
    ensures
        text.len() > 0 && text[0] != '+' ==> parsed_u64(seq!['+'] + text) == parsed_u64(text),
        text.len() == 0 || text[0] == '+' ==> parsed_u64(seq!['+'] + text) is None,
{
    assert((seq!['+'] + text).skip(1) =~= text);
    if text.len() > 0 && text[0] == '+' {
        assert(!is_digit(text[0]));
    }
}

} // verus!
