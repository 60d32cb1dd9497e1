//! Reading a token amount from the decimal text in which the chain
//! reports it.

use vstd::prelude::*;
use vstd::string::StrSliceExecFns;

verus! {

/// The value of a decimal digit.
pub open spec fn digit_value(c: char) -> Option<nat> {
    if '0' <= c <= '9' {
        Some((c as nat - '0' as nat) as nat)
    } else {
        None
    }
}

/// The number that a run of decimal digits spells, however large; none
/// where anything but a digit occurs. The empty run spells zero.
pub open spec fn digits_value(digits: Seq<char>) -> Option<nat>
    decreases digits.len(),
{
    if digits.len() == 0 {
        Some(0)
    } else {
        match (digits_value(digits.drop_last()), digit_value(digits.last())) {
            (Some(value), Some(digit)) => Some(value * 10 + digit),
            _ => None,
        }
    }
}

/// The amount that a text spells: decimal digits, at least one, with an
/// optional `+` in front and nothing else, for a number that fits in 64
/// bits.
pub open spec fn decimal_value(text: Seq<char>) -> Option<u64> {
    let digits = if text.len() > 0 && text[0] == '+' {
        text.drop_first()
    } else {
        text
    };
    if digits.len() == 0 {
        None
    } else {
        match digits_value(digits) {
            Some(value) if value <= u64::MAX => Some(value as u64),
            _ => None,
        }
    }
}

/// A run of digits spells at least what any of its prefixes spells, and
/// a run with anything but a digit in a prefix spells nothing.
pub proof fn lemma_digits_value_grows(digits: Seq<char>, upto: int)
    requires
        0 <= upto <= digits.len(),
    ensures
        digits_value(digits) matches Some(value) ==> digits_value(digits.take(upto)) matches Some(
            prefix,
        ) && prefix <= value,
    decreases digits.len(),
{
    if upto == digits.len() {
        assert(digits.take(upto) =~= digits);
    } else {
        lemma_digits_value_grows(digits.drop_last(), upto);
        assert(digits.drop_last().take(upto) =~= digits.take(upto));
    }
}

/// Reads an amount from decimal text.
pub fn parse_amount(text: &str) -> (amount: Option<u64>)
    ensures
        amount == decimal_value(text@),
{
    if !text.is_ascii() {
        proof {
            lemma_not_ascii_is_no_amount(text@);
        }
        return None;
    }
    let len: usize = text.unicode_len();
    let start: usize = if len > 0 && text.get_ascii(0) == 43u8 {
        1
    } else {
        0
    };
    let ghost digits = if start == 1 {
        text@.drop_first()
    } else {
        text@
    };
    assert(start == 1 <==> (text@.len() > 0 && text@[0] == '+'));
    if start == len {
        return None;
    }
    let mut value: u64 = 0;
    let mut index: usize = start;
    assert(digits.take(0) =~= Seq::<char>::empty());
    while index < len
        invariant
            text.is_ascii(),
            len == text@.len(),
            start <= index <= len,
            digits.len() == len - start > 0,
            digits == if text@.len() > 0 && text@[0] == '+' {
                text@.drop_first()
            } else {
                text@
            },
            forall|i: int| 0 <= i < digits.len() ==> digits[i] == text@[start + i],
            digits_value(digits.take(index - start)) == Some(value as nat),
        decreases len - index,
    {
        let byte: u8 = text.get_ascii(index);
        let ghost c = text@[index as int];
        proof {
            let upto = digits.take(index - start + 1);
            assert(upto.drop_last() =~= digits.take(index - start));
            assert(upto.last() == c);
            lemma_digits_value_grows(digits, index - start + 1);
        }
        if byte < 48u8 || byte > 57u8 {
            proof {
                assert(digit_value(c) is None);
                lemma_digits_value_refuses(digits, index - start);
            }
            return None;
        }
        let digit: u64 = (byte - 48u8) as u64;
        assert(digit_value(c) == Some(digit as nat));
        let shifted: u64 = match value.checked_mul(10) {
            Some(shifted) => shifted,
            None => { return None; },
        };
        value = match shifted.checked_add(digit) {
            Some(sum) => sum,
            None => { return None; },
        };
        index += 1;
    }
    assert(digits.take(len - start) =~= digits);
    Some(value)
}

/// A text with a character outside ASCII spells no amount.
proof fn lemma_not_ascii_is_no_amount(text: Seq<char>)
    requires
        !vstd::utf8::is_ascii_chars(text),
    ensures
        decimal_value(text) is None,
{
    let at = choose|i: int| 0 <= i < text.len() && !('\0' <= #[trigger] text[i] <= '\u{7f}');
    let digits = if text.len() > 0 && text[0] == '+' {
        text.drop_first()
    } else {
        text
    };
    let offset = text.len() - digits.len();
    assert(at >= offset);
    assert(digits[at - offset] == text[at]);
    lemma_digits_value_refuses(digits, at - offset);
}

/// A run with anything but a digit in it spells nothing.
proof fn lemma_digits_value_refuses(digits: Seq<char>, at: int)
    requires
        0 <= at < digits.len(),
        digit_value(digits[at]) is None,
    ensures
        digits_value(digits) is None,
    decreases digits.len(),
{
    if at < digits.len() - 1 {
        lemma_digits_value_refuses(digits.drop_last(), at);
    }
}

} // verus!
