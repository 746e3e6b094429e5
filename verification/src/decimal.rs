//! Decimal text of natural numbers.

use vstd::prelude::*;
use vstd::std_specs::iter::IteratorSpec;

verus! {

/// The character that writes the digit `d`, for `d` below ten.
pub open spec fn digit_char(d: nat) -> char {
    ('0' as nat + d) as char
}

/// Whether `c` is one of the ten decimal digits.
pub open spec fn is_digit(c: char) -> bool {
    '0' <= c <= '9'
}

/// The decimal text of `n`: most significant digit first, no sign, no
/// leading zero, and `"0"` for zero.
pub open spec fn decimal_digits(n: nat) -> Seq<char>
    decreases n,
{
    if n < 10 {
        seq![digit_char(n)]
    } else {
        decimal_digits(n / 10).push(digit_char(n % 10))
    }
}

/// Decimal text is never empty and holds digits only.
pub proof fn lemma_decimal_digits_shape(n: nat)
    ensures
        decimal_digits(n).len() >= 1,
        forall|i: int| 0 <= i < decimal_digits(n).len() ==> is_digit(#[trigger] decimal_digits(n)[i]),
    decreases n,
{
    if n >= 10 {
        lemma_decimal_digits_shape(n / 10);
    }
}

/// The one-character text of a single digit.
fn digit_str(d: u8) -> (text: &'static str)
    requires
        d < 10,
    ensures
        text@ == seq![digit_char(d as nat)],
{
    proof {
        reveal_strlit("0");
        reveal_strlit("1");
        reveal_strlit("2");
        reveal_strlit("3");
        reveal_strlit("4");
        reveal_strlit("5");
        reveal_strlit("6");
        reveal_strlit("7");
        reveal_strlit("8");
        reveal_strlit("9");
    }
    let text = match d {
        0 => "0",
        1 => "1",
        2 => "2",
        3 => "3",
        4 => "4",
        5 => "5",
        6 => "6",
        7 => "7",
        8 => "8",
        _ => "9",
    };
    text
}

/// Renders `n` in decimal.
pub fn decimal_string(n: u64) -> (text: String)
    ensures
        text@ == decimal_digits(n as nat),
    decreases n,
{
    if n < 10 {
        digit_str(n as u8).to_owned()
    } else {
        let mut text = decimal_string(n / 10);
        text.append(digit_str((n % 10) as u8));
        text
    }
}

/// The number that the digit `c` writes.
pub open spec fn digit_value(c: char) -> nat {
    (c as nat - '0' as nat) as nat
}

/// The number that a text of digits writes in decimal; zero for the empty
/// text.
pub open spec fn decimal_value(text: Seq<char>) -> nat
    decreases text.len(),
{
    if text.len() == 0 {
        0
    } else {
        decimal_value(text.drop_last()) * 10 + digit_value(text.last())
    }
}

/// Whether `text` is the decimal text of a number: at least one character,
/// digits only, and no leading zero but in `"0"` itself.
pub open spec fn is_decimal(text: Seq<char>) -> bool {
    &&& text.len() >= 1
    &&& forall|i: int| 0 <= i < text.len() ==> is_digit(#[trigger] text[i])
    &&& (text.len() > 1 ==> text[0] != '0')
}

/// Reading the decimal text of a number gives the number back.
pub proof fn lemma_decimal_value_of_digits(n: nat)
    ensures
        is_decimal(decimal_digits(n)),
        decimal_value(decimal_digits(n)) == n,
        n > 0 ==> decimal_digits(n)[0] != '0',
    decreases n,
{
    let text = decimal_digits(n);
    if n < 10 {
        assert(decimal_value(text.drop_last()) == 0);
    } else {
        lemma_decimal_value_of_digits(n / 10);
        assert(text.drop_last() =~= decimal_digits(n / 10));
    }
}

/// A decimal text is the text of the number it writes: no two decimal texts
/// write the same number.
pub proof fn lemma_digits_of_decimal_value(text: Seq<char>)
    requires
        is_decimal(text),
    ensures
        decimal_digits(decimal_value(text)) == text,
        text.len() > 1 ==> decimal_value(text) >= 10,
    decreases text.len(),
{
    let init = text.drop_last();
    if text.len() == 1 {
        assert(init =~= Seq::empty());
        assert(decimal_value(init) == 0);
    } else {
        assert(init[0] == text[0]);
        lemma_digits_of_decimal_value(init);
        if init.len() == 1 {
            assert(init.drop_last() =~= Seq::empty());
            assert(decimal_value(init) >= 1);
        }
    }
    assert(decimal_digits(decimal_value(text)) =~= text);
}

/// Reads a number from its decimal text. A text that is no decimal text, or
/// that writes a number above the largest `u64`, gives `None`.
pub fn parse_decimal(text: &str) -> (number: Option<u64>)
    ensures
        number is Some <==> is_decimal(text@) && decimal_value(text@) <= u64::MAX,
        number matches Some(n) ==> n == decimal_value(text@),
{
    broadcast use vstd::string::group_string_axioms;

    let mut value: u64 = 0;
    let mut overflow = false;
    let mut any = false;
    let mut several = false;
    let mut leading_zero = false;
    let mut chars = text.chars();
    let ghost mut consumed: Seq<char> = Seq::empty();
    loop
        invariant
            consumed + chars.remaining() == text@,
            forall|i: int| 0 <= i < consumed.len() ==> is_digit(#[trigger] consumed[i]),
            any <==> consumed.len() >= 1,
            several <==> consumed.len() > 1,
            leading_zero <==> consumed.len() >= 1 && consumed[0] == '0',
            !overflow ==> value == decimal_value(consumed),
            overflow ==> decimal_value(consumed) > u64::MAX,
        ensures
            consumed == text@,
        decreases text@.len() - consumed.len(),
    {
        let ghost rest = chars.remaining();
        match chars.next() {
            None => {
                break ;
            },
            Some(c) => {
                proof {
                    assert(text@[consumed.len() as int] == (consumed + rest)[consumed.len() as int]);
                    assert(consumed.push(c).drop_last() =~= consumed);
                }
                if c < '0' || c > '9' {
                    return None;
                }
                let digit = (c as u32 - '0' as u32) as u64;
                if !any {
                    leading_zero = digit == 0;
                } else {
                    several = true;
                }
                any = true;
                if !overflow {
                    match value.checked_mul(10) {
                        Some(tenfold) => match tenfold.checked_add(digit) {
                            Some(next) => {
                                value = next;
                            },
                            None => {
                                overflow = true;
                            },
                        },
                        None => {
                            overflow = true;
                        },
                    }
                }
                proof {
                    consumed = consumed.push(c);
                }
            },
        }
    }
    if !any || overflow || (several && leading_zero) {
        None
    } else {
        Some(value)
    }
}

} // verus!
