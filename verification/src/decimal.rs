//! Numbers in decimal.

use vstd::prelude::*;

verus! {

/// The ten digits.
pub open spec fn decimal_digits() -> Seq<char> {
    seq!['0', '1', '2', '3', '4', '5', '6', '7', '8', '9']
}

/// A number in decimal, without leading zeros.
pub open spec fn decimal_text(n: nat) -> Seq<char>
    decreases n,
{
    if n < 10 {
        seq![decimal_digits()[n as int]]
    } else {
        decimal_text(n / 10).push(decimal_digits()[(n % 10) as int])
    }
}

/// The text of one digit.
fn digit_text(digit: u16) -> (text: &'static str)
    requires
        digit < 10,
    ensures
        text@ == seq![decimal_digits()[digit as int]],
{
    proof {
        reveal_strlit("0");
        reveal_strlit("1");
        reveal_strlit("2");
        reveal_strlit("3");
        reveal_strlit("4");
        reveal_strlit("5");
        reveal_strlit("6");
        reveal_strlit("7");
        reveal_strlit("8");
        reveal_strlit("9");
    }
    let text = match digit {
        0 => "0",
        1 => "1",
        2 => "2",
        3 => "3",
        4 => "4",
        5 => "5",
        6 => "6",
        7 => "7",
        8 => "8",
        _ => "9",
    };
    assert(text@ =~= seq![decimal_digits()[digit as int]]);
    text
}

/// Writes a number in decimal.
pub fn write_decimal(n: u16) -> (text: String)
    ensures
        text@ == decimal_text(n as nat),
    decreases n,
{
    if n < 10 {
        String::from_str(digit_text(n))
    } else {
        let mut text = write_decimal(n / 10);
        text.append(digit_text(n % 10));
        text
    }
}

/// Decimal text is made of digits, one to five of them for a 16-bit number.
pub proof fn lemma_decimal_text_digits(n: nat)
    ensures
        decimal_text(n).len() >= 1,
        n < 0x1_0000 ==> decimal_text(n).len() <= 5,
        forall|i: int|
            0 <= i < decimal_text(n).len() ==> decimal_digits().contains(#[trigger] decimal_text(n)[i]),
    decreases n,
{
    if n >= 10 {
        lemma_decimal_text_digits(n / 10);
        if n < 0x1_0000 {
            reveal_with_fuel(decimal_text, 6);
        }
    }
    assert forall|i: int| 0 <= i < decimal_text(n).len() implies decimal_digits().contains(
        #[trigger] decimal_text(n)[i],
    ) by {
        if n >= 10 && i < decimal_text(n).len() - 1 {
            assert(decimal_text(n)[i] == decimal_text(n / 10)[i]);
        } else {
            assert(decimal_text(n)[i] == decimal_digits()[(n % 10) as int]);
        }
    }
}

} // verus!
