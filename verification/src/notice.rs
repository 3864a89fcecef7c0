//! The texts that go to the channel.

use vstd::prelude::*;
use vstd::string::StringExecFns;
use crate::price::PriceDelta;
use crate::quote_text::{
    all_digits, cents_of, decimal_value, digit_value, fraction_digits, is_digit,
    lemma_point_index, price_cents, whole_digits,
};

verus! {

/// The character that writes one decimal digit.
pub open spec fn digit_char(d: int) -> char {
    if d == 0 {
        '0'
    } else if d == 1 {
        '1'
    } else if d == 2 {
        '2'
    } else if d == 3 {
        '3'
    } else if d == 4 {
        '4'
    } else if d == 5 {
        '5'
    } else if d == 6 {
        '6'
    } else if d == 7 {
        '7'
    } else if d == 8 {
        '8'
    } else {
        '9'
    }
}

/// A number in decimal, without leading zeros.
pub open spec fn decimal_text(n: nat) -> Seq<char>
    decreases n,
{
    if n < 10 {
        seq![digit_char(n as int)]
    } else {
        decimal_text(n / 10) + seq![digit_char((n % 10) as int)]
    }
}

/// An amount of cents as dollars with two decimals, such as `18.50`.
pub open spec fn usd_text(cents: nat) -> Seq<char> {
    decimal_text(cents / 100) + seq!['.'] + seq![digit_char((cents / 10 % 10) as int)]
        + seq![digit_char((cents % 10) as int)]
}

/// What is said of a move: nothing where the rounded dollar value stayed.
pub open spec fn notice_text(symbol: Seq<char>, delta: PriceDelta, cents: nat) -> Option<
    Seq<char>,
> {
    match delta {
        PriceDelta::Up => Some(symbol + " price is UP to $"@ + usd_text(cents)),
        PriceDelta::Down => Some(symbol + " price is DOWN to $"@ + usd_text(cents)),
        PriceDelta::Unchanged => None,
    }
}

/// A number written in decimal is made of digits and reads back as itself.
pub proof fn lemma_decimal_text_reads_back(n: nat)
    ensures
        decimal_text(n).len() >= 1,
        all_digits(decimal_text(n)),
        decimal_value(decimal_text(n)) == n,
    decreases n,
{
    let text = decimal_text(n);
    if n >= 10 {
        lemma_decimal_text_reads_back(n / 10);
        assert(text.drop_last() =~= decimal_text(n / 10));
        assert forall|i: int| 0 <= i < text.len() implies is_digit(#[trigger] text[i]) by {
            if i < text.len() - 1 {
                assert(text[i] == decimal_text(n / 10)[i]);
            }
        }
    }
    assert(decimal_value(text) == decimal_value(text.drop_last()) * 10 + digit_value(text.last()));
}

/// An amount written by `usd_text` is a price text, and is worth that amount.
pub proof fn lemma_usd_text_reads_back(cents: u64)
    ensures
        price_cents(usd_text(cents as nat)) == Some(cents),
{
    let text = usd_text(cents as nat);
    let whole = decimal_text((cents / 100) as nat);
    lemma_decimal_text_reads_back((cents / 100) as nat);
    // The `.` stands right behind the whole part, which holds none.
    assert forall|j: int| 0 <= j < whole.len() implies text[j] != '.' by {
        assert(text[j] == whole[j]);
    }
    lemma_point_index(text, whole.len() as int);
    assert(whole_digits(text) =~= whole);
    assert(fraction_digits(text) =~= seq![
        digit_char((cents / 10 % 10) as int),
        digit_char((cents % 10) as int),
    ]);
}

/// One decimal digit as a text.
fn digit_str(d: u64) -> (text: &'static str)
    requires
        d < 10,
    ensures
        text@ == seq![digit_char(d as int)],
{
    proof {
        reveal_strlit("0");
        reveal_strlit("1");
        reveal_strlit("2");
        reveal_strlit("3");
        reveal_strlit("4");
        reveal_strlit("5");
        reveal_strlit("6");
        reveal_strlit("7");
        reveal_strlit("8");
        reveal_strlit("9");
    }
    if d == 0 {
        "0"
    } else if d == 1 {
        "1"
    } else if d == 2 {
        "2"
    } else if d == 3 {
        "3"
    } else if d == 4 {
        "4"
    } else if d == 5 {
        "5"
    } else if d == 6 {
        "6"
    } else if d == 7 {
        "7"
    } else if d == 8 {
        "8"
    } else {
        "9"
    }
}

/// Appends a number in decimal.
fn push_decimal(out: &mut String, n: u64)
    ensures
        final(out)@ == old(out)@ + decimal_text(n as nat),
    decreases n,
{
    if n >= 10 {
        push_decimal(out, n / 10);
    }
    out.append(digit_str(n % 10));
}

/// Writes an amount of cents as dollars with two decimals.
pub fn format_usd(cents: u64) -> (text: String)
    ensures
        text@ == usd_text(cents as nat),
{
    let mut text = String::new();
    push_decimal(&mut text, cents / 100);
    text.append(".");
    text.append(digit_str(cents / 10 % 10));
    text.append(digit_str(cents % 10));
    proof {
        reveal_strlit(".");
    }
    text
}

/// The notification for a move of `symbol` to `cents`, if the move calls for one.
pub fn price_notice(symbol: &str, delta: PriceDelta, cents: u64) -> (notice: Option<String>)
    ensures
        match notice {
            Some(text) => notice_text(symbol@, delta, cents as nat) == Some(text@),
            None => notice_text(symbol@, delta, cents as nat) is None,
        },
{
    match delta {
        PriceDelta::Unchanged => None,
        PriceDelta::Up => {
            let mut text = String::from_str(symbol);
            text.append(" price is UP to $");
            text.append(format_usd(cents).as_str());
            Some(text)
        },
        PriceDelta::Down => {
            let mut text = String::from_str(symbol);
            text.append(" price is DOWN to $");
            text.append(format_usd(cents).as_str());
            Some(text)
        },
    }
}

/// What is sent once at startup.
pub fn greeting() -> (text: String)
    ensures
        text@ == "✓ - Hello!"@,
{
    String::from_str("✓ - Hello!")
}

/// What is sent when a cycle could not be completed.
pub fn failure_notice() -> (text: String)
    ensures
        text@ == "✗ - Error in processing update."@,
{
    String::from_str("✗ - Error in processing update.")
}

} // verus!
