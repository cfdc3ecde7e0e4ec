//! Decimal text of an id, and the messages that name a record by its id.

use vstd::prelude::*;

verus! {

/// The character that writes the digit `d`.
pub open spec fn digit_char(d: int) -> char {
    if d == 0 {
        '0'
    } else if d == 1 {
        '1'
    } else if d == 2 {
        '2'
    } else if d == 3 {
        '3'
    } else if d == 4 {
        '4'
    } else if d == 5 {
        '5'
    } else if d == 6 {
        '6'
    } else if d == 7 {
        '7'
    } else if d == 8 {
        '8'
    } else {
        '9'
    }
}

/// The digits of a natural number in base ten, most significant first, with
/// no leading zero; zero is written "0".
pub open spec fn decimal_nat(n: nat) -> Seq<char>
    decreases n,
{
    if n < 10 {
        seq![digit_char(n as int)]
    } else {
        decimal_nat(n / 10).push(digit_char((n % 10) as int))
    }
}

/// An integer in base ten, with a leading minus sign below zero.
pub open spec fn decimal(n: int) -> Seq<char> {
    if n < 0 {
        seq!['-'] + decimal_nat((-n) as nat)
    } else {
        decimal_nat(n as nat)
    }
}

/// The text that reports that no record has the id `id`.
pub open spec fn not_found_text(id: int) -> Seq<char> {
    "no record with id "@ + decimal(id)
}

/// The text that reports that the record with the id `id` is there but does
/// not have the form of a contact.
pub open spec fn unreadable_row_text(id: int) -> Seq<char> {
    "unreadable record with id "@ + decimal(id)
}

/// The text of one digit.
fn digit_text(d: u32) -> (text: &'static str)
    requires
        d < 10,
    ensures
        text@ == seq![digit_char(d as int)],
{
    proof {
        reveal_strlit("0");
        reveal_strlit("1");
        reveal_strlit("2");
        reveal_strlit("3");
        reveal_strlit("4");
        reveal_strlit("5");
        reveal_strlit("6");
        reveal_strlit("7");
        reveal_strlit("8");
        reveal_strlit("9");
    }
    let text: &'static str = if d == 0 {
        "0"
    } else if d == 1 {
        "1"
    } else if d == 2 {
        "2"
    } else if d == 3 {
        "3"
    } else if d == 4 {
        "4"
    } else if d == 5 {
        "5"
    } else if d == 6 {
        "6"
    } else if d == 7 {
        "7"
    } else if d == 8 {
        "8"
    } else {
        "9"
    };
    assert(text@ =~= seq![digit_char(d as int)]);
    text
}

/// Appends the decimal digits of `n` to `out`.
fn push_decimal_nat(out: &mut String, n: u32)
    ensures
        final(out)@ == old(out)@ + decimal_nat(n as nat),
    decreases n,
{
    if n < 10 {
        out.append(digit_text(n));
    } else {
        push_decimal_nat(out, n / 10);
        out.append(digit_text(n % 10));
        assert(old(out)@ + decimal_nat((n / 10) as nat) + seq![digit_char((n % 10) as int)]
            =~= old(out)@ + decimal_nat(n as nat));
    }
}

/// Appends the decimal text of `n`, sign included, to `out`.
fn push_decimal(out: &mut String, n: i32)
    ensures
        final(out)@ == old(out)@ + decimal(n as int),
{
    if n < 0 {
        proof {
            reveal_strlit("-");
        }
        out.append("-");
        let magnitude: u32 = (-(n as i64)) as u32;
        push_decimal_nat(out, magnitude);
        assert(old(out)@ + "-"@ + decimal_nat(magnitude as nat) =~= old(out)@ + decimal(n as int));
    } else {
        push_decimal_nat(out, n as u32);
    }
}

/// The message of a lookup that found no row: "no record with id " and the id
/// in decimal.
pub fn not_found_message(id: i32) -> (message: String)
    ensures
        message@ == not_found_text(id as int),
{
    let mut message = "no record with id ".to_owned();
    push_decimal(&mut message, id);
    message
}

/// The message of a lookup whose row cannot be read as a contact:
/// "unreadable record with id " and the id in decimal.
pub fn unreadable_row_message(id: i32) -> (message: String)
    ensures
        message@ == unreadable_row_text(id as int),
{
    let mut message = "unreadable record with id ".to_owned();
    push_decimal(&mut message, id);
    message
}

} // verus!
