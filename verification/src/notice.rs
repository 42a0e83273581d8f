//! The lines that tell a person what an operation did.
//!
//! They are for people to read: nothing parses them back.

use vstd::prelude::*;
use vstd::string::StringExecFns;

verus! {

/// The character for a decimal digit.
pub open spec fn digit(d: nat) -> char {
    if d == 0 {
        '0'
    } else if d == 1 {
        '1'
    } else if d == 2 {
        '2'
    } else if d == 3 {
        '3'
    } else if d == 4 {
        '4'
    } else if d == 5 {
        '5'
    } else if d == 6 {
        '6'
    } else if d == 7 {
        '7'
    } else if d == 8 {
        '8'
    } else {
        '9'
    }
}

/// A number in decimal, without sign or leading zeros.
pub open spec fn decimal(n: nat) -> Seq<char>
    decreases n,
{
    if n < 10 {
        seq![digit(n)]
    } else {
        decimal(n / 10).push(digit(n % 10))
    }
}

/// The line for a created invoice of `amount` units.
pub open spec fn created_notice(amount: u64) -> Seq<char> {
    "Invoice created with amount "@ + decimal(amount as nat) + " lamports"@
}

/// The line for a payment of `amount` units.
pub open spec fn paid_notice(amount: u64) -> Seq<char> {
    "Payment processed for "@ + decimal(amount as nat) + " lamports"@
}

/// The one-character text of a decimal digit.
fn digit_text(d: u64) -> (text: &'static str)
    requires
        d < 10,
    ensures
        text@ == seq![digit(d as nat)],
{
    proof {
        reveal_strlit("0");
        reveal_strlit("1");
        reveal_strlit("2");
        reveal_strlit("3");
        reveal_strlit("4");
        reveal_strlit("5");
        reveal_strlit("6");
        reveal_strlit("7");
        reveal_strlit("8");
        reveal_strlit("9");
    }
    let text = if d == 0 {
        "0"
    } else if d == 1 {
        "1"
    } else if d == 2 {
        "2"
    } else if d == 3 {
        "3"
    } else if d == 4 {
        "4"
    } else if d == 5 {
        "5"
    } else if d == 6 {
        "6"
    } else if d == 7 {
        "7"
    } else if d == 8 {
        "8"
    } else {
        "9"
    };
    assert(text@ =~= seq![digit(d as nat)]);
    text
}

/// Appends `n` in decimal to `out`.
fn push_decimal(out: &mut String, n: u64)
    ensures
        final(out)@ == old(out)@ + decimal(n as nat),
    decreases n,
{
    if n >= 10 {
        push_decimal(out, n / 10);
    }
    out.append(digit_text(n % 10));
    assert(out@ =~= old(out)@ + decimal(n as nat));
}

/// The line that reports a created invoice of `amount` units.
pub fn invoice_created_notice(amount: u64) -> (line: String)
    ensures
        line@ == created_notice(amount),
{
    let mut line = String::from_str("Invoice created with amount ");
    push_decimal(&mut line, amount);
    line.append(" lamports");
    line
}

/// The line that reports a payment of `amount` units.
pub fn payment_processed_notice(amount: u64) -> (line: String)
    ensures
        line@ == paid_notice(amount),
{
    let mut line = String::from_str("Payment processed for ");
    push_decimal(&mut line, amount);
    line.append(" lamports");
    line
}

} // verus!
