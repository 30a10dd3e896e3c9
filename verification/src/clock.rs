//! Times as the window shows them: minutes, a colon, two digits of seconds.

use vstd::prelude::*;

verus! {

/// The character that stands for the decimal digit `d`.
pub open spec fn digit_char(d: nat) -> char
    recommends
        d < 10,
{
    if d == 0 {
        '0'
    } else if d == 1 {
        '1'
    } else if d == 2 {
        '2'
    } else if d == 3 {
        '3'
    } else if d == 4 {
        '4'
    } else if d == 5 {
        '5'
    } else if d == 6 {
        '6'
    } else if d == 7 {
        '7'
    } else if d == 8 {
        '8'
    } else {
        '9'
    }
}

/// `n` in decimal, without leading zeros.
pub open spec fn decimal(n: nat) -> Seq<char>
    decreases n,
{
    if n < 10 {
        seq![digit_char(n)]
    } else {
        decimal(n / 10).push(digit_char(n % 10))
    }
}

/// A time of `millis` milliseconds as text: the whole minutes in decimal,
/// a colon, and the remaining whole seconds in two digits.
pub open spec fn clock_text(millis: nat) -> Seq<char> {
    let seconds = millis / 1000;
    decimal(seconds / 60) + seq![':', digit_char((seconds % 60) / 10), digit_char((seconds % 60) % 10)]
}

fn digit(d: u128) -> (c: char)
    requires
        d < 10,
    ensures
        c == digit_char(d as nat),
{
    if d == 0 {
        '0'
    } else if d == 1 {
        '1'
    } else if d == 2 {
        '2'
    } else if d == 3 {
        '3'
    } else if d == 4 {
        '4'
    } else if d == 5 {
        '5'
    } else if d == 6 {
        '6'
    } else if d == 7 {
        '7'
    } else if d == 8 {
        '8'
    } else {
        '9'
    }
}

fn push_decimal(text: &mut String, n: u128)
    ensures
        final(text)@ == old(text)@ + decimal(n as nat),
    decreases n,
{
    if n >= 10 {
        push_decimal(text, n / 10);
    }
    text.push(digit(n % 10));
}

/// Formats a time in milliseconds for the elapsed and total labels.
///
/// Fractions of a second are dropped; the minutes are not folded into hours.
pub fn millis_to_minutes(millis: u128) -> (text: String)
    ensures
        text@ == clock_text(millis as nat),
{
    let seconds: u128 = millis / 1000;
    let minutes: u128 = seconds / 60;
    let seconds: u128 = seconds % 60;
    let mut text = String::new();
    push_decimal(&mut text, minutes);
    text.push(':');
    text.push(digit(seconds / 10));
    text.push(digit(seconds % 10));
    text
}

} // verus!
