//! The text of the lookup error: the requested offset in decimal, framed by
//! fixed words.

use vstd::prelude::*;
use vstd::string::*;

verus! {

/// The character that stands for the digit `d` (below ten).
pub open spec fn digit(d: nat) -> char {
    if d == 0 {
        '0'
    } else if d == 1 {
        '1'
    } else if d == 2 {
        '2'
    } else if d == 3 {
        '3'
    } else if d == 4 {
        '4'
    } else if d == 5 {
        '5'
    } else if d == 6 {
        '6'
    } else if d == 7 {
        '7'
    } else if d == 8 {
        '8'
    } else {
        '9'
    }
}

/// `n` written in decimal, most significant digit first, without leading
/// zeros (`0` itself is one digit).
pub open spec fn decimal(n: nat) -> Seq<char>
    decreases n,
{
    if n < 10 {
        seq![digit(n)]
    } else {
        decimal(n / 10).push(digit(n % 10))
    }
}

/// The message of a lookup that found nothing at `offset`.
pub open spec fn not_found_text(offset: nat) -> Seq<char> {
    "Offset "@ + decimal(offset) + " not found"@
}

/// Every number is written with at least one digit.
pub proof fn lemma_decimal_has_digits(n: nat)
    ensures
        decimal(n).len() >= 1,
{
}

/// Different numbers are written differently.
pub proof fn lemma_decimal_tells_numbers_apart(a: nat, b: nat)
    requires
        decimal(a) == decimal(b),
    ensures
        a == b,
    decreases a,
{
    if a >= 10 && b >= 10 {
        assert(decimal(a).drop_last() == decimal(a / 10));
        assert(decimal(b).drop_last() == decimal(b / 10));
        assert(decimal(a).last() == digit(a % 10));
        assert(decimal(b).last() == digit(b % 10));
        lemma_decimal_tells_numbers_apart(a / 10, b / 10);
    } else if a < 10 && b < 10 {
        assert(decimal(a)[0] == digit(a));
        assert(decimal(b)[0] == digit(b));
    } else if a < 10 {
        lemma_decimal_has_digits(b / 10);
        assert(decimal(b).len() == decimal(b / 10).len() + 1);
        assert(decimal(a).len() != decimal(b).len());
    } else {
        lemma_decimal_has_digits(a / 10);
        assert(decimal(a).len() == decimal(a / 10).len() + 1);
        assert(decimal(a).len() != decimal(b).len());
    }
}

/// The message names its offset: two lookups that failed with the same
/// message asked for the same offset.
pub proof fn lemma_message_names_one_offset(a: nat, b: nat)
    requires
        not_found_text(a) == not_found_text(b),
    ensures
        a == b,
{
    let head = "Offset "@;
    let tail = " not found"@;
    let whole = not_found_text(a);
    assert(whole.len() == head.len() + decimal(a).len() + tail.len());
    assert(whole.len() == head.len() + decimal(b).len() + tail.len());
    let middle = whole.subrange(head.len() as int, (head.len() + decimal(a).len()) as int);
    assert(middle == decimal(a));
    assert(middle == decimal(b));
    lemma_decimal_tells_numbers_apart(a, b);
}

/// The one-character text of the digit `d`.
fn digit_text(d: usize) -> (text: &'static str)
    requires
        d < 10,
    ensures
        text@ == seq![digit(d as nat)],
{
    proof {
        reveal_strlit("0");
        reveal_strlit("1");
        reveal_strlit("2");
        reveal_strlit("3");
        reveal_strlit("4");
        reveal_strlit("5");
        reveal_strlit("6");
        reveal_strlit("7");
        reveal_strlit("8");
        reveal_strlit("9");
    }
    if d == 0 {
        "0"
    } else if d == 1 {
        "1"
    } else if d == 2 {
        "2"
    } else if d == 3 {
        "3"
    } else if d == 4 {
        "4"
    } else if d == 5 {
        "5"
    } else if d == 6 {
        "6"
    } else if d == 7 {
        "7"
    } else if d == 8 {
        "8"
    } else {
        "9"
    }
}

/// Appends `n` in decimal to `text`.
fn push_decimal(text: &mut String, n: usize)
    ensures
        final(text)@ == old(text)@ + decimal(n as nat),
    decreases n,
{
    if n >= 10 {
        push_decimal(text, n / 10);
    }
    text.append(digit_text(n % 10));
}

/// The message of a lookup that found nothing at `offset`.
pub fn not_found_message(offset: usize) -> (message: String)
    ensures
        message@ == not_found_text(offset as nat),
{
    let mut message = String::from_str("Offset ");
    push_decimal(&mut message, offset);
    message.append(" not found");
    message
}

} // verus!
