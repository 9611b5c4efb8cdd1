//! Decimal digits: numbers as text and text as numbers.

use vstd::prelude::*;
use vstd::arithmetic::div_mod::lemma_breakdown;
use vstd::arithmetic::div_mod::lemma_small_mod;
use vstd::arithmetic::power::lemma_pow0;
use vstd::arithmetic::power::lemma_pow1;
use vstd::arithmetic::power::lemma_pow_adds;
use vstd::arithmetic::power::lemma_pow_positive;
use vstd::arithmetic::power::pow;

verus! {

/// `String::push` of the standard library. Not proved here: it appends the
/// character to the end of the string and changes nothing else.
pub assume_specification[ String::push ](s: &mut String, c: char)
    ensures
        final(s)@ == old(s)@.push(c),
;

/// The character that shows the digit `d`.
pub open spec fn digit_char(d: int) -> char {
    if d == 0 {
        '0'
    } else if d == 1 {
        '1'
    } else if d == 2 {
        '2'
    } else if d == 3 {
        '3'
    } else if d == 4 {
        '4'
    } else if d == 5 {
        '5'
    } else if d == 6 {
        '6'
    } else if d == 7 {
        '7'
    } else if d == 8 {
        '8'
    } else {
        '9'
    }
}

/// Whether `c` is one of the ten decimal digits.
pub open spec fn is_digit(c: char) -> bool {
    '0' <= c <= '9'
}

/// The digit that `c` shows.
pub open spec fn digit_value(c: char) -> int {
    c as int - '0' as int
}

/// The last `width` decimal digits of `n`, with leading zeros.
pub open spec fn padded(n: nat, width: nat) -> Seq<char>
    decreases width,
{
    if width == 0 {
        Seq::empty()
    } else {
        padded(n / 10, (width - 1) as nat).push(digit_char((n % 10) as int))
    }
}

/// The decimal digits of `n`, without leading zeros.
pub open spec fn decimal(n: nat) -> Seq<char>
    decreases n,
{
    if n < 10 {
        seq![digit_char(n as int)]
    } else {
        decimal(n / 10).push(digit_char((n % 10) as int))
    }
}

/// The number that a run of decimal digits shows.
pub open spec fn digits_value(s: Seq<char>) -> int
    decreases s.len(),
{
    if s.len() == 0 {
        0
    } else {
        10 * digits_value(s.drop_last()) + digit_value(s.last())
    }
}

/// Whether `s` holds decimal digits only.
pub open spec fn all_digits(s: Seq<char>) -> bool {
    forall|i: int| 0 <= i < s.len() ==> is_digit(#[trigger] s[i])
}

/// Appending a digit to a run of digits multiplies its value by ten and adds
/// the digit.
pub proof fn lemma_digits_value_push(s: Seq<char>, c: char)
    ensures
        digits_value(s.push(c)) == 10 * digits_value(s) + digit_value(c),
{
    assert(s.push(c).drop_last() =~= s);
}

/// A run of digits has a value of zero or more.
pub proof fn lemma_digits_value_nonnegative(s: Seq<char>)
    requires
        all_digits(s),
    ensures
        digits_value(s) >= 0,
    decreases s.len(),
{
    if s.len() > 0 {
        lemma_digits_value_nonnegative(s.drop_last());
    }
}

/// The digits written for a number are decimal digits that show that number.
pub proof fn lemma_decimal_shows(n: nat)
    ensures
        decimal(n).len() >= 1,
        all_digits(decimal(n)),
        digits_value(decimal(n)) == n,
    decreases n,
{
    if n < 10 {
        assert(digits_value(decimal(n).drop_last()) == 0);
    } else {
        lemma_decimal_shows(n / 10);
        let head = decimal(n / 10);
        let last = digit_char((n % 10) as int);
        assert(head.push(last).drop_last() =~= head);
    }
}

/// A number padded to a width is written in exactly that many decimal
/// digits, which show the number as far as the width reaches: all of it
/// where it is less than ten to the power of the width.
pub proof fn lemma_padded_shows(n: nat, width: nat)
    ensures
        padded(n, width).len() == width,
        all_digits(padded(n, width)),
        digits_value(padded(n, width)) == n % pow(10, width) as nat,
        n < pow(10, width) ==> digits_value(padded(n, width)) == n,
    decreases width,
{
    if n < pow(10, width) {
        lemma_small_mod(n, pow(10, width) as nat);
    }
    if width == 0 {
        lemma_pow0(10);
    } else {
        let w = (width - 1) as nat;
        lemma_padded_shows(n / 10, w);
        let head = padded(n / 10, w);
        let last = digit_char((n % 10) as int);
        assert(head.push(last).drop_last() =~= head);
        lemma_pow_adds(10, 1, w);
        lemma_pow1(10);
        lemma_pow_positive(10, w);
        lemma_breakdown(n as int, 10, pow(10, w));
    }
}

/// A run of digits followed by three more shows a thousand times its own
/// value and the value of the three.
pub proof fn lemma_digits_value_append3(head: Seq<char>, tail: Seq<char>)
    requires
        tail.len() == 3,
    ensures
        digits_value(head + tail) == 1000 * digits_value(head) + digits_value(tail),
{
    let none = Seq::<char>::empty();
    assert(head + tail =~= head.push(tail[0]).push(tail[1]).push(tail[2]));
    assert(tail =~= none.push(tail[0]).push(tail[1]).push(tail[2]));
    lemma_digits_value_push(head, tail[0]);
    lemma_digits_value_push(head.push(tail[0]), tail[1]);
    lemma_digits_value_push(head.push(tail[0]).push(tail[1]), tail[2]);
    lemma_digits_value_push(none, tail[0]);
    lemma_digits_value_push(none.push(tail[0]), tail[1]);
    lemma_digits_value_push(none.push(tail[0]).push(tail[1]), tail[2]);
}

/// The character of a digit.
pub fn digit_to_char(d: u8) -> (c: char)
    requires
        d < 10,
    ensures
        c == digit_char(d as int),
        is_digit(c),
        digit_value(c) == d,
{
    match d {
        0 => '0',
        1 => '1',
        2 => '2',
        3 => '3',
        4 => '4',
        5 => '5',
        6 => '6',
        7 => '7',
        8 => '8',
        _ => '9',
    }
}

/// Appends the decimal digits of `n`.
pub fn push_decimal(out: &mut String, n: u64)
    ensures
        final(out)@ == old(out)@ + decimal(n as nat),
    decreases n,
{
    if n >= 10 {
        push_decimal(out, n / 10);
    }
    out.push(digit_to_char((n % 10) as u8));
}

/// Appends the last three decimal digits of `n`, with leading zeros.
pub fn push_padded3(out: &mut String, n: u64)
    ensures
        final(out)@ == old(out)@ + padded(n as nat, 3),
{
    out.push(digit_to_char(((n / 100) % 10) as u8));
    out.push(digit_to_char(((n / 10) % 10) as u8));
    out.push(digit_to_char((n % 10) as u8));
    proof {
        reveal_with_fuel(padded, 4);
        let m = n as nat;
        assert(padded(m, 3) =~= seq![
            digit_char((m / 100 % 10) as int),
            digit_char((m / 10 % 10) as int),
            digit_char((m % 10) as int),
        ]);
    }
}

} // verus!
