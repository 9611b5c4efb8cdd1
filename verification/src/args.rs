//! From the flags of the command line to the input type.

use vstd::prelude::*;
use crate::types::InputType;

verus! {

/// The one-letter name of the flag at place `i` of the six: `s`, `m`, `u`,
/// `n`, `d`, `t`.
pub open spec fn flag_letter(i: int) -> Seq<char> {
    if i == 0 {
        seq!['s']
    } else if i == 1 {
        seq!['m']
    } else if i == 2 {
        seq!['u']
    } else if i == 3 {
        seq!['n']
    } else if i == 4 {
        seq!['d']
    } else {
        seq!['t']
    }
}

/// The input type that six flags select: that of the first flag that is
/// set, seconds where none is.
pub open spec fn selected_type(flags: Seq<bool>) -> InputType {
    if flags[0] {
        InputType::Seconds
    } else if flags[1] {
        InputType::Millis
    } else if flags[2] {
        InputType::Micros
    } else if flags[3] {
        InputType::Nanos
    } else if flags[4] {
        InputType::Discord
    } else if flags[5] {
        InputType::Twitter
    } else {
        InputType::Seconds
    }
}

/// The input type of the flag at place `i` of the six.
pub open spec fn flag_type(i: int) -> InputType {
    if i == 0 {
        InputType::Seconds
    } else if i == 1 {
        InputType::Millis
    } else if i == 2 {
        InputType::Micros
    } else if i == 3 {
        InputType::Nanos
    } else if i == 4 {
        InputType::Discord
    } else {
        InputType::Twitter
    }
}

/// Each flag's one-letter name stands for that flag's input type.
pub proof fn lemma_flag_letters(i: int)
    requires
        0 <= i < 6,
    ensures
        InputType::of_letter(flag_letter(i)) == Some(flag_type(i)),
{
    assert(seq!['s'][0] == 's');
    assert(seq!['m'][0] == 'm');
    assert(seq!['u'][0] == 'u');
    assert(seq!['n'][0] == 'n');
    assert(seq!['d'][0] == 'd');
    assert(seq!['t'][0] == 't');
}

/// The one-letter name of the flag at place `i`.
fn letter_at(i: usize) -> (letter: &'static str)
    requires
        i < 6,
    ensures
        letter@ == flag_letter(i as int),
{
    proof {
        reveal_strlit("s");
        reveal_strlit("m");
        reveal_strlit("u");
        reveal_strlit("n");
        reveal_strlit("d");
        reveal_strlit("t");
    }
    match i {
        0 => "s",
        1 => "m",
        2 => "u",
        3 => "n",
        4 => "d",
        _ => "t",
    }
}

/// The input type that the flags select: that of the first flag that is
/// set, in the order seconds, milliseconds, microseconds, nanoseconds,
/// Discord, Twitter; seconds where none is set.
pub fn find_input_type(flags: &[bool; 6]) -> (t: InputType)
    ensures
        t == selected_type(flags@),
{
    let mut i: usize = 0;
    while i < 6
        invariant
            i <= 6,
            forall|j: int| 0 <= j < i ==> !#[trigger] flags@[j],
        decreases 6 - i,
    {
        if flags[i] {
            let letter = letter_at(i);
            proof {
                lemma_flag_letters(i as int);
            }
            return InputType::from_letter(letter);
        }
        i += 1;
    }
    InputType::default()
}

} // verus!
