//! Text output: a text becomes the firmware calls that write it to the
//! console, one for each character.

use crate::sbi::{console_putchar, putchar_call, SbiCall};
use vstd::prelude::*;

verus! {

/// The firmware calls that write `text`: one call for each character, in
/// order, with the character's code point as its argument.
pub open spec fn print_calls(text: Seq<char>) -> Seq<SbiCall> {
    Seq::new(text.len(), |i: int| putchar_call(text[i] as usize))
}

/// Builds the firmware calls that write `text` to the console.
pub fn print(text: &str) -> (calls: Vec<SbiCall>)
    ensures
        calls@ == print_calls(text@),
{
    let mut calls: Vec<SbiCall> = Vec::new();
    for c in chars: text.chars()
        invariant
            chars.seq() == text@,
            calls@ == print_calls(text@.take(chars.index())),
    {
        proof {
            assert(print_calls(text@.take(chars.index() + 1)) =~= print_calls(
                text@.take(chars.index()),
            ).push(putchar_call(c as usize)));
        }
        calls.push(console_putchar(c as usize));
    }
    proof {
        assert(text@.take(text@.len() as int) =~= text@);
    }
    calls
}

} // verus!
