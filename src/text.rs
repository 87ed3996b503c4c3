//! Building strings one character at a time.
use vstd::prelude::*;

verus! {

/// Relies on `String::push`: appends `c` to the end of `s`.
#[verifier::external_body]
pub(crate) fn push_char(s: &mut String, c: char)
    ensures
        final(s)@ == old(s)@.push(c),
{
    s.push(c)
}

/// The lower-case hex digit for `d` (below 16).
pub open spec fn lower_hex_digit(d: nat) -> char {
    if d < 10 {
        ((48 + d) as u8) as char
    } else {
        ((87 + d) as u8) as char
    }
}

pub(crate) fn lower_hex_char(d: u8) -> (c: char)
    requires
        d < 16,
    ensures
        c == lower_hex_digit(d as nat),
{
    if d < 10 {
        (48 + d) as char
    } else {
        (87 + d) as char
    }
}

} // verus!
