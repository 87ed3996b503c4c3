//! RGBA colours.
use vstd::prelude::*;

use crate::text::{lower_hex_char, lower_hex_digit, push_char};

verus! {

#[derive(Debug, Clone, Copy, PartialEq, Eq, Structural)]
pub struct Color {
    pub r: u8,
    pub g: u8,
    pub b: u8,
    pub a: u8,
}

/// A byte as two lower-case hex digits.
pub open spec fn hex_pair(x: u8) -> Seq<char> {
    seq![lower_hex_digit((x / 16) as nat), lower_hex_digit((x % 16) as nat)]
}

/// `#rrggbbaa` in lower-case hex.
pub open spec fn color_code_of(c: Color) -> Seq<char> {
    seq!['#'] + hex_pair(c.r) + hex_pair(c.g) + hex_pair(c.b) + hex_pair(c.a)
}

fn push_hex_pair(s: &mut String, x: u8)
    ensures
        final(s)@ == old(s)@ + hex_pair(x),
{
    push_char(s, lower_hex_char(x / 16));
    push_char(s, lower_hex_char(x % 16));
    assert(final(s)@ =~= old(s)@ + hex_pair(x));
}

impl From<(u8, u8, u8)> for Color {
    fn from(c: (u8, u8, u8)) -> (r: Color) {
        Color::rgb(c.0, c.1, c.2)
    }
}

impl vstd::std_specs::convert::FromSpecImpl<(u8, u8, u8)> for Color {
    open spec fn obeys_from_spec() -> bool {
        true
    }

    open spec fn from_spec(c: (u8, u8, u8)) -> Color {
        Color { r: c.0, g: c.1, b: c.2, a: 255 }
    }
}

impl Color {
    /// An opaque colour.
    pub fn rgb(r: u8, g: u8, b: u8) -> (c: Self)
        ensures
            c == (Color { r, g, b, a: 255 }),
    {
        Color { r, g, b, a: 255 }
    }

    /// The colour as `#rrggbbaa`, in lower-case hex.
    pub fn color_code(&self) -> (s: String)
        ensures
            s@ == color_code_of(*self),
    {
        let mut s = String::new();
        push_char(&mut s, '#');
        push_hex_pair(&mut s, self.r);
        push_hex_pair(&mut s, self.g);
        push_hex_pair(&mut s, self.b);
        push_hex_pair(&mut s, self.a);
        assert(s@ =~= color_code_of(*self));
        s
    }
}

} // verus!
