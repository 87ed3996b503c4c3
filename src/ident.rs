//! Short identifiers: `a` to `z`, `A` to `Z`, then `ba`, `bb`, and so on.
use vstd::prelude::*;

use crate::text::push_char;

verus! {

/// The letter for digit `d` (below 52): `a` to `z`, then `A` to `Z`.
pub open spec fn ident_letter(d: nat) -> char {
    if d < 26 {
        ((97 + d) as u8) as char
    } else {
        ((65 + d - 26) as u8) as char
    }
}

/// The `n`th identifier: `n` written in base 52 with the digits of
/// `ident_letter`, most significant first.
pub open spec fn ident_of(n: nat) -> Seq<char>
    decreases n,
{
    if n < 52 {
        seq![ident_letter(n)]
    } else {
        ident_of(n / 52).push(ident_letter(n % 52))
    }
}

fn letter(d: usize) -> (c: char)
    requires
        d < 52,
    ensures
        c == ident_letter(d as nat),
{
    if d < 26 {
        (97 + d as u8) as char
    } else {
        (65 + (d - 26) as u8) as char
    }
}

fn write_ident(n: usize, out: &mut String)
    ensures
        final(out)@ == old(out)@ + ident_of(n as nat),
    decreases n,
{
    if n >= 52 {
        write_ident(n / 52, out);
    }
    push_char(out, letter(n % 52));
    assert(final(out)@ =~= old(out)@ + ident_of(n as nat));
}

/// Hands out identifiers in order, from `a` on.
pub struct MinifiedIdent {
    n: usize,
}

impl MinifiedIdent {
    /// How many identifiers have been handed out.
    pub closed spec fn count(&self) -> nat {
        self.n as nat
    }

    pub fn new() -> (r: Self)
        ensures
            r.count() == 0,
    {
        MinifiedIdent { n: 0 }
    }

    /// The next identifier.
    pub fn next(&mut self) -> (r: Option<String>)
        requires
            old(self).count() < usize::MAX,
        ensures
            r matches Some(s) && s@ == ident_of(old(self).count()),
            final(self).count() == old(self).count() + 1,
    {
        let mut s = String::new();
        write_ident(self.n, &mut s);
        self.n = self.n + 1;
        Some(s)
    }
}

} // verus!
