//! Points, sizes and rectangles on a screen.
use vstd::prelude::*;

verus! {

#[derive(Debug, Clone, Copy, PartialEq, Eq, Structural)]
pub struct Size {
    pub w: usize,
    pub h: usize,
}

#[derive(Debug, Clone, Copy, PartialEq, Eq, Structural)]
pub struct Pos {
    pub x: usize,
    pub y: usize,
}

impl From<(usize, usize)> for Pos {
    fn from(p: (usize, usize)) -> (r: Pos) {
        Pos { x: p.0, y: p.1 }
    }
}

impl vstd::std_specs::convert::FromSpecImpl<(usize, usize)> for Pos {
    open spec fn obeys_from_spec() -> bool {
        true
    }

    open spec fn from_spec(p: (usize, usize)) -> Pos {
        Pos { x: p.0, y: p.1 }
    }
}

#[derive(Debug, Clone, Copy, PartialEq, Eq, Structural)]
pub struct Rect {
    pub pos: Pos,
    pub size: Size,
}

impl Rect {
    /// The rectangle from corner `a` to corner `b`, which lies below and to
    /// the right of `a`.
    pub fn two_pos(a: Pos, b: Pos) -> (r: Rect)
        requires
            a.x <= b.x,
            a.y <= b.y,
        ensures
            r == (Rect { pos: a, size: Size { w: (b.x - a.x) as usize, h: (b.y - a.y) as usize } }),
    {
        Rect { pos: a, size: Size { w: b.x - a.x, h: b.y - a.y } }
    }

    /// The top-left and bottom-right corners.
    pub fn as_two_pos(&self) -> (r: (Pos, Pos))
        requires
            self.pos.x + self.size.w <= usize::MAX,
            self.pos.y + self.size.h <= usize::MAX,
        ensures
            r.0 == self.pos,
            r.1 == (Pos { x: (self.pos.x + self.size.w) as usize, y: (self.pos.y + self.size.h) as usize }),
    {
        let a = self.pos;
        let b = Pos { x: a.x + self.size.w, y: a.y + self.size.h };
        (a, b)
    }
}

} // verus!
