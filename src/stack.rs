//! The hardware call stack: eight 16-bit return addresses.
use vstd::prelude::*;

verus! {

/// Depth of the hardware call stack.
pub const STACK_DEPTH: usize = 8;

/// Declares `arrayvec::ArrayVec`, the fixed-capacity vector that holds the
/// stack, as an opaque type.
#[verifier::external_type_specification]
#[verifier::external_body]
#[verifier::reject_recursive_types(T)]
pub struct ExArrayVec<T, const CAP: usize>(arrayvec::ArrayVec<T, CAP>);

/// The items of an `ArrayVec`, in the order they were pushed; the wrappers
/// below say how each call changes them.
pub uninterp spec fn stack_items(s: arrayvec::ArrayVec<u16, 8>) -> Seq<u16>;

/// Relies on `arrayvec::ArrayVec::new`: the new vector is empty.
#[verifier::external_body]
fn array_vec_new() -> (r: arrayvec::ArrayVec<u16, 8>)
    ensures
        stack_items(r) == Seq::<u16>::empty(),
{
    arrayvec::ArrayVec::new()
}

/// Relies on `arrayvec::ArrayVec::try_push`: below capacity the item is
/// appended and `Ok` returned; at capacity nothing changes and `Err` returned.
#[verifier::external_body]
fn array_vec_try_push(s: &mut arrayvec::ArrayVec<u16, 8>, v: u16) -> (r: bool)
    ensures
        stack_items(*old(s)).len() < 8 ==> r && stack_items(*final(s)) == stack_items(*old(s)).push(v),
        stack_items(*old(s)).len() >= 8 ==> !r && stack_items(*final(s)) == stack_items(*old(s)),
{
    s.try_push(v).is_ok()
}

/// Relies on `arrayvec::ArrayVec::pop`: the last item is removed and
/// returned; an empty vector gives `None` and stays empty.
#[verifier::external_body]
fn array_vec_pop(s: &mut arrayvec::ArrayVec<u16, 8>) -> (r: Option<u16>)
    ensures
        stack_items(*old(s)).len() == 0 ==> r is None && stack_items(*final(s)) == stack_items(*old(s)),
        stack_items(*old(s)).len() > 0 ==> r == Some(stack_items(*old(s)).last())
            && stack_items(*final(s)) == stack_items(*old(s)).drop_last(),
{
    s.pop()
}

/// Relies on `arrayvec::ArrayVec::as_slice`: the items, bottom first.
#[verifier::external_body]
fn array_vec_as_slice(s: &arrayvec::ArrayVec<u16, 8>) -> (r: &[u16])
    ensures
        r@ == stack_items(*s),
{
    s.as_slice()
}

/// A bounded stack of return addresses.
pub struct CallStack {
    items: arrayvec::ArrayVec<u16, 8>,
}

impl View for CallStack {
    type V = Seq<u16>;

    closed spec fn view(&self) -> Seq<u16> {
        stack_items(self.items)
    }
}

impl CallStack {
    pub fn new() -> (r: Self)
        ensures
            r@ == Seq::<u16>::empty(),
    {
        CallStack { items: array_vec_new() }
    }

    pub fn len(&self) -> (r: usize)
        ensures
            r == self@.len(),
    {
        self.as_slice().len()
    }

    /// Pushes `v`; `false`, and nothing changed, when the stack is full.
    pub fn try_push(&mut self, v: u16) -> (r: bool)
        ensures
            old(self)@.len() < STACK_DEPTH ==> r && final(self)@ == old(self)@.push(v),
            old(self)@.len() >= STACK_DEPTH ==> !r && final(self)@ == old(self)@,
    {
        array_vec_try_push(&mut self.items, v)
    }

    /// Pops the top; `None`, and nothing changed, when the stack is empty.
    pub fn pop(&mut self) -> (r: Option<u16>)
        ensures
            old(self)@.len() == 0 ==> r is None && final(self)@ == old(self)@,
            old(self)@.len() > 0 ==> r == Some(old(self)@.last()) && final(self)@ == old(
                self,
            )@.drop_last(),
    {
        array_vec_pop(&mut self.items)
    }

    /// The return addresses, bottom first.
    pub fn as_slice(&self) -> (r: &[u16])
        ensures
            r@ == self@,
    {
        array_vec_as_slice(&self.items)
    }
}

} // verus!
