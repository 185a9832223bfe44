use vstd::prelude::*;

verus! {

/// The most values the operand stack holds. A push beyond it is refused
/// rather than left to the allocator.
pub const MAX_STACK: usize = 0x1000_0000;

/// The operand stack: a `smallvec::SmallVec` that keeps its first eight
/// values inline. Verus does not accept a declaration of that type, so it is
/// held here, out of Verus's sight, and read only through `stack_items`.
#[verifier::external_body]
#[derive(Debug)]
pub struct OperandStack {
    items: smallvec::SmallVec<[i64; 8]>,
}

/// The values on the stack, bottom first.
pub uninterp spec fn stack_items(s: OperandStack) -> Seq<i64>;

impl OperandStack {
    /// Relies on `SmallVec::new`: the new vector holds nothing.
    #[verifier::external_body]
    pub(crate) fn new() -> (r: OperandStack)
        ensures
            stack_items(r) == Seq::<i64>::empty(),
    {
        OperandStack { items: smallvec::SmallVec::new() }
    }

    /// Relies on `SmallVec::push`: the value goes on top. The bound keeps
    /// the growth of the buffer far from a capacity overflow.
    #[verifier::external_body]
    pub(crate) fn push(&mut self, v: i64)
        requires
            stack_items(*old(self)).len() < MAX_STACK,
        ensures
            stack_items(*final(self)) == stack_items(*old(self)).push(v),
    {
        self.items.push(v)
    }

    /// Relies on `SmallVec::pop`: the top value, or `None` on an empty
    /// vector, which is then left as it was.
    #[verifier::external_body]
    pub(crate) fn pop(&mut self) -> (r: Option<i64>)
        ensures
            stack_items(*old(self)).len() == 0 ==> r == None::<i64> && stack_items(*final(self))
                == stack_items(*old(self)),
            stack_items(*old(self)).len() > 0 ==> r == Some(stack_items(*old(self)).last())
                && stack_items(*final(self)) == stack_items(*old(self)).drop_last(),
    {
        self.items.pop()
    }

    /// Relies on `SmallVec::len`: the number of values held.
    #[verifier::external_body]
    pub(crate) fn len(&self) -> (r: usize)
        ensures
            r == stack_items(*self).len(),
    {
        self.items.len()
    }

    /// Relies on `SmallVec::to_vec`: the values, bottom first.
    #[verifier::external_body]
    pub(crate) fn to_vec(&self) -> (r: Vec<i64>)
        ensures
            r@ == stack_items(*self),
    {
        self.items.to_vec()
    }
}

} // verus!
