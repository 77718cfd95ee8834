//! A matrix stack: a stack that is never empty, whose top is the current matrix.
use vstd::prelude::*;

verus! {

/// The stack after its top has been pushed once more.
pub open spec fn push_spec<M>(s: Seq<M>) -> Seq<M> {
    s.push(s.last())
}

/// The stack after a pop: the top goes only where something stays below it.
pub open spec fn pop_spec<M>(s: Seq<M>) -> Seq<M> {
    if s.len() > 1 {
        s.drop_last()
    } else {
        s
    }
}

/// The stack with its top replaced by `m`.
pub open spec fn load_spec<M>(s: Seq<M>, m: M) -> Seq<M> {
    s.update(s.len() - 1, m)
}

/// A stack of matrices (or any copyable values), bottom first.
pub struct MatrixStack<M> {
    items: Vec<M>,
}

impl<M> View for MatrixStack<M> {
    type V = Seq<M>;

    closed spec fn view(&self) -> Seq<M> {
        self.items@
    }
}

impl<M> MatrixStack<M> {
    /// The stack holds at least one matrix.
    pub open spec fn wf(&self) -> bool {
        self@.len() >= 1
    }
}

impl<M: Copy> MatrixStack<M> {
    /// A stack that holds `base` alone.
    pub fn new(base: M) -> (r: MatrixStack<M>)
        ensures
            r@ == seq![base],
            r.wf(),
    {
        let mut items = Vec::new();
        items.push(base);
        MatrixStack { items }
    }

    /// The number of matrices on the stack.
    pub fn len(&self) -> (r: usize)
        requires
            self.wf(),
        ensures
            r == self@.len(),
            r >= 1,
    {
        self.items.len()
    }

    /// The current matrix.
    pub fn top(&self) -> (r: M)
        requires
            self.wf(),
        ensures
            r == self@.last(),
    {
        self.items[self.items.len() - 1]
    }

    /// Replaces the current matrix by `m`.
    pub fn load(&mut self, m: M)
        requires
            old(self).wf(),
        ensures
            final(self).wf(),
            final(self)@ == load_spec(old(self)@, m),
    {
        let last = self.items.len() - 1;
        self.items.set(last, m);
    }

    /// Pushes a copy of the current matrix.
    pub fn push(&mut self)
        requires
            old(self).wf(),
        ensures
            final(self).wf(),
            final(self)@ == push_spec(old(self)@),
    {
        let top = self.items[self.items.len() - 1];
        self.items.push(top);
    }

    /// Removes the current matrix, unless it is the only one: then nothing changes.
    pub fn pop(&mut self)
        requires
            old(self).wf(),
        ensures
            final(self).wf(),
            final(self)@ == pop_spec(old(self)@),
    {
        if self.items.len() > 1 {
            self.items.pop();
        }
    }
}

/// No stack operation empties a stack: push, pop and load each leave at least one
/// matrix on a stack that had one.
pub proof fn lemma_stack_stays_nonempty<M>(s: Seq<M>, m: M)
    requires
        s.len() >= 1,
    ensures
        push_spec(s).len() >= 1,
        pop_spec(s).len() >= 1,
        load_spec(s, m).len() >= 1,
{
}

/// Loading a matrix makes it the top, whatever the stack held.
pub proof fn lemma_load_sets_top<M>(s: Seq<M>, m: M)
    requires
        s.len() >= 1,
    ensures
        load_spec(s, m).last() == m,
        load_spec(s, m).len() == s.len(),
{
}

/// A push followed at once by a pop gives back the same stack, and so the same top
/// matrix, value for value.
pub proof fn lemma_push_then_pop<M>(s: Seq<M>)
    requires
        s.len() >= 1,
    ensures
        pop_spec(push_spec(s)) == s,
        pop_spec(push_spec(s)).last() == s.last(),
{
    assert(push_spec(s).drop_last() =~= s);
}

} // verus!
