//! The launcher's core: the entry stack and the position of the row selector.
use vstd::prelude::*;

use crate::entry::ActiveEntry;
use crate::stack::Stack;

verus! {

pub struct KitCore<E> {
    stack: Stack<E>,
    selector: usize,
}

impl<E: ActiveEntry> KitCore<E> {
    pub closed spec fn selector(&self) -> nat {
        self.selector as nat
    }

    pub closed spec fn the_stack(&self) -> Stack<E> {
        self.stack
    }

    /// A core over `stack`, with the selector on the first row.
    pub fn with_stack(stack: Stack<E>) -> (k: Self)
        ensures
            k.selector() == 0,
            k.the_stack() == stack,
    {
        KitCore { stack, selector: 0 }
    }

    /// Moves the selector one row on, stopping at the largest position.
    pub fn selector_up(&mut self)
        ensures
            final(self).selector() == if old(self).selector() == usize::MAX {
                usize::MAX as nat
            } else {
                old(self).selector() + 1
            },
            final(self).the_stack() == old(self).the_stack(),
    {
        self.selector = self.selector.saturating_add(1);
    }

    /// Moves the selector one row back, stopping at the first row.
    pub fn selector_down(&mut self)
        ensures
            final(self).selector() == if old(self).selector() == 0 {
                0
            } else {
                old(self).selector() - 1
            },
            final(self).the_stack() == old(self).the_stack(),
    {
        self.selector = self.selector.saturating_sub(1);
    }

    /// The selector's position.
    pub fn selector_pos(&self) -> (p: usize)
        ensures
            p == self.selector(),
    {
        self.selector
    }

    /// The entry stack, to read or change.
    pub fn stack(&mut self) -> (s: &mut Stack<E>)
        ensures
            *s == old(self).the_stack(),
            final(self).the_stack() == *final(s),
            final(self).selector() == old(self).selector(),
    {
        &mut self.stack
    }
}

} // verus!
