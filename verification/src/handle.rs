//! The bookkeeping of a control handle: how many strong and weak handles share a
//! control, and how it is borrowed (a positive count of shared borrows, or -1 for
//! the one mutable borrow).
use vstd::prelude::*;

verus! {

/// The counts that the handles of one control share.
#[derive(Clone, Copy, Debug, PartialEq, Eq)]
pub struct HandleCounts {
    pub strong: usize,
    pub weak: usize,
    pub borrow: isize,
}

/// What dropping a handle frees.
#[derive(Clone, Copy, Debug, PartialEq, Eq)]
pub struct Freed {
    /// The control itself was dropped.
    pub data: bool,
    /// The shared counts were freed too: no handle is left.
    pub counts: bool,
}

/// A shared borrow may start: the control is not mutably borrowed.
pub open spec fn can_borrow(c: HandleCounts) -> bool {
    c.borrow >= 0
}

/// A mutable borrow may start: the control is not borrowed at all.
pub open spec fn can_borrow_mut(c: HandleCounts) -> bool {
    c.borrow == 0
}

impl HandleCounts {
    /// The counts of a new handle: one strong handle, no weak one, no borrow.
    pub fn new() -> (c: Self)
        ensures
            c == (HandleCounts { strong: 1, weak: 0, borrow: 0 }),
    {
        HandleCounts { strong: 1, weak: 0, borrow: 0 }
    }

    /// The counts behind an empty weak handle: no strong handle, one weak one.
    pub fn empty() -> (c: Self)
        ensures
            c == (HandleCounts { strong: 0, weak: 1, borrow: 0 }),
    {
        HandleCounts { strong: 0, weak: 1, borrow: 0 }
    }

    /// A strong handle is cloned (or downcast to its own type).
    pub fn clone_strong(&mut self)
        requires
            old(self).strong < usize::MAX,
        ensures
            *final(self) == (HandleCounts { strong: (old(self).strong + 1) as usize, ..*old(self) }),
    {
        self.strong = self.strong + 1;
    }

    /// A weak handle is cloned, made from a strong one, or downcast.
    pub fn clone_weak(&mut self)
        requires
            old(self).weak < usize::MAX,
        ensures
            *final(self) == (HandleCounts { weak: (old(self).weak + 1) as usize, ..*old(self) }),
    {
        self.weak = self.weak + 1;
    }

    /// A weak handle asks for a strong one: there is one only while a strong handle
    /// is left.
    pub fn upgrade(&mut self) -> (ok: bool)
        requires
            old(self).strong < usize::MAX,
        ensures
            ok == (old(self).strong != 0),
            ok ==> *final(self) == (HandleCounts { strong: (old(self).strong + 1) as usize, ..*old(self) }),
            !ok ==> *final(self) == *old(self),
    {
        if self.strong == 0 {
            return false;
        }
        self.strong = self.strong + 1;
        true
    }

    /// A shared borrow starts, when the control is not mutably borrowed.
    pub fn try_borrow(&mut self) -> (ok: bool)
        requires
            old(self).borrow < isize::MAX,
        ensures
            ok == can_borrow(*old(self)),
            ok ==> *final(self) == (HandleCounts { borrow: (old(self).borrow + 1) as isize, ..*old(self) }),
            !ok ==> *final(self) == *old(self),
    {
        if self.borrow < 0 {
            return false;
        }
        self.borrow = self.borrow + 1;
        true
    }

    /// The mutable borrow starts, when the control is not borrowed at all.
    pub fn try_borrow_mut(&mut self) -> (ok: bool)
        ensures
            ok == can_borrow_mut(*old(self)),
            ok ==> *final(self) == (HandleCounts { borrow: -1isize, ..*old(self) }),
            !ok ==> *final(self) == *old(self),
    {
        if self.borrow != 0 {
            return false;
        }
        self.borrow = self.borrow - 1;
        true
    }

    /// A shared borrow ends.
    pub fn release_borrow(&mut self)
        requires
            old(self).borrow > isize::MIN,
        ensures
            *final(self) == (HandleCounts { borrow: (old(self).borrow - 1) as isize, ..*old(self) }),
    {
        self.borrow = self.borrow - 1;
    }

    /// The mutable borrow ends.
    pub fn release_borrow_mut(&mut self)
        requires
            old(self).borrow < isize::MAX,
        ensures
            *final(self) == (HandleCounts { borrow: (old(self).borrow + 1) as isize, ..*old(self) }),
    {
        self.borrow = self.borrow + 1;
    }

    /// A shared borrow through a strong handle. (The handle stops the program when
    /// the control is mutably borrowed, which `requires` rules out.)
    pub fn borrow(&mut self)
        requires
            can_borrow(*old(self)),
            old(self).borrow < isize::MAX,
        ensures
            *final(self) == (HandleCounts { borrow: (old(self).borrow + 1) as isize, ..*old(self) }),
    {
        self.borrow = self.borrow + 1;
    }

    /// The mutable borrow through a strong handle. (The handle stops the program when
    /// the control is borrowed, which `requires` rules out.)
    pub fn borrow_mut(&mut self)
        requires
            can_borrow_mut(*old(self)),
        ensures
            *final(self) == (HandleCounts { borrow: -1isize, ..*old(self) }),
    {
        self.borrow = self.borrow - 1;
    }

    /// A shared borrow through a weak handle: none when no strong handle is left.
    /// (The handle stops the program when the control is mutably borrowed.)
    pub fn weak_borrow(&mut self) -> (ok: bool)
        requires
            old(self).strong != 0 ==> can_borrow(*old(self)) && old(self).borrow < isize::MAX,
        ensures
            ok == (old(self).strong != 0),
            ok ==> *final(self) == (HandleCounts { borrow: (old(self).borrow + 1) as isize, ..*old(self) }),
            !ok ==> *final(self) == *old(self),
    {
        if self.strong == 0 {
            return false;
        }
        self.borrow = self.borrow + 1;
        true
    }

    /// The mutable borrow through a weak handle: none when no strong handle is left.
    /// (The handle stops the program when the control is borrowed.)
    pub fn weak_borrow_mut(&mut self) -> (ok: bool)
        requires
            old(self).strong != 0 ==> can_borrow_mut(*old(self)),
        ensures
            ok == (old(self).strong != 0),
            ok ==> *final(self) == (HandleCounts { borrow: -1isize, ..*old(self) }),
            !ok ==> *final(self) == *old(self),
    {
        if self.strong == 0 {
            return false;
        }
        self.borrow = self.borrow - 1;
        true
    }

    /// A weak handle's `try_borrow`: it fails when no strong handle is left or when
    /// the borrow count is not negative; otherwise the count goes up by one.
    pub fn weak_try_borrow(&mut self) -> (ok: bool)
        ensures
            ok == (old(self).strong != 0 && old(self).borrow < 0),
            ok ==> *final(self) == (HandleCounts { borrow: (old(self).borrow + 1) as isize, ..*old(self) }),
            !ok ==> *final(self) == *old(self),
    {
        if self.strong == 0 || self.borrow >= 0 {
            return false;
        }
        self.borrow = self.borrow + 1;
        true
    }

    /// A weak handle's `try_borrow_mut`: it fails when no strong handle is left or
    /// when the borrow count is zero; otherwise the count goes down by one.
    pub fn weak_try_borrow_mut(&mut self) -> (ok: bool)
        requires
            old(self).borrow > isize::MIN,
        ensures
            ok == (old(self).strong != 0 && old(self).borrow != 0),
            ok ==> *final(self) == (HandleCounts { borrow: (old(self).borrow - 1) as isize, ..*old(self) }),
            !ok ==> *final(self) == *old(self),
    {
        if self.strong == 0 || self.borrow == 0 {
            return false;
        }
        self.borrow = self.borrow - 1;
        true
    }

    /// A strong handle is dropped: the control goes with the last strong handle, and
    /// the counts go too when no weak handle is left either.
    pub fn drop_strong(&mut self) -> (f: Freed)
        requires
            old(self).strong > 0,
        ensures
            *final(self) == (HandleCounts { strong: (old(self).strong - 1) as usize, ..*old(self) }),
            f.data == (final(self).strong == 0),
            f.counts == (final(self).strong == 0 && final(self).weak == 0),
    {
        self.strong = self.strong - 1;
        if self.strong == 0 {
            Freed { data: true, counts: self.weak == 0 }
        } else {
            Freed { data: false, counts: false }
        }
    }

    /// A weak handle is dropped: the counts go when no handle is left.
    pub fn drop_weak(&mut self) -> (counts_freed: bool)
        requires
            old(self).weak > 0,
        ensures
            *final(self) == (HandleCounts { weak: (old(self).weak - 1) as usize, ..*old(self) }),
            counts_freed == (final(self).strong == 0 && final(self).weak == 0),
    {
        self.weak = self.weak - 1;
        self.strong == 0 && self.weak == 0
    }

    /// Whether a weak handle still reaches its control.
    pub fn is_alive(&self) -> (b: bool)
        ensures
            b == (self.strong != 0),
    {
        self.strong != 0
    }
}

/// Whether two weak handles are equal: both reach a control and it is the same one
/// (`same_control`), or neither reaches any control.
pub fn weak_handles_equal(a: &HandleCounts, b: &HandleCounts, same_control: bool) -> (eq: bool)
    ensures
        eq == if a.strong != 0 && b.strong != 0 {
            same_control
        } else {
            a.strong == 0 && b.strong == 0
        },
{
    if a.strong != 0 && b.strong != 0 {
        same_control
    } else {
        a.strong == 0 && b.strong == 0
    }
}

/// Borrowing is exclusive: while the mutable borrow is held (it started from no
/// borrow), neither a shared nor another mutable borrow can start.
pub proof fn lemma_mut_borrow_is_exclusive(c: HandleCounts)
    requires
        can_borrow_mut(c),
    ensures
        !can_borrow(HandleCounts { borrow: -1isize, ..c }),
        !can_borrow_mut(HandleCounts { borrow: -1isize, ..c }),
{
}

/// While shared borrows are held, the mutable borrow cannot start, and more shared
/// borrows can.
pub proof fn lemma_shared_borrows_block_mut(c: HandleCounts)
    requires
        can_borrow(c),
        c.borrow < isize::MAX,
    ensures
        !can_borrow_mut(HandleCounts { borrow: (c.borrow + 1) as isize, ..c }),
        can_borrow(HandleCounts { borrow: (c.borrow + 1) as isize, ..c }),
{
}

} // verus!
