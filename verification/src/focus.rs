//! The focus chain: the order in which controls take the keyboard focus.
//! Controls are named by their ids.
use vstd::prelude::*;

use indexmap::IndexSet;

use crate::id_manager::IdType;

verus! {

#[verifier::external_type_specification]
#[verifier::external_body]
#[verifier::reject_recursive_types(T)]
#[verifier::reject_recursive_types(S)]
pub struct ExIndexSet<T, S>(IndexSet<T, S>);

/// The ids in an `IndexSet`, in their order.
pub uninterp spec fn index_set_items(s: IndexSet<IdType>) -> Seq<IdType>;

/// `IndexSet::new`: the empty set.
#[verifier::external_body]
fn set_new() -> (s: IndexSet<IdType>)
    ensures
        index_set_items(s) == Seq::<IdType>::empty(),
{
    IndexSet::new()
}

/// `IndexSet::len`: the number of items.
#[verifier::external_body]
fn set_len(s: &IndexSet<IdType>) -> (n: usize)
    ensures
        n == index_set_items(*s).len(),
{
    s.len()
}

/// `IndexSet::contains`: whether the value is an item.
#[verifier::external_body]
fn set_contains(s: &IndexSet<IdType>, v: IdType) -> (b: bool)
    ensures
        b == index_set_items(*s).contains(v),
{
    s.contains(&v)
}

/// `IndexSet::insert`: appends the value unless it is already an item, in which
/// case the set is unchanged; tells whether it was appended. Items stay distinct.
#[verifier::external_body]
fn set_insert(s: &mut IndexSet<IdType>, v: IdType) -> (added: bool)
    ensures
        added == !index_set_items(*old(s)).contains(v),
        added ==> index_set_items(*final(s)) == index_set_items(*old(s)).push(v),
        !added ==> index_set_items(*final(s)) == index_set_items(*old(s)),
{
    s.insert(v)
}

/// `IndexSet::insert_before`: a new value is inserted at `index`; a value that is
/// already the item at `j` is moved, to `index - 1` when `index > j` and to
/// `index` otherwise. Returns the value's new position and whether it was new.
/// Panics when `index > len`, which `requires` rules out.
#[verifier::external_body]
fn set_insert_before(s: &mut IndexSet<IdType>, index: usize, v: IdType) -> (r: (usize, bool))
    requires
        index <= index_set_items(*old(s)).len(),
    ensures
        r.1 == !index_set_items(*old(s)).contains(v),
        r.1 ==> r.0 == index && index_set_items(*final(s)) == index_set_items(*old(s)).insert(
            index as int,
            v,
        ),
        forall|j: int|
            0 <= j < index_set_items(*old(s)).len() && index_set_items(*old(s))[j] == v ==> {
                let to = if index > j {
                    index - 1
                } else {
                    index as int
                };
                &&& r.0 == to
                &&& index_set_items(*final(s)) == index_set_items(*old(s)).remove(j).insert(to, v)
            },
{
    s.insert_before(index, v)
}

/// `IndexSet::get_index_of`: the position of the value, if it is an item.
#[verifier::external_body]
fn set_get_index_of(s: &IndexSet<IdType>, v: IdType) -> (r: Option<usize>)
    ensures
        r is None <==> !index_set_items(*s).contains(v),
        r matches Some(i) ==> i < index_set_items(*s).len() && index_set_items(*s)[i as int]
            == v,
{
    s.get_index_of(&v)
}

/// `IndexSet::shift_remove`: removes the value, shifting the later items down;
/// tells whether it was an item.
#[verifier::external_body]
fn set_shift_remove(s: &mut IndexSet<IdType>, v: IdType) -> (removed: bool)
    ensures
        removed == index_set_items(*old(s)).contains(v),
        !removed ==> index_set_items(*final(s)) == index_set_items(*old(s)),
        forall|j: int|
            0 <= j < index_set_items(*old(s)).len() && index_set_items(*old(s))[j] == v
                ==> index_set_items(*final(s)) == index_set_items(*old(s)).remove(j),
{
    s.shift_remove(&v)
}

/// `IndexSet` indexing: the item at `index`. Panics out of bounds, which
/// `requires` rules out.
#[verifier::external_body]
fn set_index(s: &IndexSet<IdType>, index: usize) -> (v: IdType)
    requires
        index < index_set_items(*s).len(),
    ensures
        v == index_set_items(*s)[index as int],
{
    s[index]
}

/// The focus chain and the position of the focused control in it.
pub struct FocusMgr {
    chain: IndexSet<IdType>,
    current_idx: usize,
}

/// A queried control is not in the chain.
pub enum FocusMgrQueryFailure {
    NotExist,
}

/// The control to insert after is not in the chain.
pub enum FocusMgrInsertFailure {
    PrevNotExist,
}

/// How an insertion went.
pub enum FocusMgrInsertState {
    /// The control was new and was inserted.
    InsertSuccess,
    /// The control was in the chain already and only moved.
    MoveOrder,
}

impl FocusMgr {
    /// The controls, in focus order.
    pub closed spec fn chain(&self) -> Seq<IdType> {
        index_set_items(self.chain)
    }

    /// The position of the focused control.
    pub closed spec fn current_index(&self) -> nat {
        self.current_idx as nat
    }

    /// A chain holds every control at most once.
    pub closed spec fn wf(&self) -> bool {
        self.chain().no_duplicates()
    }

    pub fn new() -> (m: Self)
        ensures
            m.wf(),
            m.chain() == Seq::<IdType>::empty(),
            m.current_index() == 0,
    {
        FocusMgr { chain: set_new(), current_idx: 0 }
    }

    /// Puts `control` right after `prev`, adding `prev` at the end first when it is
    /// not in the chain.
    pub fn set_order(&mut self, prev: IdType, control: IdType)
        requires
            old(self).wf(),
            old(self).current_index() < usize::MAX,
        ensures
            final(self).wf(),
            ({
                let c0 = if old(self).chain().contains(prev) {
                    old(self).chain()
                } else {
                    old(self).chain().push(prev)
                };
                insert_after_result(c0, old(self).current_index(), prev, control, final(self).chain(), final(self).current_index())
            }),
    {
        if !set_contains(&self.chain, prev) {
            set_insert(&mut self.chain, prev);
            proof {
                assert(self.chain().no_duplicates()) by {
                    let c = self.chain();
                    let o = old(self).chain();
                    assert forall|i: int, j: int| 0 <= i < c.len() && 0 <= j < c.len() && i != j implies c[i] != c[j] by {
                        if i == o.len() && j < o.len() {
                            assert(o[j] == c[j]);
                        } else if j == o.len() && i < o.len() {
                            assert(o[i] == c[i]);
                        }
                    }
                }
                assert(self.chain().contains(prev)) by {
                    assert(self.chain()[self.chain().len() - 1] == prev);
                }
            }
        }
        let _ = self.insert_after(prev, control);
    }

    /// Adds `control` at the end, unless it is in the chain already.
    pub fn insert(&mut self, control: IdType)
        requires
            old(self).wf(),
        ensures
            final(self).wf(),
            final(self).current_index() == old(self).current_index(),
            old(self).chain().contains(control) ==> final(self).chain() == old(self).chain(),
            !old(self).chain().contains(control) ==> final(self).chain() == old(self).chain().push(
                control,
            ),
    {
        let added = set_insert(&mut self.chain, control);
        proof {
            if added {
                lemma_push_no_duplicates(old(self).chain(), control);
            }
        }
    }

    /// Puts `control` right after `prev`. A new control is inserted there and the
    /// focus stays on the same control; a control already in the chain is moved
    /// there. Fails when `prev` is not in the chain.
    pub fn insert_after(&mut self, prev: IdType, control: IdType) -> (r: Result<
        FocusMgrInsertState,
        FocusMgrInsertFailure,
    >)
        requires
            old(self).wf(),
            old(self).chain().contains(prev) ==> old(self).current_index() < usize::MAX,
        ensures
            final(self).wf(),
            !old(self).chain().contains(prev) ==> r is Err && final(self).chain() == old(
                self,
            ).chain() && final(self).current_index() == old(self).current_index(),
            old(self).chain().contains(prev) ==> {
                &&& r is Ok
                &&& (r matches Ok(FocusMgrInsertState::InsertSuccess)) <==> !old(
                    self,
                ).chain().contains(control)
            },
            insert_after_result(
                old(self).chain(),
                old(self).current_index(),
                prev,
                control,
                final(self).chain(),
                final(self).current_index(),
            ),
    {
        if !set_contains(&self.chain, prev) {
            return Err(FocusMgrInsertFailure::PrevNotExist);
        }
        let p = set_get_index_of(&self.chain, prev).unwrap();
        let _len = set_len(&self.chain);
        let ghost c = self.chain();
        let (idx, r) = set_insert_before(&mut self.chain, p + 1, control);
        proof {
            if r {
                lemma_insert_no_duplicates(c, (p + 1) as int, control);
            } else {
                let j = choose|j: int| 0 <= j < c.len() && c[j] == control;
                lemma_move_no_duplicates(c, j, if p + 1 > j { p as int } else { (p + 1) as int }, control);
            }
        }
        Ok(
            if r {
                if idx <= self.current_idx {
                    self.current_idx = self.current_idx + 1;
                }
                FocusMgrInsertState::InsertSuccess
            } else {
                FocusMgrInsertState::MoveOrder
            },
        )
    }

    /// Takes `control` out of the chain; when it stood before the focused control,
    /// the focus stays on the same control.
    pub fn remove(&mut self, control: IdType)
        requires
            old(self).wf(),
        ensures
            final(self).wf(),
            !old(self).chain().contains(control) ==> final(self).chain() == old(self).chain()
                && final(self).current_index() == old(self).current_index(),
            forall|j: int|
                0 <= j < old(self).chain().len() && old(self).chain()[j] == control ==> {
                    &&& final(self).chain() == old(self).chain().remove(j)
                    &&& final(self).current_index() == if j < old(self).current_index() {
                        old(self).current_index() - 1
                    } else {
                        old(self).current_index() as int
                    }
                },
    {
        if let Some(idx) = set_get_index_of(&self.chain, control) {
            if idx < self.current_idx {
                self.current_idx = self.current_idx - 1;
            }
        }
        set_shift_remove(&mut self.chain, control);
        proof {
            let c = old(self).chain();
            assert forall|j: int| 0 <= j < c.len() && c[j] == control implies self.chain() == c.remove(j) && self.current_index() == (if j < old(self).current_index() { old(self).current_index() - 1 } else { old(self).current_index() as int }) by {
                assert(c.no_duplicates());
            }
            if c.contains(control) {
                let j = choose|j: int| 0 <= j < c.len() && c[j] == control;
                lemma_remove_no_duplicates(c, j);
            }
        }
    }

    pub fn contains(&self, control: IdType) -> (b: bool)
        ensures
            b == self.chain().contains(control),
    {
        set_contains(&self.chain, control)
    }

    /// The control before `control`, the last one for the first.
    pub fn query_prev(&self, control: IdType) -> (r: Result<IdType, FocusMgrQueryFailure>)
        requires
            self.wf(),
        ensures
            !self.chain().contains(control) ==> r is Err,
            forall|j: int|
                0 <= j < self.chain().len() && self.chain()[j] == control ==> r == Ok::<
                    IdType,
                    FocusMgrQueryFailure,
                >(self.chain()[prev_index(j, self.chain().len() as int)]),
    {
        if !set_contains(&self.chain, control) {
            return Err(FocusMgrQueryFailure::NotExist);
        }
        let idx = set_get_index_of(&self.chain, control).unwrap();
        let len = set_len(&self.chain);
        let target = if idx == 0 {
            len - 1
        } else {
            idx - 1
        };
        Ok(set_index(&self.chain, target))
    }

    /// The control after `control`, the first one for the last.
    pub fn query_next(&self, control: IdType) -> (r: Result<IdType, FocusMgrQueryFailure>)
        requires
            self.wf(),
        ensures
            !self.chain().contains(control) ==> r is Err,
            forall|j: int|
                0 <= j < self.chain().len() && self.chain()[j] == control ==> r == Ok::<
                    IdType,
                    FocusMgrQueryFailure,
                >(self.chain()[next_index(j, self.chain().len() as int)]),
    {
        if !set_contains(&self.chain, control) {
            return Err(FocusMgrQueryFailure::NotExist);
        }
        let idx = set_get_index_of(&self.chain, control).unwrap();
        let len = set_len(&self.chain);
        let target = if idx == len - 1 {
            0
        } else {
            idx + 1
        };
        Ok(set_index(&self.chain, target))
    }

    /// Moves the focus one control back, to the last from the first.
    pub fn prev(&mut self)
        requires
            old(self).current_index() == 0 ==> old(self).chain().len() > 0,
        ensures
            final(self).chain() == old(self).chain(),
            final(self).current_index() == if old(self).current_index() == 0 {
                old(self).chain().len() - 1
            } else {
                old(self).current_index() - 1
            },
    {
        if self.current_idx == 0 {
            self.current_idx = set_len(&self.chain) - 1;
        } else {
            self.current_idx = self.current_idx - 1;
        }
    }

    /// Moves the focus one control on, to the first after the last.
    pub fn next(&mut self)
        requires
            old(self).current_index() < usize::MAX,
        ensures
            final(self).chain() == old(self).chain(),
            final(self).current_index() == if old(self).current_index() + 1 == old(self).chain().len() {
                0
            } else {
                old(self).current_index() + 1
            },
    {
        self.current_idx = self.current_idx + 1;
        if self.current_idx == set_len(&self.chain) {
            self.current_idx = 0;
        }
    }

    /// The focused control.
    pub fn current(&self) -> (c: IdType)
        requires
            self.current_index() < self.chain().len(),
        ensures
            c == self.chain()[self.current_index() as int],
    {
        set_index(&self.chain, self.current_idx)
    }
}

/// The position before `j` in a cyclic chain of length `len`.
pub open spec fn prev_index(j: int, len: int) -> int {
    if j == 0 {
        len - 1
    } else {
        j - 1
    }
}

/// The position after `j` in a cyclic chain of length `len`.
pub open spec fn next_index(j: int, len: int) -> int {
    if j == len - 1 {
        0
    } else {
        j + 1
    }
}

/// What `insert_after(prev, control)` makes of chain `c` with focus position `cur`:
/// nothing when `prev` is not in `c`; `control` inserted right after `prev` when it
/// is new, the focus index moving on when the insertion is at or before it; or
/// `control` moved to right after `prev`, the focus index unchanged.
pub open spec fn insert_after_result(
    c: Seq<IdType>,
    cur: nat,
    prev: IdType,
    control: IdType,
    c2: Seq<IdType>,
    cur2: nat,
) -> bool {
    &&& !c.contains(prev) ==> c2 == c && cur2 == cur
    &&& forall|p: int|
        0 <= p < c.len() && c[p] == prev ==> {
            &&& !c.contains(control) ==> c2 == c.insert(p + 1, control) && cur2 == if p + 1 <= cur {
                cur + 1
            } else {
                cur
            }
            &&& forall|j: int|
                0 <= j < c.len() && c[j] == control ==> {
                    let to = if p + 1 > j {
                        p
                    } else {
                        p + 1
                    };
                    c2 == c.remove(j).insert(to, control) && cur2 == cur
                }
        }
}

proof fn lemma_push_no_duplicates(c: Seq<IdType>, v: IdType)
    requires
        c.no_duplicates(),
        !c.contains(v),
    ensures
        c.push(v).no_duplicates(),
{
    let d = c.push(v);
    assert forall|i: int, j: int| 0 <= i < d.len() && 0 <= j < d.len() && i != j implies d[i] != d[j] by {
        if i < c.len() && j < c.len() {
            assert(d[i] == c[i] && d[j] == c[j]);
        } else if i < c.len() {
            assert(d[i] == c[i]);
        } else {
            assert(d[j] == c[j]);
        }
    }
}

proof fn lemma_insert_no_duplicates(c: Seq<IdType>, k: int, v: IdType)
    requires
        c.no_duplicates(),
        !c.contains(v),
        0 <= k <= c.len(),
    ensures
        c.insert(k, v).no_duplicates(),
{
    let d = c.insert(k, v);
    assert forall|i: int, j: int| 0 <= i < d.len() && 0 <= j < d.len() && i != j implies d[i] != d[j] by {
        let ci = if i < k { i } else { i - 1 };
        let cj = if j < k { j } else { j - 1 };
        if i != k && j != k {
            assert(d[i] == c[ci] && d[j] == c[cj]);
        } else if i == k {
            assert(d[j] == c[cj]);
        } else {
            assert(d[i] == c[ci]);
        }
    }
}

proof fn lemma_remove_no_duplicates(c: Seq<IdType>, j: int)
    requires
        c.no_duplicates(),
        0 <= j < c.len(),
    ensures
        c.remove(j).no_duplicates(),
        !c.remove(j).contains(c[j]),
{
    let d = c.remove(j);
    assert forall|a: int, b: int| 0 <= a < d.len() && 0 <= b < d.len() && a != b implies d[a] != d[b] by {
        let ca = if a < j { a } else { a + 1 };
        let cb = if b < j { b } else { b + 1 };
        assert(d[a] == c[ca] && d[b] == c[cb]);
    }
    assert forall|a: int| 0 <= a < d.len() implies d[a] != c[j] by {
        let ca = if a < j { a } else { a + 1 };
        assert(d[a] == c[ca]);
    }
}

proof fn lemma_move_no_duplicates(c: Seq<IdType>, j: int, to: int, v: IdType)
    requires
        c.no_duplicates(),
        0 <= j < c.len(),
        c[j] == v,
        0 <= to <= c.len() - 1,
    ensures
        c.remove(j).insert(to, v).no_duplicates(),
{
    lemma_remove_no_duplicates(c, j);
    lemma_insert_no_duplicates(c.remove(j), to, v);
}

/// Inserting a new control after another keeps the focus on the control that had it.
pub proof fn lemma_insert_keeps_focus(
    c: Seq<IdType>,
    cur: nat,
    prev: IdType,
    control: IdType,
    c2: Seq<IdType>,
    cur2: nat,
)
    requires
        c.no_duplicates(),
        c.contains(prev),
        !c.contains(control),
        cur < c.len(),
        insert_after_result(c, cur, prev, control, c2, cur2),
    ensures
        cur2 < c2.len(),
        c2[cur2 as int] == c[cur as int],
{
    let p = choose|p: int| 0 <= p < c.len() && c[p] == prev;
    assert(c2 == c.insert(p + 1, control));
}

/// Removing a control other than the focused one keeps the focus on the same control.
pub proof fn lemma_remove_keeps_focus(
    c: Seq<IdType>,
    cur: nat,
    j: int,
    c2: Seq<IdType>,
    cur2: nat,
)
    requires
        0 <= j < c.len(),
        cur < c.len(),
        j != cur,
        c2 == c.remove(j),
        cur2 == if j < cur {
            cur - 1
        } else {
            cur as int
        },
    ensures
        cur2 < c2.len(),
        c2[cur2 as int] == c[cur as int],
{
}

/// In a chain, the control after the control before `c[j]` is `c[j]`, and the
/// control before the control after it is `c[j]` too.
pub proof fn lemma_query_prev_next_inverse(c: Seq<IdType>, j: int)
    requires
        0 <= j < c.len(),
    ensures
        0 <= prev_index(j, c.len() as int) < c.len(),
        0 <= next_index(j, c.len() as int) < c.len(),
        c[next_index(prev_index(j, c.len() as int), c.len() as int)] == c[j],
        c[prev_index(next_index(j, c.len() as int), c.len() as int)] == c[j],
{
}

/// Moving the focus on and back returns it to where it was.
pub proof fn lemma_next_prev_inverse(len: nat, cur: nat)
    requires
        cur < len,
    ensures
        ({
            let on = if cur + 1 == len {
                0
            } else {
                cur + 1
            };
            let back = if on == 0 {
                len - 1
            } else {
                on - 1
            };
            back == cur
        }),
{
}

/// The focus chain is a ring: the control before position `j` is at `j - 1` and the
/// one after it at `j + 1`, counted around the ring.
pub proof fn lemma_chain_is_a_ring(j: int, len: int)
    requires
        0 <= j < len,
    ensures
        prev_index(j, len) == (j + len - 1) % len,
        next_index(j, len) == (j + 1) % len,
{
    if j == 0 {
        vstd::arithmetic::div_mod::lemma_small_mod((len - 1) as nat, len as nat);
    } else {
        vstd::arithmetic::div_mod::lemma_mod_add_multiples_vanish(j - 1, len);
        vstd::arithmetic::div_mod::lemma_small_mod((j - 1) as nat, len as nat);
    }
    if j + 1 == len {
        vstd::arithmetic::div_mod::lemma_mod_self_0(len);
    } else {
        vstd::arithmetic::div_mod::lemma_small_mod((j + 1) as nat, len as nat);
    }
}

} // verus!
