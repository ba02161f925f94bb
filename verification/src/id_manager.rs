//! Hands out control ids and takes released ones back for reuse.
use vstd::prelude::*;

verus! {

/// A control id. Ids are never zero.
pub type IdType = u64;

pub struct IdManager {
    next_id: IdType,
    unused_ids: Vec<IdType>,
}

impl IdManager {
    /// The smallest id that was never handed out.
    pub closed spec fn next(&self) -> nat {
        self.next_id as nat
    }

    /// Released ids waiting for reuse; the last one is reused first.
    pub closed spec fn unused(&self) -> Seq<IdType> {
        self.unused_ids@
    }

    pub closed spec fn wf(&self) -> bool {
        &&& self.next_id >= 1
        &&& forall|i: int| 0 <= i < self.unused_ids@.len() ==> 1 <= #[trigger] self.unused_ids@[i]
            < self.next_id
    }

    /// The bookkeeping is sound for the set `live` of ids that are in use: every
    /// live or unused id was handed out before, no id is both live and unused,
    /// and no id is unused twice.
    pub open spec fn sound_for(&self, live: Set<IdType>) -> bool {
        &&& self.wf()
        &&& forall|id: IdType| live.contains(id) ==> 1 <= id < self.next()
        &&& forall|i: int| 0 <= i < self.unused().len() ==> !live.contains(#[trigger] self.unused()[i])
        &&& self.unused().no_duplicates()
    }

    pub fn new() -> (m: Self)
        ensures
            m.wf(),
            m.next() == 1,
            m.unused() == Seq::<IdType>::empty(),
    {
        IdManager { next_id: 1, unused_ids: Vec::new() }
    }

    /// Takes the most recently released id if there is one, else a new one.
    pub fn get_id(&mut self) -> (id: IdType)
        requires
            old(self).wf(),
            old(self).unused().len() > 0 || old(self).next() < u64::MAX,
        ensures
            final(self).wf(),
            1 <= id,
            old(self).unused().len() > 0 ==> {
                &&& id == old(self).unused().last()
                &&& final(self).unused() == old(self).unused().drop_last()
                &&& final(self).next() == old(self).next()
            },
            old(self).unused().len() == 0 ==> {
                &&& id == old(self).next()
                &&& final(self).next() == old(self).next() + 1
                &&& final(self).unused() == old(self).unused()
            },
    {
        if let Some(id) = self.unused_ids.pop() {
            proof {
                assert(old(self).unused_ids@[old(self).unused_ids@.len() - 1] == id);
            }
            id
        } else {
            let id = self.next_id;
            self.next_id = self.next_id + 1;
            id
        }
    }

    /// Takes an id back for reuse; ids that were never handed out are ignored.
    pub fn release_id(&mut self, id: IdType)
        requires
            old(self).wf(),
            1 <= id,
        ensures
            final(self).wf(),
            final(self).next() == old(self).next(),
            id < old(self).next() ==> final(self).unused() == old(self).unused().push(id),
            id >= old(self).next() ==> final(self).unused() == old(self).unused(),
    {
        if id < self.next_id {
            self.unused_ids.push(id);
        }
    }

    /// An id that `get_id` hands out is not in use, and the bookkeeping stays
    /// sound once it is.
    pub proof fn lemma_get_id_fresh(&self, after: &Self, id: IdType, live: Set<IdType>)
        requires
            self.sound_for(live),
            after.wf(),
            1 <= id,
            self.unused().len() > 0 ==> {
                &&& id == self.unused().last()
                &&& after.unused() == self.unused().drop_last()
                &&& after.next() == self.next()
            },
            self.unused().len() == 0 ==> {
                &&& id == self.next()
                &&& after.next() == self.next() + 1
                &&& after.unused() == self.unused()
            },
        ensures
            !live.contains(id),
            after.sound_for(live.insert(id)),
    {
        let u = self.unused();
        if u.len() > 0 {
            assert(u[u.len() - 1] == id);
            assert forall|i: int| 0 <= i < after.unused().len() implies !live.insert(id).contains(
                #[trigger] after.unused()[i],
            ) by {
                assert(after.unused()[i] == u[i]);
                assert(u[i] != u[u.len() - 1]);
            }
            assert(after.unused().no_duplicates()) by {
                assert forall|i: int, j: int|
                    0 <= i < after.unused().len() && 0 <= j < after.unused().len() && i != j implies
                    after.unused()[i] != after.unused()[j] by {
                    assert(after.unused()[i] == u[i]);
                    assert(after.unused()[j] == u[j]);
                }
            }
        }
    }

    /// Releasing a live id keeps the bookkeeping sound once it is no longer in use.
    pub proof fn lemma_release_sound(&self, after: &Self, id: IdType, live: Set<IdType>)
        requires
            self.sound_for(live),
            live.contains(id),
            after.wf(),
            after.next() == self.next(),
            id < self.next() ==> after.unused() == self.unused().push(id),
            id >= self.next() ==> after.unused() == self.unused(),
        ensures
            after.sound_for(live.remove(id)),
    {
        let u = self.unused();
        assert(id < self.next());
        assert forall|i: int| 0 <= i < after.unused().len() implies !live.remove(id).contains(
            #[trigger] after.unused()[i],
        ) by {
            if i < u.len() {
                assert(after.unused()[i] == u[i]);
            }
        }
        assert(after.unused().no_duplicates()) by {
            assert forall|i: int, j: int|
                0 <= i < after.unused().len() && 0 <= j < after.unused().len() && i != j implies
                after.unused()[i] != after.unused()[j] by {
                if i < u.len() {
                    assert(after.unused()[i] == u[i]);
                }
                if j < u.len() {
                    assert(after.unused()[j] == u[j]);
                }
            }
        }
    }
}

} // verus!
