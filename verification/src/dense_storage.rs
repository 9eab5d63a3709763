use vstd::prelude::*;

verus! {

/// A position in a [`DenseStorage`]. Positions of removed items are handed out again.
#[derive(Clone, Copy, Debug, PartialEq, Eq)]
pub struct Index(pub usize);

/// A slot vector: items live at stable positions, and the position of a removed item is
/// recycled by the next push.
pub struct DenseStorage<T> {
    slots: Vec<Option<T>>,
    free: Vec<usize>,
}

impl<T> DenseStorage<T> {
    /// The items held, keyed by their position.
    pub closed spec fn view(&self) -> Map<usize, T> {
        Map::new(
            |i: usize| i < self.slots@.len() && self.slots@[i as int] is Some,
            |i: usize| self.slots@[i as int]->0,
        )
    }

    /// The number of positions ever handed out (occupied or free).
    pub closed spec fn capacity_used(&self) -> nat {
        self.slots@.len()
    }

    /// The positions that are free, in the order in which they will be reused (last first).
    pub closed spec fn free_positions(&self) -> Seq<usize> {
        self.free@
    }

    /// Every free position is an empty slot and is listed once, and every empty slot is free.
    pub closed spec fn wf(&self) -> bool {
        &&& forall|k: int|
            0 <= k < self.free@.len() ==> {
                &&& #[trigger] self.free@[k] < self.slots@.len()
                &&& self.slots@[self.free@[k] as int] is None
            }
        &&& forall|k: int, l: int|
            0 <= k < self.free@.len() && 0 <= l < self.free@.len() && k != l ==> #[trigger] self.free@[k]
                != #[trigger] self.free@[l]
        &&& forall|i: int|
            0 <= i < self.slots@.len() && #[trigger] self.slots@[i] is None ==> self.free@.contains(
                i as usize,
            )
    }

    /// What `push` does: the item is stored at a position that held nothing, the most recently
    /// freed one if there is one, else the next position never handed out.
    pub open spec fn push_step(pre: Self, item: T, post: Self, index: Index) -> bool {
        &&& post.wf()
        &&& !pre.view().dom().contains(index.0)
        &&& post.view() == pre.view().insert(index.0, item)
        &&& pre.free_positions().len() > 0 ==> index.0 == pre.free_positions().last()
        &&& pre.free_positions().len() == 0 ==> index.0 == pre.capacity_used()
    }

    /// What `remove_recycle` does: the item at `index`, if any, is taken out and returned, and
    /// its position becomes the most recently freed one.
    pub open spec fn remove_step(pre: Self, index: Index, post: Self, r: Option<T>) -> bool {
        &&& post.wf()
        &&& r == (if pre.view().dom().contains(index.0) {
            Some(pre.view()[index.0])
        } else {
            None
        })
        &&& post.view() == pre.view().remove(index.0)
        &&& post.capacity_used() == pre.capacity_used()
        &&& pre.view().dom().contains(index.0) ==> post.free_positions() == pre.free_positions().push(index.0)
        &&& !pre.view().dom().contains(index.0) ==> post.free_positions() == pre.free_positions()
    }

    /// An empty storage.
    pub fn new() -> (s: Self)
        ensures
            s.wf(),
            s.view() == Map::<usize, T>::empty(),
            s.capacity_used() == 0,
    {
        let s = DenseStorage { slots: Vec::new(), free: Vec::new() };
        assert(s.view() =~= Map::<usize, T>::empty());
        s
    }

    /// Whether every position a `usize` can name has been handed out.
    pub fn is_full(&self) -> (full: bool)
        ensures
            full == (self.capacity_used() >= usize::MAX),
    {
        self.slots.len() == usize::MAX
    }

    /// The number of items held.
    pub fn len(&self) -> (n: usize)
        requires
            self.wf(),
        ensures
            n == self.view().dom().len(),
    {
        proof {
            self.lemma_len();
        }
        self.slots.len() - self.free.len()
    }

    proof fn lemma_len(&self)
        requires
            self.wf(),
        ensures
            self.free@.len() <= self.slots@.len(),
            self.view().dom().finite(),
            self.view().dom().len() == self.slots@.len() - self.free@.len(),
    {
        let occupied = self.view().dom();
        let all = Set::new(|i: usize| i < self.slots@.len());
        let freeset = self.free@.to_set();
        assert(self.slots@.len() == self.slots.len());
        lemma_usize_range_set(self.slots@.len());
        self.free@.unique_seq_to_set();
        assert(freeset.subset_of(all));
        assert(occupied.subset_of(all));
        vstd::set_lib::lemma_set_subset_finite(all, freeset);
        vstd::set_lib::lemma_set_subset_finite(all, occupied);
        assert forall|i: usize| occupied.contains(i) implies !freeset.contains(i) by {
            if freeset.contains(i) {
                let k = choose|k: int| 0 <= k < self.free@.len() && self.free@[k] == i;
                assert(self.slots@[self.free@[k] as int] is None);
            }
        }
        assert(occupied.disjoint(freeset));
        assert(all =~= occupied + freeset);
        vstd::set_lib::lemma_set_disjoint_lens(occupied, freeset);
    }

    /// Stores `item`, reusing the most recently freed position if there is one.
    pub fn push(&mut self, item: T) -> (index: Index)
        requires
            old(self).wf(),
            old(self).capacity_used() < usize::MAX,
        ensures
            DenseStorage::push_step(*old(self), item, *final(self), index),
    {
        let ghost old_slots = self.slots@;
        let ghost old_free = self.free@;
        match self.free.pop() {
            Some(i) => {
                assert(old_free[old_free.len() - 1] == i);
                self.slots.set(i, Some(item));
                assert forall|k: int| 0 <= k < self.free@.len() implies #[trigger] self.free@[k]
                    != i by {
                    assert(old_free[k] == self.free@[k]);
                }
                assert forall|j: int|
                    0 <= j < self.slots@.len() && #[trigger] self.slots@[j] is None implies self.free@.contains(
                    j as usize,
                ) by {
                    assert(j != i as int);
                    assert(old_slots[j] is None);
                    let k = choose|k: int| 0 <= k < old_free.len() && old_free[k] == j as usize;
                    assert(k != old_free.len() - 1);
                    assert(self.free@[k] == j as usize);
                }
                assert(self.view() =~= old(self).view().insert(i, item));
                Index(i)
            },
            None => {
                let i = self.slots.len();
                self.slots.push(Some(item));
                assert forall|j: int|
                    0 <= j < self.slots@.len() && #[trigger] self.slots@[j] is None implies self.free@.contains(
                    j as usize,
                ) by {
                    assert(j < old_slots.len());
                    assert(old_slots[j] is None);
                }
                assert(self.view() =~= old(self).view().insert(i, item));
                Index(i)
            },
        }
    }

    /// The item at `index`, if the position is occupied.
    pub fn get(&self, index: Index) -> (r: Option<&T>)
        ensures
            r == (if self.view().dom().contains(index.0) {
                Some(&self.view()[index.0])
            } else {
                None
            }),
    {
        if index.0 < self.slots.len() {
            self.slots[index.0].as_ref()
        } else {
            None
        }
    }

    /// A mutable reference to the item at `index`, if the position is occupied.
    pub fn get_mut(&mut self, index: Index) -> (r: Option<&mut T>)
        requires
            old(self).wf(),
        ensures
            final(self).wf(),
            old(self).view().dom().contains(index.0) <==> r is Some,
            r is Some ==> *r->0 == old(self).view()[index.0] && final(self).view() == old(
                self,
            ).view().insert(index.0, *final(r->0)),
            r is None ==> final(self).view() == old(self).view(),
            final(self).free_positions() == old(self).free_positions(),
            final(self).capacity_used() == old(self).capacity_used(),
    {
        if index.0 < self.slots.len() {
            let slot = &mut self.slots[index.0];
            slot.as_mut()
        } else {
            None
        }
    }

    /// Takes the item at `index` out of the storage and frees the position for reuse.
    pub fn remove_recycle(&mut self, index: Index) -> (r: Option<T>)
        requires
            old(self).wf(),
        ensures
            DenseStorage::remove_step(*old(self), index, *final(self), r),
    {
        if index.0 < self.slots.len() {
            let i = index.0;
            let ghost old_slots = self.slots@;
            let ghost old_free = self.free@;
            let slot = &mut self.slots[i];
            let taken = slot.take();
            match taken {
                Some(item) => {
                    assert(!old_free.contains(i)) by {
                        if old_free.contains(i) {
                            let k = choose|k: int| 0 <= k < old_free.len() && old_free[k] == i;
                            assert(old_slots[old_free[k] as int] is None);
                        }
                    }
                    self.free.push(i);
                    assert forall|k: int, l: int|
                        0 <= k < self.free@.len() && 0 <= l < self.free@.len() && k != l implies #[trigger] self.free@[k]
                        != #[trigger] self.free@[l] by {
                        if k == old_free.len() as int {
                            assert(old_free[l] != i);
                        } else if l == old_free.len() as int {
                            assert(old_free[k] != i);
                        }
                    }
                    assert forall|j: int|
                        0 <= j < self.slots@.len() && #[trigger] self.slots@[j] is None implies self.free@.contains(
                        j as usize,
                    ) by {
                        if j == i as int {
                            assert(self.free@[old_free.len() as int] == i);
                        } else {
                            assert(old_slots[j] is None);
                            let k = choose|k: int| 0 <= k < old_free.len() && old_free[k] == j as usize;
                            assert(self.free@[k] == j as usize);
                        }
                    }
                    assert(self.view() =~= old(self).view().remove(i));
                    Some(item)
                },
                None => {
                    assert(self.slots@ =~= old_slots);
                    assert(self.view() =~= old(self).view().remove(i));
                    None
                },
            }
        } else {
            assert(self.view() =~= old(self).view().remove(index.0));
            None
        }
    }
}

/// The position freed by a removal is the one the next push hands out: removing an item and
/// pushing another puts the new item where the old one was, and leaves every other item as it
/// was.
pub proof fn lemma_push_reuses_freed_position<T>(
    before: DenseStorage<T>,
    removed_at: Index,
    after_remove: DenseStorage<T>,
    removed: Option<T>,
    item: T,
    after_push: DenseStorage<T>,
    pushed_at: Index,
)
    requires
        before.wf(),
        before.view().dom().contains(removed_at.0),
        DenseStorage::remove_step(before, removed_at, after_remove, removed),
        DenseStorage::push_step(after_remove, item, after_push, pushed_at),
    ensures
        pushed_at == removed_at,
        removed == Some(before.view()[removed_at.0]),
        after_push.view() == before.view().insert(removed_at.0, item),
{
    assert(after_push.view() =~= before.view().insert(removed_at.0, item));
}

proof fn lemma_usize_range_set(n: nat)
    requires
        n <= usize::MAX + 1,
    ensures
        Set::new(|i: usize| i < n).finite(),
        Set::new(|i: usize| i < n).len() == n,
    decreases n,
{
    if n == 0 {
        assert(Set::new(|i: usize| i < n) =~= Set::<usize>::empty());
    } else {
        let m = (n - 1) as nat;
        lemma_usize_range_set(m);
        assert(Set::new(|i: usize| i < n) =~= Set::new(|i: usize| i < m).insert(m as usize));
    }
}

} // verus!
