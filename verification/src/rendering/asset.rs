//! Storage for GPU resources of one kind, addressed by typed handles.
use vstd::prelude::*;

use std::marker::PhantomData;

use crate::dense_storage::{DenseStorage, Index};

verus! {

/// A typed reference to an asset held by a [`RenderAssets`] of the same type.
pub struct Handle<T> {
    index: Index,
    _marker: PhantomData<T>,
}

impl<T> Handle<T> {
    /// The position of the asset that the handle refers to.
    pub closed spec fn id(self) -> usize {
        self.index.0
    }

    /// A handle to the asset at `index`.
    pub fn new(index: Index) -> (h: Self)
        ensures
            h.id() == index.0,
    {
        Handle { index, _marker: PhantomData }
    }

    /// The position of the asset that the handle refers to.
    pub fn index(&self) -> (i: Index)
        ensures
            i.0 == self.id(),
    {
        self.index
    }
}

impl<T> Clone for Handle<T> {
    fn clone(&self) -> (h: Self)
        ensures
            h.id() == self.id(),
    {
        Handle { index: self.index, _marker: PhantomData }
    }
}

/// The assets of one type. Adding an asset gives a handle; the handle reads, changes or takes
/// the asset back out.
pub struct RenderAssets<T> {
    storage: DenseStorage<T>,
}

impl<T> RenderAssets<T> {
    /// The assets held, keyed by the positions their handles refer to.
    pub closed spec fn view(&self) -> Map<usize, T> {
        self.storage.view()
    }

    /// The internal storage is consistent.
    pub closed spec fn wf(&self) -> bool {
        self.storage.wf()
    }

    /// Whether another asset can be added: the positions handed out so far leave room.
    pub closed spec fn has_room(&self) -> bool {
        self.storage.capacity_used() < usize::MAX
    }

    /// No assets.
    pub fn new() -> (assets: Self)
        ensures
            assets.wf(),
            assets.view() == Map::<usize, T>::empty(),
            assets.has_room(),
    {
        RenderAssets { storage: DenseStorage::new() }
    }

    /// Whether the positions handed out so far leave no room for another asset.
    pub fn is_full(&self) -> (full: bool)
        ensures
            full == !self.has_room(),
    {
        self.storage.is_full()
    }

    /// The number of assets held.
    pub fn len(&self) -> (n: usize)
        requires
            self.wf(),
        ensures
            n == self.view().dom().len(),
    {
        self.storage.len()
    }

    /// Stores `asset` and returns the handle that refers to it. The handle refers to no other
    /// asset held.
    pub fn add(&mut self, asset: T) -> (handle: Handle<T>)
        requires
            old(self).wf(),
            old(self).has_room(),
        ensures
            final(self).wf(),
            !old(self).view().dom().contains(handle.id()),
            final(self).view() == old(self).view().insert(handle.id(), asset),
    {
        let index = self.storage.push(asset);
        Handle::new(index)
    }

    /// The asset that `handle` refers to, if it is held.
    pub fn get(&self, handle: Handle<T>) -> (r: Option<&T>)
        ensures
            r == (if self.view().dom().contains(handle.id()) {
                Some(&self.view()[handle.id()])
            } else {
                None
            }),
    {
        self.storage.get(handle.index)
    }

    /// A mutable reference to the asset that `handle` refers to, if it is held.
    pub fn get_mut(&mut self, handle: Handle<T>) -> (r: Option<&mut T>)
        requires
            old(self).wf(),
        ensures
            final(self).wf(),
            old(self).view().dom().contains(handle.id()) <==> r is Some,
            r is Some ==> *r->0 == old(self).view()[handle.id()] && final(self).view() == old(
                self,
            ).view().insert(handle.id(), *final(r->0)),
            r is None ==> final(self).view() == old(self).view(),
            final(self).has_room() == old(self).has_room(),
    {
        self.storage.get_mut(handle.index)
    }

    /// Takes the asset that `handle` refers to out of the storage. The asset is not destroyed:
    /// that is the caller's to do.
    pub fn remove(&mut self, handle: Handle<T>) -> (r: Option<T>)
        requires
            old(self).wf(),
        ensures
            final(self).wf(),
            r == (if old(self).view().dom().contains(handle.id()) {
                Some(old(self).view()[handle.id()])
            } else {
                None
            }),
            final(self).view() == old(self).view().remove(handle.id()),
            final(self).has_room() == old(self).has_room(),
    {
        self.storage.remove_recycle(handle.index)
    }
}

/// Removing an asset undoes adding it: the asset comes back out unchanged, the handle then
/// refers to nothing, and the other assets are as they were before the add.
pub proof fn lemma_remove_undoes_add<T>(
    before: Map<usize, T>,
    handle: usize,
    asset: T,
    after_add: Map<usize, T>,
    removed: Option<T>,
    after_remove: Map<usize, T>,
)
    requires
        !before.dom().contains(handle),
        after_add == before.insert(handle, asset),
        removed == (if after_add.dom().contains(handle) {
            Some(after_add[handle])
        } else {
            None
        }),
        after_remove == after_add.remove(handle),
    ensures
        removed == Some(asset),
        after_remove == before,
        !after_remove.dom().contains(handle),
{
    assert(after_remove =~= before);
}

/// Two handles given out while both assets are held refer to different assets.
pub proof fn lemma_live_handles_distinct<T>(
    before: Map<usize, T>,
    first: usize,
    a: T,
    middle: Map<usize, T>,
    second: usize,
    b: T,
    after: Map<usize, T>,
)
    requires
        !before.dom().contains(first),
        middle == before.insert(first, a),
        !middle.dom().contains(second),
        after == middle.insert(second, b),
    ensures
        first != second,
        after[first] == a,
        after[second] == b,
{
}

} // verus!
