use vstd::prelude::*;
use crate::render_state::TAG_NONE;

verus! {

/// A reference to a shared asset slot, with the tag it was made for.
#[derive(Clone, Copy, Debug, PartialEq, Eq, Structural)]
pub struct UntypedHandle {
    pub slot: usize,
    pub tag: u32,
}

/// The shared part behind all clones of a handle.
pub struct AssetHolder<A> {
    /// The asset, once it has been stored.
    pub data: Option<A>,
    pub loaded: bool,
    /// How many handles refer to this holder.
    pub ref_count: usize,
}

impl<A> AssetHolder<A> {
    /// An empty holder, referred to by the one handle made with it.
    pub fn new() -> (r: AssetHolder<A>)
        ensures
            r.data is None,
            !r.loaded,
            r.ref_count == 1,
    {
        AssetHolder { data: None, loaded: false, ref_count: 1 }
    }
}

/// The holders that handles point into.
pub struct AssetStore<A> {
    pub holders: Vec<AssetHolder<A>>,
}

impl<A> AssetStore<A> {
    /// A holder is loaded exactly when it holds an asset.
    pub open spec fn wf(&self) -> bool {
        forall|i: int|
            0 <= i < self.holders@.len() ==> (#[trigger] self.holders@[i]).loaded
                == self.holders@[i].data is Some
    }

    pub open spec fn valid_handle(&self, h: UntypedHandle) -> bool {
        h.slot < self.holders@.len()
    }

    pub open spec fn spec_loaded(&self, h: UntypedHandle) -> bool {
        self.holders@[h.slot as int].loaded
    }

    pub open spec fn spec_ref_count(&self, h: UntypedHandle) -> usize {
        self.holders@[h.slot as int].ref_count
    }

    pub open spec fn spec_data(&self, h: UntypedHandle) -> Option<A> {
        self.holders@[h.slot as int].data
    }

    /// `other` is `self` with the reference count of one holder changed.
    pub open spec fn same_but_count(&self, other: &AssetStore<A>, slot: int, count: usize) -> bool {
        &&& other.holders@.len() == self.holders@.len()
        &&& other.holders@[slot].ref_count == count
        &&& other.holders@[slot].loaded == self.holders@[slot].loaded
        &&& other.holders@[slot].data == self.holders@[slot].data
        &&& forall|i: int| 0 <= i < self.holders@.len() && i != slot ==> other.holders@[i] == self.holders@[i]
    }

    pub fn new() -> (r: AssetStore<A>)
        ensures
            r.wf(),
            r.holders@.len() == 0,
    {
        AssetStore { holders: Vec::new() }
    }

    /// A handle to a new, empty holder (reference count 1).
    pub fn new_handle(&mut self, tag: u32) -> (h: UntypedHandle)
        requires
            old(self).wf(),
        ensures
            final(self).wf(),
            h.tag == tag,
            h.slot == old(self).holders@.len(),
            final(self).holders@ == old(self).holders@.push(
                AssetHolder { data: None, loaded: false, ref_count: 1 },
            ),
    {
        let slot = self.holders.len();
        self.holders.push(AssetHolder::new());
        UntypedHandle { slot, tag }
    }

    fn set_ref_count(&mut self, slot: usize, count: usize)
        requires
            old(self).wf(),
            slot < old(self).holders@.len(),
        ensures
            final(self).wf(),
            old(self).same_but_count(final(self), slot as int, count),
    {
        self.holders[slot].ref_count = count;
        assert(forall|i: int| 0 <= i < old(self).holders@.len() && i != slot ==> final(self).holders@[i] == old(self).holders@[i]);
    }

    /// Another handle to the same holder.
    pub fn clone_handle(&mut self, h: UntypedHandle) -> (c: UntypedHandle)
        requires
            old(self).wf(),
            old(self).valid_handle(h),
            old(self).spec_ref_count(h) < usize::MAX,
        ensures
            final(self).wf(),
            c == h,
            old(self).same_but_count(final(self), h.slot as int, (old(self).spec_ref_count(h) + 1) as usize),
    {
        let count = self.holders[h.slot].ref_count;
        self.set_ref_count(h.slot, count + 1);
        h
    }

    /// Gives up a handle.
    pub fn drop_handle(&mut self, h: UntypedHandle)
        requires
            old(self).wf(),
            old(self).valid_handle(h),
            old(self).spec_ref_count(h) > 0,
        ensures
            final(self).wf(),
            old(self).same_but_count(final(self), h.slot as int, (old(self).spec_ref_count(h) - 1) as usize),
    {
        let count = self.holders[h.slot].ref_count;
        self.set_ref_count(h.slot, count - 1);
    }

    /// True once an asset has been stored through any clone of the handle.
    pub fn is_loaded(&self, h: UntypedHandle) -> (r: bool)
        requires
            self.valid_handle(h),
        ensures
            r == self.spec_loaded(h),
    {
        self.holders[h.slot].loaded
    }

    pub fn ref_count(&self, h: UntypedHandle) -> (r: usize)
        requires
            self.valid_handle(h),
        ensures
            r == self.spec_ref_count(h),
    {
        self.holders[h.slot].ref_count
    }

    /// Stores the asset, unless one is stored already (then nothing changes
    /// and false is returned).
    pub fn update(&mut self, h: UntypedHandle, asset: A) -> (stored: bool)
        requires
            old(self).wf(),
            old(self).valid_handle(h),
        ensures
            final(self).wf(),
            stored == !old(self).spec_loaded(h),
            stored ==> final(self).holders@ == old(self).holders@.update(
                h.slot as int,
                AssetHolder { data: Some(asset), loaded: true, ref_count: old(self).spec_ref_count(h) },
            ),
            !stored ==> final(self).holders@ == old(self).holders@,
    {
        if self.holders[h.slot].loaded {
            return false;
        }
        self.holders[h.slot].data = Some(asset);
        self.holders[h.slot].loaded = true;
        assert(self.holders@ =~= old(self).holders@.update(
            h.slot as int,
            AssetHolder { data: Some(asset), loaded: true, ref_count: old(self).spec_ref_count(h) },
        ));
        true
    }

    /// A null handle names no tag.
    pub fn is_null(&self, h: UntypedHandle) -> (r: bool)
        ensures
            r == (h.tag == TAG_NONE),
    {
        h.tag == TAG_NONE
    }

    /// True if the handle is null or its asset is loaded.
    pub fn handle_is_loaded(&self, h: UntypedHandle) -> (r: bool)
        requires
            self.valid_handle(h),
        ensures
            r == (h.tag == TAG_NONE || self.spec_loaded(h)),
    {
        self.is_null(h) || self.is_loaded(h)
    }

    /// The asset behind the handle, once it is loaded.
    pub fn get(&self, h: UntypedHandle) -> (r: Option<&A>)
        requires
            self.wf(),
            self.valid_handle(h),
        ensures
            r == (if self.spec_loaded(h) {
                Some(&self.spec_data(h)->0)
            } else {
                None::<&A>
            }),
    {
        if !self.handle_is_loaded(h) {
            return None;
        }
        proof {
            assert(self.holders@[h.slot as int].loaded == self.holders@[h.slot as int].data is Some);
        }
        self.holders[h.slot].data.as_ref()
    }

    /// Whether a technique handle is ready to draw with: a null handle is, a
    /// handle whose technique is not stored yet is not, and otherwise it is
    /// when the stored technique reports its own resources loaded
    /// (`technique_ready`).
    pub fn is_technique_loaded(&self, h: UntypedHandle, technique_ready: bool) -> (r: bool)
        requires
            self.wf(),
            self.valid_handle(h),
        ensures
            r == (h.tag == TAG_NONE || (self.spec_loaded(h) && technique_ready)),
    {
        if self.is_null(h) {
            return true;
        }
        match self.get(h) {
            Some(_) => technique_ready,
            None => false,
        }
    }
}

/// Dropping a handle undoes cloning it: a clone followed by a drop of the
/// same holder leaves every holder as it was.
pub proof fn lemma_drop_undoes_clone<A>(s0: AssetStore<A>, s1: AssetStore<A>, s2: AssetStore<A>, h: UntypedHandle)
    requires
        s0.valid_handle(h),
        s0.same_but_count(&s1, h.slot as int, (s0.spec_ref_count(h) + 1) as usize),
        s1.same_but_count(&s2, h.slot as int, (s1.spec_ref_count(h) - 1) as usize),
        s0.spec_ref_count(h) < usize::MAX,
    ensures
        s2.holders@ == s0.holders@,
{
    assert(s2.holders@[h.slot as int] == s0.holders@[h.slot as int]);
    assert(s2.holders@ =~= s0.holders@);
}

} // verus!
