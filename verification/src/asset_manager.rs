use vstd::prelude::*;
use crate::asset::{AssetStore, UntypedHandle};
use crate::render_state::TAG_NONE;

verus! {

/// What the manager keeps for a requested tag: the asset type it was
/// requested as and the handle it holds.
#[derive(Clone, Copy, Debug, PartialEq, Eq, Structural)]
pub struct AssetEntry {
    pub type_id: u128,
    pub handle: UntypedHandle,
}

/// The manager's map from tag hash to entry, a `hashbrown::HashMap`.
#[verifier::external_body]
pub struct AssetTable {
    inner: hashbrown::HashMap<u32, AssetEntry>,
}

/// The entries of an asset table.
pub uninterp spec fn asset_table_entries(t: AssetTable) -> Map<u32, AssetEntry>;

impl View for AssetTable {
    type V = Map<u32, AssetEntry>;

    open spec fn view(&self) -> Map<u32, AssetEntry> {
        asset_table_entries(*self)
    }
}

/// The contents of an empty table.
pub open spec fn no_entries() -> Map<u32, AssetEntry> {
    Map::empty()
}

/// An empty table (`hashbrown::HashMap::new`).
#[verifier::external_body]
fn table_new() -> (table: AssetTable)
    ensures
        table@ == no_entries(),
{
    AssetTable { inner: hashbrown::HashMap::new() }
}

/// `hashbrown::HashMap::get`: the entry of a tag, if there is one.
#[verifier::external_body]
fn table_get(t: &AssetTable, tag: u32) -> (r: Option<AssetEntry>)
    ensures
        r == (if asset_table_entries(*t).contains_key(tag) {
            Some(asset_table_entries(*t)[tag])
        } else {
            None
        }),
{
    t.inner.get(&tag).copied()
}

/// `hashbrown::HashMap::insert`: the tag maps to the entry afterwards.
#[verifier::external_body]
fn table_insert(t: &mut AssetTable, tag: u32, entry: AssetEntry)
    ensures
        asset_table_entries(*final(t)) == asset_table_entries(*old(t)).insert(tag, entry),
{
    t.inner.insert(tag, entry);
}

/// `hashbrown::HashMap::remove`: the tag has no entry afterwards.
#[verifier::external_body]
fn table_remove(t: &mut AssetTable, tag: u32)
    ensures
        asset_table_entries(*final(t)) == asset_table_entries(*old(t)).remove(tag),
{
    t.inner.remove(&tag);
}

/// `hashbrown::HashMap::keys`, collected: every tag once, in the table's
/// own order (which this contract leaves open).
#[verifier::external_body]
fn table_keys(t: &AssetTable) -> (r: Vec<u32>)
    ensures
        r@.no_duplicates(),
        r@.to_set() == asset_table_entries(*t).dom(),
{
    t.inner.keys().copied().collect()
}

/// A request for the loader: fill the handle's holder with the asset of the
/// tag, read as the given asset type.
#[derive(Clone, Copy, Debug, PartialEq, Eq, Structural)]
pub struct LoadRequest {
    pub tag: u32,
    pub handle: UntypedHandle,
    pub type_id: u128,
}

/// What `try_load` hands back: the handle, if any, and a load to start.
#[derive(Clone, Copy, Debug, PartialEq, Eq, Structural)]
pub struct TryLoad {
    pub handle: Option<UntypedHandle>,
    pub request: Option<LoadRequest>,
}

/// What `try_load` answers when the requested tags are `entries` and a new
/// holder would get slot `next_slot`.
pub open spec fn spec_try_load(entries: Map<u32, AssetEntry>, next_slot: int, tag: u32, type_id: u128) -> TryLoad {
    if tag == TAG_NONE {
        TryLoad { handle: None, request: None }
    } else if entries.contains_key(tag) {
        if entries[tag].type_id == type_id {
            TryLoad { handle: Some(entries[tag].handle), request: None }
        } else {
            TryLoad { handle: None, request: None }
        }
    } else {
        let h = UntypedHandle { slot: next_slot as usize, tag };
        TryLoad { handle: Some(h), request: Some(LoadRequest { tag, handle: h, type_id }) }
    }
}

/// The requested tags after `try_load`.
pub open spec fn spec_entries_after_try_load(entries: Map<u32, AssetEntry>, next_slot: int, tag: u32, type_id: u128) -> Map<u32, AssetEntry> {
    if tag == TAG_NONE || entries.contains_key(tag) {
        entries
    } else {
        entries.insert(tag, AssetEntry { type_id, handle: UntypedHandle { slot: next_slot as usize, tag } })
    }
}

/// A tag is loaded once: asking for it again as the same asset type gives
/// the same handle, starts no second load and leaves the requested tags as
/// they are.
pub proof fn lemma_load_once(entries: Map<u32, AssetEntry>, next_slot: int, later_slot: int, tag: u32, type_id: u128)
    ensures
        ({
            let first = spec_try_load(entries, next_slot, tag, type_id);
            let after = spec_entries_after_try_load(entries, next_slot, tag, type_id);
            let second = spec_try_load(after, later_slot, tag, type_id);
            &&& tag != TAG_NONE && !(entries.contains_key(tag) && entries[tag].type_id != type_id)
                ==> second == (TryLoad { handle: first.handle, request: None })
            &&& spec_entries_after_try_load(after, later_slot, tag, type_id) == after
        }),
{
}

/// A tag requested as one asset type is refused as any other type, however
/// often it is asked for.
pub proof fn lemma_type_is_fixed(entries: Map<u32, AssetEntry>, next_slot: int, tag: u32, first_type: u128, other_type: u128)
    requires
        tag != TAG_NONE,
        !entries.contains_key(tag),
        first_type != other_type,
    ensures
        ({
            let after = spec_entries_after_try_load(entries, next_slot, tag, first_type);
            spec_try_load(after, next_slot + 1, tag, other_type) == (TryLoad { handle: None, request: None })
        }),
{
}

/// Hands out one shared handle per requested tag; new requests go to a
/// loader, which fills the handle's holder when it is done.
pub struct AssetManager<A> {
    pub assets: AssetTable,
    pub store: AssetStore<A>,
    pub num_loading: usize,
    pub dummy_handle: UntypedHandle,
}

impl<A> AssetManager<A> {
    /// The requested tags with their entries.
    pub open spec fn entries(&self) -> Map<u32, AssetEntry> {
        self.assets@
    }

    pub open spec fn spec_num_loading(&self) -> usize {
        self.num_loading
    }

    /// The handle given out for tags that cannot be loaded.
    pub open spec fn spec_dummy(&self) -> UntypedHandle {
        self.dummy_handle
    }

    pub open spec fn wf(&self) -> bool {
        &&& self.store.wf()
        &&& self.store.valid_handle(self.spec_dummy())
        &&& self.spec_dummy().tag == TAG_NONE
        &&& forall|t: u32| #[trigger] self.entries().contains_key(t) ==> {
            &&& self.store.valid_handle(self.entries()[t].handle)
            &&& self.entries()[t].handle.tag == t
            &&& t != TAG_NONE
            &&& self.store.spec_ref_count(self.entries()[t].handle) >= 1
            &&& self.entries()[t].handle.slot != self.spec_dummy().slot
        }
        &&& forall|t1: u32, t2: u32| #[trigger] self.entries().contains_key(t1)
            && #[trigger] self.entries().contains_key(t2) && t1 != t2
            ==> self.entries()[t1].handle.slot != self.entries()[t2].handle.slot
    }

    pub fn new() -> (r: AssetManager<A>)
        ensures
            r.wf(),
            r.entries() == no_entries(),
            r.spec_num_loading() == 0,
            r.store.holders@.len() == 1,
    {
        let mut store = AssetStore::new();
        let dummy_handle = store.new_handle(TAG_NONE);
        AssetManager { assets: table_new(), store, num_loading: 0, dummy_handle }
    }

    /// How many loads have been started and not finished.
    pub fn count_loading(&self) -> (r: usize)
        ensures
            r == self.spec_num_loading(),
    {
        self.num_loading
    }

    /// A new handle to the entry of `tag` when it was requested as `type_id`.
    pub fn get(&mut self, tag: u32, type_id: u128) -> (r: Option<UntypedHandle>)
        requires
            old(self).wf(),
            forall|t: u32| old(self).entries().contains_key(t) ==>
                old(self).store.spec_ref_count(#[trigger] old(self).entries()[t].handle) < usize::MAX,
        ensures
            final(self).wf(),
            final(self).entries() == old(self).entries(),
            final(self).spec_num_loading() == old(self).spec_num_loading(),
            r == (if old(self).entries().contains_key(tag) && old(self).entries()[tag].type_id
                == type_id {
                Some(old(self).entries()[tag].handle)
            } else {
                None
            }),
            r matches Some(h) ==> old(self).store.same_but_count(
                &final(self).store,
                h.slot as int,
                (old(self).store.spec_ref_count(h) + 1) as usize,
            ),
            r is None ==> final(self).store == old(self).store,
    {
        match table_get(&self.assets, tag) {
            Some(entry) => {
                assert(old(self).entries().contains_key(tag));
                assert(entry == old(self).entries()[tag]);
                assert(old(self).store.valid_handle(entry.handle));
                if entry.type_id == type_id {
                    let h = self.store.clone_handle(entry.handle);
                    proof { self.lemma_counts_grow(old(self), h.slot as int); }
                    Some(h)
                } else {
                    None
                }
            },
            None => None,
        }
    }

    proof fn lemma_counts_grow(&self, before: &AssetManager<A>, slot: int)
        requires
            before.wf(),
            self.assets == before.assets,
            self.dummy_handle == before.dummy_handle,
            self.store.wf(),
            0 <= slot < before.store.holders@.len(),
            before.store.same_but_count(&self.store, slot, self.store.holders@[slot].ref_count),
            self.store.holders@[slot].ref_count >= 1,
        ensures
            self.wf(),
    {
        assert forall|t: u32| #[trigger] self.entries().contains_key(t) implies {
            &&& self.store.valid_handle(self.entries()[t].handle)
            &&& self.entries()[t].handle.tag == t
            &&& t != TAG_NONE
            &&& self.store.spec_ref_count(self.entries()[t].handle) >= 1
            &&& self.entries()[t].handle.slot != self.spec_dummy().slot
        } by {
            assert(before.entries().contains_key(t));
        }
    }

    /// A handle for `tag` as asset type `type_id`: the cached one when the tag
    /// was requested as that type before, none when it was requested as
    /// another type or is null, and otherwise a new handle together with the
    /// load to start for it.
    pub fn try_load(&mut self, tag: u32, type_id: u128) -> (r: TryLoad)
        requires
            old(self).wf(),
            old(self).spec_num_loading() < usize::MAX,
            forall|t: u32| old(self).entries().contains_key(t) ==>
                old(self).store.spec_ref_count(#[trigger] old(self).entries()[t].handle) < usize::MAX,
        ensures
            final(self).wf(),
            r == spec_try_load(old(self).entries(), old(self).store.holders@.len() as int, tag, type_id),
            final(self).entries() == spec_entries_after_try_load(
                old(self).entries(),
                old(self).store.holders@.len() as int,
                tag,
                type_id,
            ),
            tag == TAG_NONE ==> r == (TryLoad { handle: None, request: None }) && *final(self)
                == *old(self),
            tag != TAG_NONE && old(self).entries().contains_key(tag) ==> {
                let e = old(self).entries()[tag];
                &&& r.request is None
                &&& final(self).entries() == old(self).entries()
                &&& final(self).spec_num_loading() == old(self).spec_num_loading()
                &&& if e.type_id == type_id {
                    &&& r.handle == Some(e.handle)
                    &&& old(self).store.same_but_count(
                        &final(self).store,
                        e.handle.slot as int,
                        (old(self).store.spec_ref_count(e.handle) + 1) as usize,
                    )
                } else {
                    &&& r.handle is None
                    &&& final(self).store == old(self).store
                }
            },
            tag != TAG_NONE && !old(self).entries().contains_key(tag) ==> {
                let h = UntypedHandle { slot: old(self).store.holders@.len() as usize, tag };
                &&& r.handle == Some(h)
                &&& r.request == Some(LoadRequest { tag, handle: h, type_id })
                &&& final(self).entries() == old(self).entries().insert(tag, AssetEntry { type_id, handle: h })
                &&& final(self).store.holders@ == old(self).store.holders@.push(
                    crate::asset::AssetHolder { data: None, loaded: false, ref_count: 3 },
                )
                &&& final(self).spec_num_loading() == old(self).spec_num_loading() + 1
            },
            final(self).spec_dummy() == old(self).spec_dummy(),
    {
        if tag == TAG_NONE {
            return TryLoad { handle: None, request: None };
        }
        match table_get(&self.assets, tag) {
            Some(entry) => {
                assert(old(self).entries().contains_key(tag));
                assert(old(self).store.valid_handle(entry.handle));
                if entry.type_id == type_id {
                    let h = self.store.clone_handle(entry.handle);
                    proof { self.lemma_counts_grow(old(self), h.slot as int); }
                    TryLoad { handle: Some(h), request: None }
                } else {
                    TryLoad { handle: None, request: None }
                }
            },
            None => {
                let h = self.store.new_handle(tag);
                table_insert(&mut self.assets, tag, AssetEntry { type_id, handle: h });
                let ghost mid = self.store;
                let request_handle = self.store.clone_handle(h);
                let h = self.store.clone_handle(h);
                self.num_loading = self.num_loading + 1;
                proof {
                    assert(self.store.holders@ =~= old(self).store.holders@.push(
                        crate::asset::AssetHolder { data: None, loaded: false, ref_count: 3 },
                    ));
                    assert forall|t: u32| #[trigger] self.entries().contains_key(t) implies {
                        &&& self.store.valid_handle(self.entries()[t].handle)
                        &&& self.entries()[t].handle.tag == t
                        &&& t != TAG_NONE
                        &&& self.store.spec_ref_count(self.entries()[t].handle) >= 1
                        &&& self.entries()[t].handle.slot != self.spec_dummy().slot
                    } by {
                        if t != tag {
                            assert(old(self).entries().contains_key(t));
                        }
                    }
                    assert forall|t1: u32, t2: u32| #[trigger] self.entries().contains_key(t1)
                        && #[trigger] self.entries().contains_key(t2) && t1 != t2
                        implies self.entries()[t1].handle.slot != self.entries()[t2].handle.slot by {
                        if t1 != tag {
                            assert(old(self).entries().contains_key(t1));
                        }
                        if t2 != tag {
                            assert(old(self).entries().contains_key(t2));
                        }
                    }
                }
                TryLoad { handle: Some(h), request: Some(LoadRequest { tag, handle: request_handle, type_id }) }
            },
        }
    }

    /// Like `try_load`, but a tag that cannot be loaded gets a new handle to
    /// the shared dummy holder.
    pub fn load(&mut self, tag: u32, type_id: u128) -> (r: (UntypedHandle, Option<LoadRequest>))
        requires
            old(self).wf(),
            old(self).spec_num_loading() < usize::MAX,
            old(self).store.spec_ref_count(old(self).spec_dummy()) < usize::MAX,
            forall|t: u32| old(self).entries().contains_key(t) ==>
                old(self).store.spec_ref_count(#[trigger] old(self).entries()[t].handle) < usize::MAX,
        ensures
            final(self).wf(),
            final(self).spec_dummy() == old(self).spec_dummy(),
            (tag == TAG_NONE || (old(self).entries().contains_key(tag)
                && old(self).entries()[tag].type_id != type_id)) ==> {
                &&& r == (old(self).spec_dummy(), None::<LoadRequest>)
                &&& final(self).entries() == old(self).entries()
                &&& final(self).spec_num_loading() == old(self).spec_num_loading()
                &&& old(self).store.same_but_count(
                    &final(self).store,
                    old(self).spec_dummy().slot as int,
                    (old(self).store.spec_ref_count(old(self).spec_dummy()) + 1) as usize,
                )
            },
            tag != TAG_NONE && old(self).entries().contains_key(tag)
                && old(self).entries()[tag].type_id == type_id ==> {
                &&& r == (old(self).entries()[tag].handle, None::<LoadRequest>)
                &&& final(self).entries() == old(self).entries()
                &&& final(self).spec_num_loading() == old(self).spec_num_loading()
                &&& old(self).store.same_but_count(
                    &final(self).store,
                    r.0.slot as int,
                    (old(self).store.spec_ref_count(r.0) + 1) as usize,
                )
            },
            tag != TAG_NONE && !old(self).entries().contains_key(tag) ==> {
                let h = UntypedHandle { slot: old(self).store.holders@.len() as usize, tag };
                &&& r == (h, Some(LoadRequest { tag, handle: h, type_id }))
                &&& final(self).entries() == old(self).entries().insert(tag, AssetEntry { type_id, handle: h })
                &&& final(self).store.holders@ == old(self).store.holders@.push(
                    crate::asset::AssetHolder { data: None, loaded: false, ref_count: 3 },
                )
                &&& final(self).spec_num_loading() == old(self).spec_num_loading() + 1
            },
    {
        let t = self.try_load(tag, type_id);
        match t.handle {
            Some(h) => (h, t.request),
            None => {
                let d = self.dummy_handle;
                let h = self.store.clone_handle(d);
                proof {
                    assert forall|e: u32| #[trigger] self.entries().contains_key(e) implies {
                        &&& self.store.valid_handle(self.entries()[e].handle)
                        &&& self.entries()[e].handle.tag == e
                        &&& e != TAG_NONE
                        &&& self.store.spec_ref_count(self.entries()[e].handle) >= 1
                        &&& self.entries()[e].handle.slot != self.spec_dummy().slot
                    } by {
                        assert(old(self).entries().contains_key(e));
                    }
                }
                (h, None)
            },
        }
    }

    /// Finishes a load started by `try_load`: stores the asset if one was
    /// read (and none is stored yet), counts the load as done and gives up
    /// the request's handle.
    pub fn finish_load(&mut self, request: LoadRequest, asset: Option<A>)
        requires
            old(self).wf(),
            old(self).store.valid_handle(request.handle),
            old(self).store.spec_ref_count(request.handle) >= 2,
            old(self).spec_num_loading() > 0,
        ensures
            final(self).wf(),
            final(self).entries() == old(self).entries(),
            final(self).spec_dummy() == old(self).spec_dummy(),
            final(self).spec_num_loading() == old(self).spec_num_loading() - 1,
            final(self).store.holders@.len() == old(self).store.holders@.len(),
            final(self).store.spec_ref_count(request.handle) == old(self).store.spec_ref_count(request.handle) - 1,
            old(self).store.spec_loaded(request.handle) || asset is None ==> final(self).store.spec_data(request.handle)
                == old(self).store.spec_data(request.handle),
            !old(self).store.spec_loaded(request.handle) && asset is Some ==> final(self).store.spec_data(request.handle)
                == asset,
            !old(self).store.spec_loaded(request.handle) && asset is None ==> !final(self).store.spec_loaded(request.handle),
            forall|i: int| 0 <= i < old(self).store.holders@.len() && i != request.handle.slot
                ==> final(self).store.holders@[i] == old(self).store.holders@[i],
    {
        match asset {
            Some(a) => {
                self.store.update(request.handle, a);
            },
            None => {},
        }
        self.num_loading = self.num_loading - 1;
        self.store.drop_handle(request.handle);
        proof {
            assert forall|e: u32| #[trigger] self.entries().contains_key(e) implies {
                &&& self.store.valid_handle(self.entries()[e].handle)
                &&& self.entries()[e].handle.tag == e
                &&& e != TAG_NONE
                &&& self.store.spec_ref_count(self.entries()[e].handle) >= 1
                &&& self.entries()[e].handle.slot != self.spec_dummy().slot
            } by {
                assert(old(self).entries().contains_key(e));
                assert(old(self).store.valid_handle(self.entries()[e].handle));
            }
            assert(self.entries() == old(self).entries());
        }
    }

    /// The entry is referenced by some handle besides the manager's own.
    pub open spec fn spec_referenced(&self, t: u32) -> bool {
        self.store.spec_ref_count(self.entries()[t].handle) > 1
    }

    /// Another handle to the holder of `h`.
    pub fn clone_handle(&mut self, h: UntypedHandle) -> (c: UntypedHandle)
        requires
            old(self).wf(),
            old(self).store.valid_handle(h),
            old(self).store.spec_ref_count(h) < usize::MAX,
        ensures
            final(self).wf(),
            c == h,
            final(self).entries() == old(self).entries(),
            final(self).spec_num_loading() == old(self).spec_num_loading(),
            final(self).spec_dummy() == old(self).spec_dummy(),
            old(self).store.same_but_count(&final(self).store, h.slot as int, (old(self).store.spec_ref_count(h) + 1) as usize),
    {
        let c = self.store.clone_handle(h);
        proof { self.lemma_counts_grow(old(self), h.slot as int); }
        c
    }

    /// Gives up a handle that is not the manager's own.
    pub fn drop_handle(&mut self, h: UntypedHandle)
        requires
            old(self).wf(),
            old(self).store.valid_handle(h),
            old(self).store.spec_ref_count(h) > 0,
            forall|t: u32| #[trigger] old(self).entries().contains_key(t) && old(self).entries()[t].handle.slot == h.slot
                ==> old(self).store.spec_ref_count(h) >= 2,
        ensures
            final(self).wf(),
            final(self).entries() == old(self).entries(),
            final(self).spec_num_loading() == old(self).spec_num_loading(),
            final(self).spec_dummy() == old(self).spec_dummy(),
            old(self).store.same_but_count(&final(self).store, h.slot as int, (old(self).store.spec_ref_count(h) - 1) as usize),
    {
        self.store.drop_handle(h);
        proof {
            assert forall|e: u32| #[trigger] self.entries().contains_key(e) implies {
                &&& self.store.valid_handle(self.entries()[e].handle)
                &&& self.entries()[e].handle.tag == e
                &&& e != TAG_NONE
                &&& self.store.spec_ref_count(self.entries()[e].handle) >= 1
                &&& self.entries()[e].handle.slot != self.spec_dummy().slot
            } by {
                assert(old(self).entries().contains_key(e));
            }
            assert(self.entries() == old(self).entries());
        }
    }

    /// Forgets the tags whose holder only the manager still refers to, and
    /// gives up the manager's handle to each of them.
    pub fn remove_unreferenced(&mut self)
        requires
            old(self).wf(),
        ensures
            final(self).wf(),
            final(self).entries() == old(self).entries().restrict(
                Set::new(|t: u32| old(self).spec_referenced(t)),
            ),
            final(self).spec_num_loading() == old(self).spec_num_loading(),
            final(self).spec_dummy() == old(self).spec_dummy(),
            final(self).store.holders@.len() == old(self).store.holders@.len(),
            forall|i: int| 0 <= i < old(self).store.holders@.len() ==> {
                &&& (#[trigger] final(self).store.holders@[i]).data == old(self).store.holders@[i].data
                &&& final(self).store.holders@[i].loaded == old(self).store.holders@[i].loaded
                &&& final(self).store.holders@[i].ref_count == old(self).store.holders@[i].ref_count
                    || (old(self).store.holders@[i].ref_count == 1 && final(self).store.holders@[i].ref_count == 0)
            },
            forall|t: u32| #[trigger] old(self).entries().contains_key(t) ==>
                final(self).store.spec_ref_count(old(self).entries()[t].handle)
                    == if old(self).spec_referenced(t) { old(self).store.spec_ref_count(old(self).entries()[t].handle) } else { 0 },
    {
        let keys = table_keys(&self.assets);
        let ghost old_entries = old(self).entries();
        let ghost old_store = old(self).store;
        let ghost keep = Set::new(|t: u32| old(self).spec_referenced(t));
        let mut i: usize = 0;
        while i < keys.len()
            invariant
                old(self).wf(),
                old_entries == old(self).entries(),
                old_store == old(self).store,
                keep == Set::new(|t: u32| old(self).spec_referenced(t)),
                keys@.no_duplicates(),
                keys@.to_set() == old_entries.dom(),
                i <= keys@.len(),
                self.dummy_handle == old(self).dummy_handle,
                self.num_loading == old(self).num_loading,
                self.store.wf(),
                self.store.holders@.len() == old_store.holders@.len(),
                forall|t: u32| #[trigger] self.entries().contains_key(t) <==> (old_entries.contains_key(t)
                    && (!keys@.subrange(0, i as int).contains(t) || keep.contains(t))),
                forall|t: u32| #[trigger] self.entries().contains_key(t) ==> self.entries()[t] == old_entries[t],
                forall|j: int| 0 <= j < old_store.holders@.len() ==> {
                    &&& (#[trigger] self.store.holders@[j]).data == old_store.holders@[j].data
                    &&& self.store.holders@[j].loaded == old_store.holders@[j].loaded
                    &&& self.store.holders@[j].ref_count == old_store.holders@[j].ref_count
                        || (old_store.holders@[j].ref_count == 1 && self.store.holders@[j].ref_count == 0)
                },
                forall|t: u32| #[trigger] old_entries.contains_key(t) ==>
                    self.store.spec_ref_count(old_entries[t].handle)
                        == if keys@.subrange(0, i as int).contains(t) && !keep.contains(t) { 0 } else {
                            old_store.spec_ref_count(old_entries[t].handle) },
            decreases keys@.len() - i,
        {
            let tag = keys[i];
            proof {
                assert(keys@.to_set().contains(tag));
                assert(!keys@.subrange(0, i as int).contains(tag)) by {
                    if keys@.subrange(0, i as int).contains(tag) {
                        let k = choose|k: int| 0 <= k < i && keys@.subrange(0, i as int)[k] == tag;
                        assert(keys@[k] == keys@[i as int]);
                    }
                }
                assert(self.entries().contains_key(tag));
            }
            let entry = match table_get(&self.assets, tag) {
                Some(e) => e,
                None => {
                    proof { assert(false); }
                    return;
                },
            };
            proof {
                assert(old_entries.contains_key(tag));
                assert(entry == old_entries[tag]);
            }
            let count = self.store.ref_count(entry.handle);
            if count == 1 {
                table_remove(&mut self.assets, tag);
                self.store.drop_handle(entry.handle);
            }
            proof {
                let pre = keys@.subrange(0, i as int);
                let post = keys@.subrange(0, i + 1);
                assert(post =~= pre.push(tag));
                assert(keep.contains(tag) == (count > 1));
                assert forall|t: u32| #[trigger] old_entries.contains_key(t) implies
                    self.store.spec_ref_count(old_entries[t].handle)
                        == if post.contains(t) && !keep.contains(t) { 0 } else {
                            old_store.spec_ref_count(old_entries[t].handle) } by {
                    if t != tag {
                        assert(old_entries[t].handle.slot != old_entries[tag].handle.slot);
                        assert(post.contains(t) == pre.contains(t));
                    } else {
                        assert(post[i as int] == tag);
                        assert(post.contains(t));
                    }
                }
                assert forall|t: u32| #[trigger] self.entries().contains_key(t) <==> (old_entries.contains_key(t)
                    && (!post.contains(t) || keep.contains(t))) by {
                    if t != tag {
                        assert(post.contains(t) == pre.contains(t));
                    }
                }
            }
            i = i + 1;
        }
        proof {
            assert(keys@.subrange(0, keys@.len() as int) =~= keys@);
            assert forall|t: u32| keys@.contains(t) <==> old_entries.contains_key(t) by {
                assert(keys@.to_set().contains(t) == keys@.contains(t));
            }
            assert(self.entries() =~= old_entries.restrict(keep));
            assert forall|e: u32| #[trigger] self.entries().contains_key(e) implies {
                &&& self.store.valid_handle(self.entries()[e].handle)
                &&& self.entries()[e].handle.tag == e
                &&& e != TAG_NONE
                &&& self.store.spec_ref_count(self.entries()[e].handle) >= 1
                &&& self.entries()[e].handle.slot != self.spec_dummy().slot
            } by {
                assert(old_entries.contains_key(e));
            }
            assert forall|t1: u32, t2: u32| #[trigger] self.entries().contains_key(t1)
                && #[trigger] self.entries().contains_key(t2) && t1 != t2
                implies self.entries()[t1].handle.slot != self.entries()[t2].handle.slot by {
                assert(old_entries.contains_key(t1));
                assert(old_entries.contains_key(t2));
            }
        }
    }
}

} // verus!
