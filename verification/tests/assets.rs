use alkahest::asset::{AssetStore, UntypedHandle};
use alkahest::asset_manager::{AssetManager, LoadRequest, TryLoad};
use alkahest::render_state::TAG_NONE;

#[test]
fn store_handles_share_a_holder() {
    let mut store: AssetStore<String> = AssetStore::new();
    let h = store.new_handle(7);
    assert_eq!(h, UntypedHandle { slot: 0, tag: 7 });
    assert_eq!(store.ref_count(h), 1);
    assert!(!store.is_loaded(h));
    assert!(store.get(h).is_none());

    let c = store.clone_handle(h);
    assert_eq!(c, h);
    assert_eq!(store.ref_count(h), 2);
    store.drop_handle(c);
    assert_eq!(store.ref_count(h), 1);

    assert!(store.update(h, "first".to_string()));
    assert!(store.is_loaded(h));
    assert_eq!(store.get(h).map(|s| s.as_str()), Some("first"));
    // A second store is refused and changes nothing.
    assert!(!store.update(h, "second".to_string()));
    assert_eq!(store.get(h).map(|s| s.as_str()), Some("first"));
}

#[test]
fn null_handles() {
    let mut store: AssetStore<u8> = AssetStore::new();
    let null = store.new_handle(TAG_NONE);
    assert!(store.is_null(null));
    assert!(store.handle_is_loaded(null));
    assert!(store.get(null).is_none());
    let h = store.new_handle(3);
    assert!(!store.is_null(h));
    assert!(!store.handle_is_loaded(h));
}

#[test]
fn manager_loads_each_tag_once() {
    let mut m: AssetManager<String> = AssetManager::new();
    assert_eq!(m.count_loading(), 0);

    let first = m.try_load(5, 1);
    let h = first.handle.unwrap();
    assert_eq!(h.tag, 5);
    assert_eq!(first.request, Some(LoadRequest { tag: 5, handle: h, type_id: 1 }));
    assert_eq!(m.count_loading(), 1);
    assert_eq!(m.store.ref_count(h), 3);

    let again = m.try_load(5, 1);
    assert_eq!(again, TryLoad { handle: Some(h), request: None });
    assert_eq!(m.count_loading(), 1);
    assert_eq!(m.store.ref_count(h), 4);

    // The same tag as another asset type gives nothing.
    assert_eq!(m.try_load(5, 2), TryLoad { handle: None, request: None });
    assert_eq!(m.try_load(TAG_NONE, 1), TryLoad { handle: None, request: None });

    m.finish_load(first.request.unwrap(), Some("model".to_string()));
    assert_eq!(m.count_loading(), 0);
    assert_eq!(m.store.ref_count(h), 3);
    assert_eq!(m.store.get(h).map(|s| s.as_str()), Some("model"));

    assert_eq!(m.get(5, 1), Some(h));
    assert_eq!(m.store.ref_count(h), 4);
    assert_eq!(m.get(5, 2), None);
    assert_eq!(m.get(6, 1), None);
}

#[test]
fn manager_load_falls_back_to_the_dummy() {
    let mut m: AssetManager<u32> = AssetManager::new();
    let (dummy, req) = m.load(TAG_NONE, 1);
    assert_eq!(dummy.tag, TAG_NONE);
    assert!(req.is_none());
    let (h, req) = m.load(9, 1);
    assert_eq!(h.tag, 9);
    assert!(req.is_some());
    let (other, req2) = m.load(9, 4);
    assert_eq!(other, dummy);
    assert!(req2.is_none());
    let (same, req3) = m.load(9, 1);
    assert_eq!(same, h);
    assert!(req3.is_none());
}

#[test]
fn failed_load_leaves_the_holder_empty() {
    let mut m: AssetManager<u32> = AssetManager::new();
    let t = m.try_load(11, 3);
    let h = t.handle.unwrap();
    m.finish_load(t.request.unwrap(), None);
    assert_eq!(m.count_loading(), 0);
    assert!(!m.store.is_loaded(h));
    assert!(m.store.get(h).is_none());
}

#[test]
fn unreferenced_tags_are_forgotten() {
    let mut m: AssetManager<u32> = AssetManager::new();
    let a = m.try_load(1, 0);
    let b = m.try_load(2, 0);
    let ha = a.handle.unwrap();
    let hb = b.handle.unwrap();
    m.finish_load(a.request.unwrap(), Some(10));
    m.finish_load(b.request.unwrap(), Some(20));
    // Only the manager refers to tag 1 once its handle is dropped.
    m.drop_handle(ha);
    assert_eq!(m.store.ref_count(ha), 1);
    m.remove_unreferenced();
    assert_eq!(m.store.ref_count(ha), 0);
    assert_eq!(m.store.ref_count(hb), 2);
    assert_eq!(m.get(1, 0), None);
    assert_eq!(m.get(2, 0), Some(hb));
    // A new request for tag 1 starts a new load in a new holder.
    let again = m.try_load(1, 0);
    assert!(again.request.is_some());
    assert_ne!(again.handle.unwrap().slot, ha.slot);
}

#[test]
fn manager_handle_counting() {
    let mut m: AssetManager<u32> = AssetManager::new();
    let t = m.try_load(3, 0);
    let h = t.handle.unwrap();
    let c = m.clone_handle(h);
    assert_eq!(c, h);
    assert_eq!(m.store.ref_count(h), 4);
    m.drop_handle(c);
    assert_eq!(m.store.ref_count(h), 3);
}

#[test]
fn technique_readiness() {
    let mut store: AssetStore<u8> = AssetStore::new();
    let null = store.new_handle(TAG_NONE);
    let h = store.new_handle(12);
    assert!(store.is_technique_loaded(null, false));
    assert!(!store.is_technique_loaded(h, true));
    store.update(h, 1);
    assert!(store.is_technique_loaded(h, true));
    assert!(!store.is_technique_loaded(h, false));
}
