use grass_rendering::dense_storage::{DenseStorage, Index};
use grass_rendering::rendering::asset::{Handle, RenderAssets};

#[test]
fn push_then_get_returns_item() {
    let mut s: DenseStorage<&str> = DenseStorage::new();
    let a = s.push("a");
    let b = s.push("b");
    assert_eq!(a, Index(0));
    assert_eq!(b, Index(1));
    assert_eq!(s.get(a), Some(&"a"));
    assert_eq!(s.get(b), Some(&"b"));
    assert_eq!(s.len(), 2);
}

#[test]
fn get_of_unused_position_is_none() {
    let s: DenseStorage<u32> = DenseStorage::new();
    assert_eq!(s.get(Index(0)), None);
    assert_eq!(s.get(Index(7)), None);
    assert_eq!(s.len(), 0);
}

#[test]
fn remove_recycle_frees_position_for_next_push() {
    let mut s: DenseStorage<u32> = DenseStorage::new();
    let a = s.push(10);
    let b = s.push(20);
    let c = s.push(30);
    assert_eq!(s.remove_recycle(b), Some(20));
    assert_eq!(s.get(b), None);
    assert_eq!(s.len(), 2);
    // the freed position is handed out again
    let d = s.push(40);
    assert_eq!(d, b);
    assert_eq!(s.get(d), Some(&40));
    // untouched items stay
    assert_eq!(s.get(a), Some(&10));
    assert_eq!(s.get(c), Some(&30));
    // the next push takes a fresh position
    assert_eq!(s.push(50), Index(3));
}

#[test]
fn most_recently_freed_position_is_reused_first() {
    let mut s: DenseStorage<u8> = DenseStorage::new();
    let a = s.push(1);
    let b = s.push(2);
    s.remove_recycle(a);
    s.remove_recycle(b);
    assert_eq!(s.push(3), b);
    assert_eq!(s.push(4), a);
}

#[test]
fn remove_twice_gives_nothing_the_second_time() {
    let mut s: DenseStorage<u8> = DenseStorage::new();
    let a = s.push(1);
    assert_eq!(s.remove_recycle(a), Some(1));
    assert_eq!(s.remove_recycle(a), None);
    assert_eq!(s.remove_recycle(Index(99)), None);
    assert_eq!(s.len(), 0);
}

#[test]
fn get_mut_changes_item() {
    let mut s: DenseStorage<u32> = DenseStorage::new();
    let a = s.push(1);
    if let Some(v) = s.get_mut(a) {
        *v = 5;
    }
    assert_eq!(s.get(a), Some(&5));
    assert!(s.get_mut(Index(3)).is_none());
}

#[test]
fn render_assets_add_get_remove() {
    let mut assets: RenderAssets<String> = RenderAssets::new();
    let h = assets.add("texture".to_string());
    let h2 = h.clone();
    assert_eq!(h.index(), h2.index());
    assert_eq!(assets.get(h.clone()).map(|s| s.as_str()), Some("texture"));
    assert_eq!(assets.len(), 1);
    // remove gives the asset back and leaves nothing behind
    assert_eq!(assets.remove(h.clone()), Some("texture".to_string()));
    assert!(assets.get(h.clone()).is_none());
    assert_eq!(assets.remove(h), None);
    assert_eq!(assets.len(), 0);
}

#[test]
fn render_assets_get_mut() {
    let mut assets: RenderAssets<Vec<u8>> = RenderAssets::new();
    let h = assets.add(vec![1]);
    assets.get_mut(h.clone()).unwrap().push(2);
    assert_eq!(assets.get(h), Some(&vec![1, 2]));
}

#[test]
fn live_handles_are_distinct() {
    let mut assets: RenderAssets<u8> = RenderAssets::new();
    let a = assets.add(1);
    let b = assets.add(2);
    assert_ne!(a.index(), b.index());
    assert_eq!(assets.get(a), Some(&1));
    assert_eq!(assets.get(b), Some(&2));
}

#[test]
fn handle_new_refers_to_index() {
    let h: Handle<u8> = Handle::new(Index(4));
    assert_eq!(h.index(), Index(4));
    let mut assets: RenderAssets<u8> = RenderAssets::new();
    assert!(assets.get(h.clone()).is_none());
    for v in 0..5u8 {
        assets.add(v);
    }
    assert_eq!(assets.get(h), Some(&4));
}
