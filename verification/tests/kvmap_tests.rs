use shipcat::kvmap::KvMap;

#[test]
fn empty_maps_merge_to_empty() {
    let a = KvMap::new();
    let b = KvMap::new();
    let merged = a.merge(&b);
    assert_eq!(merged.len(), 0);
    assert!(merged.is_empty());
}

#[test]
fn insert_overwrites_equal_keys_in_place() {
    let mut m = KvMap::new();
    m.insert("k".into(), "one".into());
    m.insert("k".into(), "two".into());
    assert_eq!(m.len(), 1);
    assert_eq!(m.get(&"k".into()), Some(&"two".into()));
}

#[test]
fn merge_is_right_biased_on_collisions() {
    let mut a = KvMap::new();
    a.insert("shared".into(), "left".into());
    a.insert("only-left".into(), "l".into());
    let mut b = KvMap::new();
    b.insert("shared".into(), "right".into());
    b.insert("only-right".into(), "r".into());
    let merged = a.merge(&b);
    assert_eq!(merged.get(&"shared".into()), Some(&"right".into()));
    assert_eq!(merged.get(&"only-left".into()), Some(&"l".into()));
    assert_eq!(merged.get(&"only-right".into()), Some(&"r".into()));
    assert_eq!(merged.len(), 3);
    assert_eq!(merged.get(&"absent".into()), None);
}

#[test]
fn merge_with_empty_keeps_the_other_side() {
    let mut a = KvMap::new();
    a.insert("k".into(), "v".into());
    let empty = KvMap::new();
    assert_eq!(a.merge(&empty), a.duplicate());
    assert_eq!(empty.merge(&a), a.duplicate());
}

#[test]
fn pairs_keep_insertion_order() {
    let mut m = KvMap::new();
    m.insert("b".into(), "2".into());
    m.insert("a".into(), "1".into());
    let (k0, v0) = m.pair_at(0);
    assert_eq!((k0.as_str(), v0.as_str()), ("b", "2"));
    let (k1, v1) = m.pair_at(1);
    assert_eq!((k1.as_str(), v1.as_str()), ("a", "1"));
}
