use propchain::{AccountId, StorageKey, StorageMap};

#[test]
fn insert_get_remove() {
    let mut m: StorageMap<u64, &str> = StorageMap::new();
    assert!(m.get(&1).is_none());
    m.insert(1, "a");
    m.insert(2, "b");
    m.insert(1, "c");
    assert_eq!(m.get(&1), Some(&"c"));
    assert_eq!(m.get(&2), Some(&"b"));
    assert!(m.contains(&2));
    m.remove(&2);
    assert!(!m.contains(&2));
    m.remove(&7);
    assert_eq!(m.get(&1), Some(&"c"));
}

#[test]
fn account_keys() {
    let a = AccountId::from([1u8; 32]);
    let mut bytes = [1u8; 32];
    bytes[31] = 2;
    let b = AccountId::from(bytes);
    assert!(a.same_key(&a));
    assert!(!a.same_key(&b));
    assert!((5u64, a).same_key(&(5u64, a)));
    assert!(!(5u64, a).same_key(&(6u64, a)));
    assert!(!(5u64, a).same_key(&(5u64, b)));
    let mut m: StorageMap<(u64, AccountId), u128> = StorageMap::new();
    m.insert((1, a), 10);
    m.insert((1, b), 20);
    assert_eq!(m.get(&(1, a)), Some(&10));
    assert_eq!(m.get(&(1, b)), Some(&20));
    assert!(AccountId::zero().same_key(&AccountId::from([0u8; 32])));
}
