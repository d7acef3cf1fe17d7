use jupiter_core::states::{Pubkey, PubkeyMap};

fn key(n: u8) -> Pubkey {
    Pubkey::new_from_array([n; 32])
}

#[test]
fn a_new_map_is_empty() {
    let map: PubkeyMap<u64> = PubkeyMap::new();
    assert_eq!(map.len(), 0);
    assert!(map.is_empty());
    assert_eq!(map.get(&key(1)), None);
    assert!(!map.contains_key(&key(1)));
    assert_eq!(map.position(&key(1)), None);
}

#[test]
fn insert_then_get() {
    let mut map = PubkeyMap::new();
    map.insert(key(1), 10u64);
    map.insert(key(2), 20);
    assert_eq!(map.len(), 2);
    assert!(!map.is_empty());
    assert_eq!(map.get(&key(1)), Some(&10));
    assert_eq!(map.get(&key(2)), Some(&20));
    assert_eq!(map.get(&key(3)), None);
    assert!(map.contains_key(&key(2)));
    assert!(!map.contains_key(&key(3)));
}

#[test]
fn insert_under_a_known_key_replaces_in_place() {
    let mut map = PubkeyMap::new();
    map.insert(key(1), 10u64);
    map.insert(key(2), 20);
    map.insert(key(3), 30);
    map.insert(key(2), 21);
    assert_eq!(map.len(), 3);
    assert_eq!(map.get(&key(2)), Some(&21));
    assert_eq!(map.position(&key(1)), Some(0));
    assert_eq!(map.position(&key(2)), Some(1));
    assert_eq!(map.position(&key(3)), Some(2));
    assert_eq!(*map.entry_at(1), (key(2), 21));
    assert_eq!(*map.entry_at(2), (key(3), 30));
}

#[test]
fn entries_keep_the_order_in_which_their_keys_came() {
    let mut map = PubkeyMap::new();
    for n in [5u8, 3, 9, 1] {
        map.insert(key(n), n as u64);
    }
    let keys: Vec<Pubkey> = (0..map.len()).map(|i| map.entry_at(i).0).collect();
    assert_eq!(keys, vec![key(5), key(3), key(9), key(1)]);
}

#[test]
fn clear_removes_every_entry() {
    let mut map = PubkeyMap::new();
    map.insert(key(1), 10u64);
    map.insert(key(2), 20);
    map.clear();
    assert!(map.is_empty());
    assert_eq!(map.get(&key(1)), None);
    map.insert(key(2), 22);
    assert_eq!(map.len(), 1);
    assert_eq!(map.get(&key(2)), Some(&22));
}

#[test]
fn keys_that_differ_in_one_byte_are_two_keys() {
    let mut a = [0u8; 32];
    let mut b = [0u8; 32];
    a[17] = 1;
    b[17] = 2;
    let mut map = PubkeyMap::new();
    map.insert(Pubkey::new_from_array(a), 1u8);
    map.insert(Pubkey::new_from_array(b), 2u8);
    assert_eq!(map.len(), 2);
    assert_eq!(map.get(&Pubkey::new_from_array(a)), Some(&1));
    assert_eq!(map.get(&Pubkey::new_from_array(b)), Some(&2));
    assert_eq!(map.get(&Pubkey::new_from_array([0u8; 32])), None);
}
