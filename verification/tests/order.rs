use std::collections::BTreeMap;

use wwn_definitions::order::{
    hour_append, hour_get, hour_insert, hour_keys, slot_append, slot_get, slot_insert, slot_keys,
};

#[test]
fn hour_keys_are_in_ascending_order() {
    let mut map = BTreeMap::new();
    for key in [(2023u32, 10u32, 5u32), (2022, 366, 23), (2023, 9, 23), (2023, 10, 4), (0, 1, 0)] {
        map.insert(key, ());
    }
    assert_eq!(
        hour_keys(&map),
        vec![(0, 1, 0), (2022, 366, 23), (2023, 9, 23), (2023, 10, 4), (2023, 10, 5)]
    );
    assert!(hour_keys(&BTreeMap::<(u32, u32, u32), u8>::new()).is_empty());
}

#[test]
fn slot_keys_are_in_ascending_order() {
    let mut map = BTreeMap::new();
    for key in [(10u32, 5u32), (9, 23), (10, 4), (366, 0), (1, 0)] {
        map.insert(key, 1u8);
    }
    assert_eq!(slot_keys(&map), vec![(1, 0), (9, 23), (10, 4), (10, 5), (366, 0)]);
    assert!(slot_keys(&BTreeMap::<(u32, u32), u8>::new()).is_empty());
}

#[test]
fn get_and_insert_agree() {
    let mut hours = BTreeMap::new();
    hour_insert(&mut hours, (2023, 10, 5), 7u8);
    hour_insert(&mut hours, (2023, 10, 5), 8u8);
    hour_insert(&mut hours, (2023, 10, 6), 9u8);
    assert_eq!(hour_get(&hours, &(2023, 10, 5)), Some(&8));
    assert_eq!(hour_get(&hours, &(2023, 10, 6)), Some(&9));
    assert_eq!(hour_get(&hours, &(2023, 10, 7)), None);
    assert_eq!(hours.len(), 2);
    let mut slots = BTreeMap::new();
    slot_insert(&mut slots, (10, 5), 7u8);
    slot_insert(&mut slots, (10, 5), 8u8);
    assert_eq!(slot_get(&slots, &(10, 5)), Some(&8));
    assert_eq!(slot_get(&slots, &(5, 10)), None);
    assert_eq!(slots.len(), 1);
}

#[test]
fn append_starts_and_extends_a_list() {
    let mut hours: BTreeMap<(u32, u32, u32), Vec<u8>> = BTreeMap::new();
    hour_append(&mut hours, (2023, 10, 5), 1);
    hour_append(&mut hours, (2023, 10, 6), 2);
    hour_append(&mut hours, (2023, 10, 5), 3);
    assert_eq!(hours[&(2023, 10, 5)], vec![1, 3]);
    assert_eq!(hours[&(2023, 10, 6)], vec![2]);
    assert_eq!(hours.len(), 2);
    let mut slots: BTreeMap<(u32, u32), Vec<u8>> = BTreeMap::new();
    slot_append(&mut slots, (10, 5), 1);
    slot_append(&mut slots, (10, 5), 2);
    slot_append(&mut slots, (10, 4), 3);
    assert_eq!(slots[&(10, 5)], vec![1, 2]);
    assert_eq!(slots[&(10, 4)], vec![3]);
}
