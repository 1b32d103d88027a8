use graphyte::utils::handles::Handle;
use graphyte::utils::handles::HandleType;
use graphyte::utils::slot_maps::slot_map::SlotMap;

#[test]
fn new_map_is_empty() {
    let map: SlotMap<&str> = SlotMap::new();
    assert_eq!(map.len(), 0);
    assert!(map.data().is_empty());
    assert!(map.get(Handle::new(0)).is_none());
    assert!(!map.is_full());
}

#[test]
fn with_capacity_reserves_room() {
    let map: SlotMap<u64> = SlotMap::with_capacity(16);
    assert_eq!(map.len(), 0);
    assert!(map.capacity() >= 16);
}

#[test]
fn default_map_is_empty() {
    let map: SlotMap<u8, u16> = SlotMap::default();
    assert_eq!(map.len(), 0);
}

#[test]
fn handles_count_up_while_nothing_is_free() {
    let mut map: SlotMap<&str> = SlotMap::new();
    assert_eq!(map.add("a").value, 0);
    assert_eq!(map.add("b").value, 1);
    assert_eq!(map.add("c").value, 2);
    assert_eq!(map.len(), 3);
    assert_eq!(map.data(), &["a", "b", "c"]);
}

#[test]
fn get_finds_the_item_of_a_handle() {
    let mut map: SlotMap<&str> = SlotMap::new();
    let a = map.add("a");
    let b = map.add("b");
    assert_eq!(map.get(a), Some(&"a"));
    assert_eq!(map.get(b), Some(&"b"));
    assert_eq!(map.get(Handle::new(2)), None);
    assert_eq!(map.get(Handle::new(u32::MAX)), None);
}

#[test]
fn remove_moves_the_last_item_into_the_gap() {
    let mut map: SlotMap<&str> = SlotMap::new();
    let a = map.add("a");
    let b = map.add("b");
    let c = map.add("c");
    assert_eq!(map.remove(a), Some("a"));
    assert_eq!(map.data(), &["c", "b"]);
    assert_eq!(map.get(a), None);
    assert_eq!(map.get(b), Some(&"b"));
    assert_eq!(map.get(c), Some(&"c"));
    assert_eq!(map.len(), 2);
}

#[test]
fn remove_of_the_last_item_moves_nothing() {
    let mut map: SlotMap<&str> = SlotMap::new();
    let a = map.add("a");
    let b = map.add("b");
    assert_eq!(map.remove(b), Some("b"));
    assert_eq!(map.data(), &["a"]);
    assert_eq!(map.get(a), Some(&"a"));
    assert_eq!(map.remove(a), Some("a"));
    assert_eq!(map.len(), 0);
}

#[test]
fn removed_handle_is_void() {
    let mut map: SlotMap<&str> = SlotMap::new();
    let a = map.add("a");
    let _b = map.add("b");
    assert_eq!(map.remove(a), Some("a"));
    assert_eq!(map.remove(a), None);
    assert_eq!(map.get(a), None);
    assert!(!map.validate_key(a));
    assert_eq!(map.len(), 1);
}

#[test]
fn handle_freed_last_is_given_out_first() {
    let mut map: SlotMap<&str> = SlotMap::new();
    let a = map.add("a");
    let b = map.add("b");
    let c = map.add("c");
    map.remove(a);
    map.remove(c);
    assert_eq!(map.next_handle().map(|handle| handle.value), Some(c.value));
    let d = map.add("d");
    assert_eq!(d.value, c.value);
    let e = map.add("e");
    assert_eq!(e.value, a.value);
    let f = map.add("f");
    assert_eq!(f.value, 3);
    assert_eq!(map.get(b), Some(&"b"));
    assert_eq!(map.get(d), Some(&"d"));
    assert_eq!(map.get(e), Some(&"e"));
    assert_eq!(map.get(f), Some(&"f"));
    assert_eq!(map.data(), &["b", "d", "e", "f"]);
}

#[test]
fn reused_handle_reaches_the_new_item() {
    let mut map: SlotMap<u32> = SlotMap::new();
    let a = map.add(10);
    let b = map.add(20);
    map.remove(a);
    let c = map.add(30);
    assert_eq!(c.value, a.value);
    assert_eq!(map.get(c), Some(&30));
    assert_eq!(map.get(b), Some(&20));
}

#[test]
fn many_adds_and_removes_keep_every_item_reachable() {
    let mut map: SlotMap<u32> = SlotMap::new();
    let mut live: Vec<(Handle<u32>, u32)> = Vec::new();
    let mut seed: u32 = 12345;
    for round in 0..400u32 {
        seed = seed.wrapping_mul(1_103_515_245).wrapping_add(12_345);
        if live.len() > 0 && (seed >> 16) % 3 == 0 {
            let at = ((seed >> 8) as usize) % live.len();
            let (handle, value) = live.swap_remove(at);
            assert_eq!(map.remove(handle), Some(value));
            assert_eq!(map.get(handle), None);
        } else {
            let handle = map.add(round);
            assert!(live.iter().all(|(other, _)| other.value != handle.value));
            live.push((handle, round));
        }
        assert_eq!(map.len(), live.len());
        for (handle, value) in live.iter() {
            assert_eq!(map.get(*handle), Some(value));
        }
    }
}

#[test]
fn get_mut_changes_the_item_in_place() {
    let mut map: SlotMap<u32> = SlotMap::new();
    let a = map.add(1);
    let b = map.add(2);
    *map.get_mut(a).unwrap() = 11;
    assert_eq!(map.get(a), Some(&11));
    assert_eq!(map.get(b), Some(&2));
    map.remove(a);
    assert!(map.get_mut(a).is_none());
}

#[test]
fn data_mut_changes_items_and_keeps_handles() {
    let mut map: SlotMap<u32> = SlotMap::new();
    let a = map.add(1);
    let b = map.add(2);
    for item in map.data_mut().iter_mut() {
        *item *= 10;
    }
    assert_eq!(map.get(a), Some(&10));
    assert_eq!(map.get(b), Some(&20));
}

#[test]
fn iter_goes_through_the_dense_data() {
    let mut map: SlotMap<u32> = SlotMap::new();
    let a = map.add(1);
    map.add(2);
    map.add(3);
    map.remove(a);
    let seen: Vec<u32> = map.iter().copied().collect();
    assert_eq!(seen, vec![3, 2]);
}

#[test]
fn iter_mut_changes_items_and_keeps_handles() {
    let mut map: SlotMap<u32> = SlotMap::new();
    let a = map.add(1);
    let b = map.add(2);
    for item in map.iter_mut() {
        *item += 1;
    }
    assert_eq!(map.get(a), Some(&2));
    assert_eq!(map.get(b), Some(&3));
    assert_eq!(map.len(), 2);
}

#[test]
fn keys_come_in_the_order_of_the_data() {
    let mut map: SlotMap<&str> = SlotMap::new();
    let a = map.add("a");
    let b = map.add("b");
    let c = map.add("c");
    map.remove(a);
    let keys: Vec<u32> = map.iter_keys().iter().map(|key| key.value).collect();
    assert_eq!(keys, vec![c.value, b.value]);
    for key in map.iter_keys() {
        assert!(map.validate_key(key));
    }
}

#[test]
fn key_values_pair_each_item_with_its_handle() {
    let mut map: SlotMap<&str> = SlotMap::new();
    let a = map.add("a");
    let b = map.add("b");
    let c = map.add("c");
    map.remove(b);
    let pairs: Vec<(u32, &str)> = map.iter_key_values().iter().map(|(key, item)| (key.value, **item)).collect();
    assert_eq!(pairs, vec![(a.value, "a"), (c.value, "c")]);
    for (key, item) in map.iter_key_values() {
        assert_eq!(map.get(key), Some(item));
    }
}

#[test]
fn clear_voids_every_handle() {
    let mut map: SlotMap<&str> = SlotMap::new();
    let a = map.add("a");
    let b = map.add("b");
    map.remove(a);
    map.clear();
    assert_eq!(map.len(), 0);
    assert_eq!(map.get(a), None);
    assert_eq!(map.get(b), None);
    assert_eq!(map.add("c").value, 0);
}

#[test]
fn small_index_type_fills_up() {
    let mut map: SlotMap<u32, u8> = SlotMap::new();
    for i in 0..256u32 {
        assert!(!map.is_full());
        assert_eq!(map.add(i).value as u32, i);
    }
    assert!(map.is_full());
    assert!(map.next_handle().is_none());
    let freed: Handle<u32, u8> = Handle::new(17);
    assert_eq!(map.remove(freed), Some(17));
    assert!(!map.is_full());
    assert_eq!(map.add(1000).value, 17);
    assert!(map.is_full());
}

#[test]
fn other_index_types_work_alike() {
    let mut wide: SlotMap<&str, u64> = SlotMap::new();
    let a = wide.add("a");
    assert_eq!(wide.get(a), Some(&"a"));
    assert_eq!(wide.get(Handle::new(u64::MAX)), None);
    let mut word: SlotMap<&str, usize> = SlotMap::new();
    let b = word.add("b");
    assert_eq!(word.remove(b), Some("b"));
    let mut short: SlotMap<&str, u16> = SlotMap::new();
    let c = short.add("c");
    assert_eq!(short.get(c), Some(&"c"));
}

#[test]
fn clone_has_the_same_items_under_the_same_handles() {
    let mut map: SlotMap<String> = SlotMap::new();
    let a = map.add("a".to_owned());
    let b = map.add("b".to_owned());
    let c = map.add("c".to_owned());
    map.remove(b);
    let mut copy = map.clone();
    assert_eq!(copy.len(), 2);
    assert_eq!(copy.get(a), Some(&"a".to_owned()));
    assert_eq!(copy.get(b), None);
    assert_eq!(copy.get(c), Some(&"c".to_owned()));
    assert_eq!(copy.add("d".to_owned()).value, b.value);
    assert_eq!(map.len(), 2);
    assert_eq!(map.get(b), None);
}

#[test]
fn index_types_convert_to_and_from_usize() {
    assert_eq!(7u8.to_usize(), Some(7));
    assert_eq!(<u8 as HandleType>::from_usize(255), Some(255u8));
    assert_eq!(<u8 as HandleType>::from_usize(256), None);
    assert_eq!(<u16 as HandleType>::from_usize(65_535), Some(65_535u16));
    assert_eq!(<u16 as HandleType>::from_usize(65_536), None);
    assert_eq!(<u32 as HandleType>::from_usize(5), Some(5u32));
    assert_eq!(u32::MAX.to_usize(), Some(u32::MAX as usize));
    assert_eq!(<u64 as HandleType>::from_usize(usize::MAX), Some(usize::MAX as u64));
    assert_eq!(9u64.to_usize(), Some(9));
    assert_eq!(<usize as HandleType>::from_usize(12), Some(12usize));
    assert_eq!(12usize.to_usize(), Some(12));
    assert_eq!(<u8 as HandleType>::zero(), 0);
    assert_eq!(<u16 as HandleType>::zero(), 0);
    assert_eq!(<u32 as HandleType>::zero(), 0);
    assert_eq!(<u64 as HandleType>::zero(), 0);
    assert_eq!(<usize as HandleType>::zero(), 0);
}

#[test]
fn handle_is_copied_with_its_value() {
    let handle: Handle<String, u16> = Handle::new(41);
    let copy = handle;
    let clone = handle.clone();
    assert_eq!(handle.value, 41);
    assert_eq!(copy.value, 41);
    assert_eq!(clone.value, 41);
}
