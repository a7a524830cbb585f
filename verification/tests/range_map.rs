use std::cmp::Ordering;
use vhost_devices::no_overlap_mapping::{MapKey, RangeMap, Rank};

fn key(base: u64, size: u64, is_lookup_key: Rank) -> MapKey {
    MapKey { base, size, is_lookup_key }
}

#[test]
fn inserted_range_is_taken() {
    let mut map = RangeMap::new();
    assert_eq!(map.insert(0x1000, 0x1000), Ok(()));
    assert_eq!(map.insert(0x1000, 0x1000), Err(()));
    assert_eq!(map.insert(0x1fff, 1), Err(()));
    assert_eq!(map.insert(0x0, 0x1001), Err(()));
    assert_eq!(map.insert(0x800, 0x2000), Err(()));
    assert_eq!(map.insert(0x1800, 0x10), Err(()));
}

#[test]
fn neighbours_do_not_overlap() {
    let mut map = RangeMap::default();
    assert_eq!(map.insert(0x2000, 0x1000), Ok(()));
    assert_eq!(map.insert(0x1000, 0x1000), Ok(()));
    assert_eq!(map.insert(0x3000, 0x1000), Ok(()));
    assert!(map.contains_range(0x4000, 1).is_some());
    assert!(map.contains_range(0xfff, 1).is_some());
    assert!(map.contains_range(0xfff, 2).is_none());
}

#[test]
fn end_beyond_the_address_space_is_refused() {
    let mut map = RangeMap::new();
    assert_eq!(map.insert(u64::MAX, 1), Err(()));
    assert_eq!(map.insert(u64::MAX, 0), Ok(()));
    assert_eq!(map.insert(1, u64::MAX), Err(()));
    assert_eq!(map.insert(0, u64::MAX), Ok(()));
}

#[test]
fn empty_range_occupies_its_base() {
    let mut map = RangeMap::new();
    assert_eq!(map.insert(5, 0), Ok(()));
    assert_eq!(map.insert(5, 0), Err(()));
    assert_eq!(map.insert(3, 10), Err(()));
    assert_eq!(map.insert(3, 2), Ok(()));
    assert_eq!(map.insert(6, 4), Ok(()));
    assert!(map.remove(5, 0));
    assert_eq!(map.insert(5, 1), Ok(()));
}

#[test]
fn contains_range_gives_the_key() {
    let map = RangeMap::new();
    let found = map.contains_range(7, 9).unwrap();
    assert_eq!((found.base, found.size), (7, 9));
    assert!(found.is_lookup_key == Rank::Equal);
}

#[test]
fn remove_undoes_insert() {
    let mut map = RangeMap::new();
    assert_eq!(map.insert(10, 10), Ok(()));
    assert_eq!(map.insert(30, 10), Ok(()));
    assert!(map.remove(10, 10));
    assert!(!map.remove(10, 10));
    assert_eq!(map.insert(5, 20), Ok(()));
    assert_eq!(map.insert(35, 1), Err(()));
}

#[test]
fn many_ranges_stay_in_order() {
    let mut map = RangeMap::new();
    for i in 0..100u64 {
        let base = (i * 37) % 100 * 16;
        assert_eq!(map.insert(base, 16), Ok(()));
    }
    for i in 0..100u64 {
        assert_eq!(map.insert(i * 16 + 8, 4), Err(()));
        assert!(map.remove(i * 16, 16));
    }
    assert_eq!(map.insert(0, 1600), Ok(()));
}

#[test]
fn keys_are_ordered_by_place_first() {
    let low = key(0, 4, Rank::Greater);
    let high = key(4, 4, Rank::Less);
    assert_eq!(low.cmp(&high), Ordering::Less);
    assert_eq!(high.cmp(&low), Ordering::Greater);
    assert_eq!(low.partial_cmp(&high), Some(Ordering::Less));
}

#[test]
fn overlapping_keys_are_ordered_by_rank() {
    let start = key(0, 4, Rank::Less);
    let stored = key(2, 4, Rank::Equal);
    let end = key(0, 4, Rank::Greater);
    assert_eq!(start.cmp(&stored), Ordering::Less);
    assert_eq!(stored.cmp(&end), Ordering::Less);
    assert_eq!(start.cmp(&end), Ordering::Less);
    assert!(stored.eq(&key(2, 4, Rank::Equal)));
    assert!(!stored.eq(&start));
    assert_eq!(Rank::Less.cmp(&Rank::Greater), Ordering::Less);
    assert_eq!(Rank::Equal.cmp(&Rank::Equal), Ordering::Equal);
    assert_eq!(Rank::Greater.cmp(&Rank::Equal), Ordering::Greater);
}
