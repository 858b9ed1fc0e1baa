use pb_runtime::upb::{Arena, MapHandle, RepeatedField};

#[test]
fn repeated_field_bound_to_arena_scenario() {
    let arena = Arena::new();
    let mut arr = RepeatedField::<i32>::new(&arena);
    arr.push(1);
    arr.push(2);
    arr.push(3);
    assert_eq!(arr.len(), 3);
    assert_eq!(arr.get(1), Some(2));
    arr.set(1, 9);
    assert_eq!(arr.get(1), Some(9));
    assert_eq!(arr.get(5), None);
}

#[test]
fn map_overwrite_scenario() {
    let arena = Arena::new();
    let mut map = MapHandle::<i32, i32>::new(&arena);
    assert_eq!(map.insert(4, 5), true);
    assert_eq!(map.insert(4, 9), true);
    assert_eq!(map.get(4), Some(9));
    assert_eq!(map.remove(4), Some(9));
    assert_eq!(map.remove(4), None);
}

#[test]
fn repeated_push_counts_and_reads_back() {
    let arena = Arena::new();
    let mut arr = RepeatedField::<u32>::new(&arena);
    for i in 0..100 {
        assert_eq!(arr.len() as u32, i);
        arr.push(i * 3);
    }
    assert_eq!(arr.len(), 100);
    for i in 0..100usize {
        assert_eq!(arr.get(i), Some(i as u32 * 3));
    }
    for i in 100..110usize {
        assert_eq!(arr.get(i), None);
    }
}

#[test]
fn map_clear_unbinds_every_key() {
    let arena = Arena::new();
    let mut map = MapHandle::<i32, i32>::new(&arena);
    assert!(map.insert(1, 10));
    assert!(map.insert(2, 20));
    assert!(map.insert(3, 30));
    assert_eq!(map.len(), 3);
    map.clear();
    assert_eq!(map.len(), 0);
    assert_eq!(map.get(1), None);
    assert_eq!(map.get(2), None);
    assert_eq!(map.get(3), None);
}
