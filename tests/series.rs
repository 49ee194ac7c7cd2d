use moonrs::series::Series;

#[test]
fn new_series_is_empty() {
    let s: Series<u32> = Series::new();
    assert!(s.empty());
    assert!(s.to_vec().is_empty());
    assert_eq!(s.first(), None);
    assert_eq!(s.last(), None);
    assert_eq!(s.between(&0, &u64::MAX), Some(vec![]));
}

#[test]
fn push_makes_series_non_empty() {
    let mut s: Series<u32> = Series::new();
    assert!(s.push(10, 1));
    assert!(!s.empty());
}

#[test]
fn to_vec_follows_index_order_not_push_order() {
    let mut s: Series<&str> = Series::new();
    assert!(s.push(30, "c"));
    assert!(s.push(10, "a"));
    assert!(s.push(20, "b"));
    assert!(s.push(5, "z"));
    assert_eq!(s.to_vec(), vec![&"z", &"a", &"b", &"c"]);
}

#[test]
fn same_entries_in_any_push_order_list_alike() {
    let mut a: Series<u32> = Series::new();
    let mut b: Series<u32> = Series::new();
    for (i, v) in [(3u64, 30u32), (1, 10), (2, 20)] {
        assert!(a.push(i, v));
    }
    for (i, v) in [(2u64, 20u32), (3, 30), (1, 10)] {
        assert!(b.push(i, v));
    }
    assert_eq!(a.to_vec(), b.to_vec());
    assert_eq!(a.to_vec(), vec![&10, &20, &30]);
}

#[test]
fn push_at_held_index_is_rejected_and_keeps_old_value() {
    let mut s: Series<u32> = Series::new();
    assert!(s.push(7, 1));
    assert!(!s.push(7, 2));
    assert_eq!(s.to_vec(), vec![&1]);
    assert_eq!(s.first(), Some(&1));
}

#[test]
fn first_and_last_are_at_extreme_indices() {
    let mut s: Series<u32> = Series::new();
    assert!(s.push(50, 5));
    assert!(s.push(10, 1));
    assert!(s.push(90, 9));
    assert!(s.push(30, 3));
    assert_eq!(s.first(), Some(&1));
    assert_eq!(s.last(), Some(&9));
}

#[test]
fn single_entry_is_first_and_last() {
    let mut s: Series<u32> = Series::new();
    assert!(s.push(0, 42));
    assert_eq!(s.first(), Some(&42));
    assert_eq!(s.last(), Some(&42));
}

#[test]
fn between_is_inclusive_at_both_ends() {
    let mut s: Series<char> = Series::new();
    assert!(s.push(1, 'a'));
    assert!(s.push(2, 'b'));
    assert!(s.push(3, 'c'));
    assert_eq!(s.between(&1, &3), Some(vec![&'a', &'b', &'c']));
    assert_eq!(s.between(&2, &2), Some(vec![&'b']));
    assert_eq!(s.between(&2, &3), Some(vec![&'b', &'c']));
}

#[test]
fn between_outside_stored_range_is_empty_not_none() {
    let mut s: Series<char> = Series::new();
    assert!(s.push(10, 'a'));
    assert!(s.push(20, 'b'));
    assert!(s.push(30, 'c'));
    assert_eq!(s.between(&0, &9), Some(vec![]));
    assert_eq!(s.between(&31, &100), Some(vec![]));
    assert_eq!(s.between(&11, &19), Some(vec![]));
}

#[test]
fn between_with_start_after_end_is_empty() {
    let mut s: Series<char> = Series::new();
    assert!(s.push(10, 'a'));
    assert!(s.push(20, 'b'));
    assert_eq!(s.between(&20, &10), Some(vec![]));
}

#[test]
fn between_handles_extreme_indices() {
    let mut s: Series<u8> = Series::new();
    assert!(s.push(u64::MAX, 2));
    assert!(s.push(0, 1));
    assert_eq!(s.between(&0, &u64::MAX), Some(vec![&1, &2]));
    assert_eq!(s.between(&u64::MAX, &u64::MAX), Some(vec![&2]));
    assert_eq!(s.last(), Some(&2));
}
