use sdf::{RuleStore, RuleTable, TableError};

#[test]
fn insert_same_key_twice_keeps_one_entry() {
    let mut t: RuleTable<u32, u8> = RuleTable::new(4);
    assert_eq!(t.insert(7, 0), Ok(()));
    assert_eq!(t.insert(7, 0), Ok(()));
    assert_eq!(t.len(), 1);
    assert_eq!(t.get(7), Some(0));
}

#[test]
fn full_table_refuses_new_keys_only() {
    let mut t: RuleTable<u16, u8> = RuleTable::new(2);
    assert_eq!(t.insert(1, 0), Ok(()));
    assert_eq!(t.insert(2, 0), Ok(()));
    assert_eq!(t.insert(3, 0), Err(TableError::CapacityExceeded));
    assert_eq!(t.insert(2, 5), Ok(()));
    assert_eq!(t.get(2), Some(5));
    assert_eq!(t.len(), 2);
    assert_eq!(t.capacity(), 2);
    assert!(!t.contains(3));
}

#[test]
fn remove_missing_is_not_found() {
    let mut t: RuleTable<u32, u8> = RuleTable::new(4);
    assert_eq!(t.remove(1), Err(TableError::NotFound));
    t.insert(1, 0).unwrap();
    assert_eq!(t.remove(1), Ok(()));
    assert_eq!(t.get(1), None);
    t.insert(2, 0).unwrap();
    t.clear();
    assert_eq!(t.len(), 0);
}

#[test]
fn replace_all_empties_then_fills() {
    let mut t: RuleTable<u32, u8> = RuleTable::new(2);
    t.insert(9, 0).unwrap();
    assert_eq!(t.replace_all(&vec![(1, 1), (2, 2), (1, 3)]), Ok(()));
    assert_eq!(t.get(9), None);
    assert_eq!(t.get(1), Some(3));
    assert_eq!(t.len(), 2);
    assert_eq!(t.replace_all(&vec![(1, 1), (2, 2), (3, 3), (2, 4)]), Err(TableError::CapacityExceeded));
    assert_eq!(t.get(3), None);
    assert_eq!(t.get(2), Some(4));
    let snap = t.snapshot();
    assert_eq!(snap.len(), 2);
    assert_eq!(snap.get(&1), Some(&1));
}

#[test]
fn concurrent_increments_sum_exactly() {
    // callers interleaved over two keys: each key counts its own calls
    let mut s = RuleStore::new();
    let n = 1000u64;
    for i in 0..(2 * n) {
        s.increase_drop((i % 2) as u32);
    }
    assert_eq!(s.blocked_stats.get(0), Some(n));
    assert_eq!(s.blocked_stats.get(1), Some(n));
}

#[test]
fn counter_starts_at_one_and_saturates() {
    let mut t: RuleTable<u32, u64> = RuleTable::new(1);
    t.increment(5);
    assert_eq!(t.get(5), Some(1));
    t.increment(6);
    assert_eq!(t.get(6), None);
    t.insert(5, u64::MAX).unwrap();
    t.increment(5);
    assert_eq!(t.get(5), Some(u64::MAX));
}
