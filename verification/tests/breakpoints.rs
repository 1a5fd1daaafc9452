use gba_scheduler::breakpoints::Breakpoints;

#[test]
fn empty_set_holds_nothing() {
    let set = Breakpoints::new();
    assert_eq!(set.len(), 0);
    assert!(!set.contains(0));
    assert_eq!(set.get(0), None);
    assert_eq!(set.check(0), None);
}

#[test]
fn add_appends_in_insertion_order() {
    let mut set = Breakpoints::new();
    assert_eq!(set.add(30), Some(0));
    assert_eq!(set.add(10), Some(1));
    assert_eq!(set.add(20), Some(2));
    assert_eq!(set.len(), 3);
    assert_eq!(set.get(0), Some(30));
    assert_eq!(set.get(1), Some(10));
    assert_eq!(set.get(2), Some(20));
    assert_eq!(set.get(3), None);
}

#[test]
fn add_refuses_a_duplicate_and_keeps_the_set() {
    let mut set = Breakpoints::new();
    assert_eq!(set.add(7), Some(0));
    assert_eq!(set.add(9), Some(1));
    assert_eq!(set.add(7), None);
    assert_eq!(set.add(9), None);
    assert_eq!(set.len(), 2);
    assert_eq!(set.get(0), Some(7));
    assert_eq!(set.get(1), Some(9));
}

#[test]
fn contains_and_check_agree() {
    let mut set = Breakpoints::new();
    set.add(0xFFFF_FFFF);
    set.add(0);
    assert!(set.contains(0xFFFF_FFFF));
    assert!(set.contains(0));
    assert!(!set.contains(1));
    assert_eq!(set.check(0xFFFF_FFFF), Some(0xFFFF_FFFF));
    assert_eq!(set.check(0), Some(0));
    assert_eq!(set.check(1), None);
}

#[test]
fn index_of_an_entry_survives_later_additions() {
    let mut set = Breakpoints::new();
    let first = set.add(0x100);
    for addr in 0..50u32 {
        set.add(addr);
    }
    assert_eq!(first, Some(0));
    assert_eq!(set.get(0), Some(0x100));
    assert_eq!(set.len(), 51);
    assert_eq!(set.add(0x100), None);
    assert_eq!(set.len(), 51);
}
