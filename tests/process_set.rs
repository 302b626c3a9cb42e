use tray_valet::process_set::{ProcessEntry, ProcessSet};

fn entry(process_id: u32, parent_process_id: u32) -> ProcessEntry {
    ProcessEntry { process_id, parent_process_id }
}

#[test]
fn new_set_holds_only_root() {
    let set = ProcessSet::new(10);
    assert_eq!(set.ids(), vec![10]);
    assert!(set.contains(10));
    assert!(!set.contains(11));
    assert_eq!(set.len(), 1);
}

#[test]
fn grow_adds_children_of_known_processes_in_order() {
    let mut set = ProcessSet::new(10);
    let snapshot = vec![entry(4, 1), entry(11, 10), entry(12, 11), entry(13, 99)];
    let added = set.grow(&snapshot);
    assert_eq!(added, vec![11, 12]);
    assert_eq!(set.ids(), vec![10, 11, 12]);
}

#[test]
fn grandchild_listed_before_parent_waits_for_next_pass() {
    let mut set = ProcessSet::new(10);
    let snapshot = vec![entry(12, 11), entry(11, 10)];
    assert_eq!(set.grow(&snapshot), vec![11]);
    assert_eq!(set.grow(&snapshot), vec![12]);
    assert_eq!(set.ids(), vec![10, 11, 12]);
}

#[test]
fn grow_never_duplicates_or_shrinks() {
    let mut set = ProcessSet::new(10);
    let snapshot = vec![entry(11, 10), entry(11, 10), entry(10, 11)];
    assert_eq!(set.grow(&snapshot), vec![11]);
    assert_eq!(set.grow(&snapshot), Vec::<u32>::new());
    assert_eq!(set.ids(), vec![10, 11]);
}

#[test]
fn insert_child_requires_known_parent() {
    let mut set = ProcessSet::new(1);
    assert!(!set.insert_child(entry(3, 2)));
    assert!(set.insert_child(entry(2, 1)));
    assert!(set.insert_child(entry(3, 2)));
    assert!(!set.insert_child(entry(3, 2)));
    assert_eq!(set.ids(), vec![1, 2, 3]);
}
