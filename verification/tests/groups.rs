use gpt_guid::system::same_group;
use gpt_guid::{Group, System};

const FIRST: &str = "11111111-1111-1111-1111-111111111111";
const SECOND: &str = "22222222-2222-2222-2222-222222222222";
const THIRD: &str = "33333333-3333-3333-3333-333333333333";

#[test]
fn no_rows_declare_an_empty_group() {
    let group = Group::from_rows(Some(System::Haiku), &[]);
    assert_eq!(group.len(), 0);
    assert_eq!(group.system(), Some(System::Haiku));
    assert_eq!(group.find("BFS"), None);
}

#[test]
fn rows_with_distinct_names_are_all_kept() {
    let group = Group::from_rows(None, &[("a", FIRST), ("b", SECOND), ("c", THIRD)]);
    assert_eq!(group.len(), 3);
    assert_eq!(group.system(), None);
    assert_eq!(group.find("a").map(|g| g.as_str()), Some(FIRST));
    assert_eq!(group.find("b").map(|g| g.as_str()), Some(SECOND));
    assert_eq!(group.find("c").map(|g| g.as_str()), Some(THIRD));
    assert_eq!(group.find("d"), None);
}

#[test]
fn a_name_declared_again_takes_the_later_guid() {
    let group = Group::from_rows(Some(System::Ceph), &[("a", FIRST), ("b", SECOND), ("a", THIRD)]);
    assert_eq!(group.len(), 2);
    let found = group.find("a").expect("a is declared");
    assert_eq!(found.as_str(), THIRD);
    assert_eq!(found.system(), Some(System::Ceph));
    assert_eq!(group.find("b").map(|g| g.as_str()), Some(SECOND));
}

#[test]
fn a_name_declared_three_times_takes_the_last_guid() {
    let group = Group::from_rows(None, &[("a", FIRST), ("a", SECOND), ("a", THIRD)]);
    assert_eq!(group.len(), 1);
    assert_eq!(group.find("a").map(|g| g.as_str()), Some(THIRD));
}

#[test]
fn names_that_differ_in_case_are_different_names() {
    let group = Group::from_rows(None, &[("boot", FIRST), ("Boot", SECOND)]);
    assert_eq!(group.len(), 2);
    assert_eq!(group.find("boot").map(|g| g.as_str()), Some(FIRST));
    assert_eq!(group.find("Boot").map(|g| g.as_str()), Some(SECOND));
    assert_eq!(group.find("BOOT"), None);
}

#[test]
fn group_selectors_are_told_apart() {
    assert!(same_group(None, None));
    assert!(same_group(Some(System::QNX), Some(System::QNX)));
    assert!(!same_group(None, Some(System::QNX)));
    assert!(!same_group(Some(System::QNX), None));
    assert!(!same_group(Some(System::AndroidIA), Some(System::AndroidARM)));
}
