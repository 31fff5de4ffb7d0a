use gpt_guid::{Registry, System};

const SHARED: &str = "6A898CC3-1DD2-11B2-99A6-080020736631";

#[test]
fn efi_is_a_general_type() {
    let registry = Registry::new();
    let guid = registry.lookup_by_name(None, "EFI").expect("EFI is registered");
    assert_eq!(guid.as_str(), "C12A7328-F81F-11D2-BA4B-00A0C93EC93B");
    assert_eq!(guid.system(), None);
}

#[test]
fn basic_data_belongs_to_windows() {
    let registry = Registry::new();
    let guid = registry
        .lookup_by_name(Some(System::Windows), "BasicData")
        .expect("BasicData is registered");
    assert_eq!(guid.as_str(), "EBD0A0A2-B9E5-4433-87C0-68B6B72699C7");
    assert_eq!(guid.system(), Some(System::Windows));
}

#[test]
fn apple_zfs_and_solaris_usr_share_a_guid() {
    let registry = Registry::new();
    let zfs = registry.lookup_by_name(Some(System::Apple), "ZFS").expect("Apple has ZFS");
    let usr = registry.lookup_by_name(Some(System::Solaris), "/usr").expect("Solaris has /usr");
    assert_eq!(zfs.as_str(), SHARED);
    assert_eq!(usr.as_str(), SHARED);
    assert_eq!(zfs.system(), Some(System::Apple));
    assert_eq!(usr.system(), Some(System::Solaris));
}

#[test]
fn a_shared_guid_finds_both_owners() {
    let registry = Registry::new();
    let found = registry.lookup_by_guid(SHARED);
    assert_eq!(found, vec![(Some(System::Apple), "ZFS"), (Some(System::Solaris), "/usr")]);
}

#[test]
fn an_unknown_name_is_absent() {
    let registry = Registry::new();
    assert_eq!(registry.lookup_by_name(Some(System::Windows), "nonexistent-name"), None);
    assert_eq!(registry.lookup_by_name(None, ""), None);
    assert!(registry.lookup_by_name_any_group("nonexistent-name").is_empty());
}

#[test]
fn a_name_is_looked_up_in_its_own_group_only() {
    let registry = Registry::new();
    assert_eq!(registry.lookup_by_name(Some(System::Windows), "EFI"), None);
    assert_eq!(registry.lookup_by_name(None, "BasicData"), None);
    assert_eq!(registry.lookup_by_name(Some(System::Solaris), "ZFS"), None);
}

#[test]
fn names_are_matched_exactly() {
    let registry = Registry::new();
    assert_eq!(registry.lookup_by_name(None, "efi"), None);
    assert_eq!(registry.lookup_by_name(None, "EFI "), None);
    assert_eq!(registry.lookup_by_name(None, "EF"), None);
    assert_eq!(registry.lookup_by_name(Some(System::CoreOS), "Usr"), None);
    let usr = registry.lookup_by_name(Some(System::CoreOS), "Usr)").expect("spelt with ')'");
    assert_eq!(usr.as_str(), "5DFBF5F4-2848-4BAC-AA5E-0D9A20B745A6");
}

#[test]
fn a_name_in_several_groups_finds_each() {
    let registry = Registry::new();
    let found: Vec<(Option<System>, &str)> = registry
        .lookup_by_name_any_group("ZFS")
        .iter()
        .map(|(owner, guid)| (*owner, guid.as_str()))
        .collect();
    assert_eq!(
        found,
        vec![
            (Some(System::Apple), SHARED),
            (Some(System::MidnightBSD), "85D5E45D-237C-11E1-B4B3-E89A8F7FC3A7"),
        ]
    );
    let boot: Vec<Option<System>> =
        registry.lookup_by_name_any_group("Boot").iter().map(|(owner, _)| *owner).collect();
    assert_eq!(
        boot,
        vec![
            Some(System::Apple),
            Some(System::Solaris),
            Some(System::MidnightBSD),
            Some(System::AndroidIA),
            Some(System::ONIE),
        ]
    );
}

#[test]
fn a_guid_found_in_any_group_carries_its_owner() {
    let registry = Registry::new();
    for (owner, guid) in registry.lookup_by_name_any_group("Swap") {
        assert_eq!(guid.system(), owner);
        assert_eq!(registry.lookup_by_name(owner, "Swap"), Some(guid));
    }
    assert_eq!(registry.lookup_by_name_any_group("Swap").len(), 4);
}

#[test]
fn guid_lookup_ignores_case() {
    let registry = Registry::new();
    let upper = registry.lookup_by_guid("C12A7328-F81F-11D2-BA4B-00A0C93EC93B");
    let lower = registry.lookup_by_guid("c12a7328-f81f-11d2-ba4b-00a0c93ec93b");
    let mixed = registry.lookup_by_guid("c12A7328-F81f-11d2-Ba4B-00a0C93eC93b");
    assert_eq!(upper, vec![(None, "EFI")]);
    assert_eq!(lower, upper);
    assert_eq!(mixed, upper);
    assert_eq!(registry.lookup_by_guid(&SHARED.to_lowercase()), registry.lookup_by_guid(SHARED));
}

#[test]
fn guid_lookup_of_a_text_that_matches_nothing_is_empty() {
    let registry = Registry::new();
    assert!(registry.lookup_by_guid("FFFFFFFF-FFFF-FFFF-FFFF-FFFFFFFFFFFF").is_empty());
    assert!(registry.lookup_by_guid("").is_empty());
    assert!(registry.lookup_by_guid("not a guid").is_empty());
    assert!(registry.lookup_by_guid("C12A7328-F81F-11D2-BA4B-00A0C93EC93").is_empty());
    assert!(registry.lookup_by_guid("C12A7328-F81F-11D2-BA4B-00A0C93EC93B0").is_empty());
    assert!(registry.lookup_by_guid("c12a7328-f81f-11d2-ba4b-00a0c93ec93\u{e9}").is_empty());
}

#[test]
fn guid_lookup_finds_the_short_linux_texts_as_they_are_spelt() {
    let registry = Registry::new();
    assert_eq!(
        registry.lookup_by_guid("0657fd6d-a4ab-43c4-84e5-0933c84b4f4"),
        vec![(Some(System::Linux), "Swap")]
    );
    assert!(registry.lookup_by_guid("0657FD6D-A4AB-43C4-84E5-0933C84B4F4F").is_empty());
}

#[test]
fn the_unused_type_is_all_zero() {
    let registry = Registry::new();
    let unused = registry.lookup_by_name(None, "unused").expect("unused is registered");
    assert_eq!(unused.as_str(), "00000000-0000-0000-0000-000000000000");
    assert_eq!(registry.lookup_by_guid(unused.as_str()), vec![(None, "unused")]);
}

#[test]
fn lookups_do_not_change_later_answers() {
    let registry = Registry::new();
    let first = registry.lookup_by_guid(SHARED);
    let name_first = registry.lookup_by_name(Some(System::Apple), "ZFS");
    let entries_first = registry.entries(Some(System::Ceph));
    let _ = registry.groups();
    let _ = registry.entries(None);
    let _ = registry.lookup_by_name(Some(System::Linux), "Swap");
    let _ = registry.lookup_by_name_any_group("Boot");
    let _ = registry.lookup_by_guid("nothing");
    assert_eq!(registry.lookup_by_guid(SHARED), first);
    assert_eq!(registry.lookup_by_name(Some(System::Apple), "ZFS"), name_first);
    assert_eq!(registry.entries(Some(System::Ceph)), entries_first);
}

#[test]
fn two_registries_answer_alike() {
    let one = Registry::new();
    let other = Registry::new();
    assert_eq!(one.groups(), other.groups());
    for owner in one.groups() {
        assert_eq!(one.entries(owner), other.entries(owner));
    }
}
