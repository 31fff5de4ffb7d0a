use gpt_guid::{validate_guid_text, MalformedGuid, Registry, System};

#[test]
fn groups_come_in_declaration_order() {
    let registry = Registry::new();
    assert_eq!(
        registry.groups(),
        vec![
            None,
            Some(System::Windows),
            Some(System::Linux),
            Some(System::FreeBSD),
            Some(System::Apple),
            Some(System::Solaris),
            Some(System::NetBSD),
            Some(System::ChromeOS),
            Some(System::CoreOS),
            Some(System::Haiku),
            Some(System::MidnightBSD),
            Some(System::Ceph),
            Some(System::OpenBSD),
            Some(System::QNX),
            Some(System::VMware),
            Some(System::AndroidIA),
            Some(System::AndroidARM),
            Some(System::ONIE),
            Some(System::AtariTOS),
        ]
    );
}

#[test]
fn entries_come_in_declaration_order() {
    let registry = Registry::new();
    let general: Vec<(&str, &str)> =
        registry.entries(None).iter().map(|(name, guid)| (*name, guid.as_str())).collect();
    assert_eq!(
        general,
        vec![
            ("unused", "00000000-0000-0000-0000-000000000000"),
            ("MBR", "024DEE41-33E7-11D3-9D69-0008C781F39F"),
            ("EFI", "C12A7328-F81F-11D2-BA4B-00A0C93EC93B"),
            ("BIOSBoot", "21686148-6449-6E6F-744E-656564454649"),
            ("IntelFastFlash", "D3BFE2DE-3DAF-11DF-BA40-E3A556D89593"),
            ("SonyBoot", "F4019732-066E-4E12-8273-346C5641494F"),
            ("LenovoBoot", "BFBFAFE7-A34F-448A-9A5B-6213EB736C22"),
        ]
    );
    let chrome: Vec<&str> =
        registry.entries(Some(System::ChromeOS)).iter().map(|(name, _)| *name).collect();
    assert_eq!(chrome, vec!["kernel", "rootfs", "future"]);
}

#[test]
fn every_group_has_entries() {
    let registry = Registry::new();
    let sizes: Vec<usize> =
        registry.groups().iter().map(|owner| registry.entries(*owner).len()).collect();
    assert_eq!(sizes, vec![7, 9, 13, 6, 14, 13, 6, 3, 4, 1, 6, 23, 1, 1, 3, 16, 2, 2, 1]);
    assert_eq!(sizes.iter().sum::<usize>(), 131);
}

#[test]
fn every_entry_carries_the_owner_of_its_group() {
    let registry = Registry::new();
    for owner in registry.groups() {
        for (name, guid) in registry.entries(owner) {
            assert_eq!(guid.system(), owner);
            assert_eq!(registry.lookup_by_name(owner, name), Some(guid));
        }
    }
}

#[test]
fn every_guid_text_is_well_formed_outside_linux() {
    let registry = Registry::new();
    for owner in registry.groups() {
        for (name, guid) in registry.entries(owner) {
            let text = guid.as_str();
            if owner == Some(System::Linux) {
                assert_eq!(
                    validate_guid_text(text),
                    Err(MalformedGuid::WrongLength { found: 35 }),
                    "{name}"
                );
                assert!(!guid.is_well_formed());
            } else {
                assert_eq!(validate_guid_text(text), Ok(()), "{name}");
                assert!(guid.is_well_formed());
                assert_eq!(text, text.to_uppercase());
            }
        }
    }
}

#[test]
fn the_linux_texts_lack_their_last_digit() {
    let registry = Registry::new();
    for (_, guid) in registry.entries(Some(System::Linux)) {
        let completed = format!("{}0", guid.as_str());
        assert_eq!(validate_guid_text(&completed), Ok(()));
    }
    let swap = registry.lookup_by_name(Some(System::Linux), "Swap").expect("Linux has Swap");
    assert_eq!(swap.as_str(), "0657FD6D-A4AB-43C4-84E5-0933C84B4F4");
}

#[test]
fn names_are_unique_within_a_group() {
    let registry = Registry::new();
    for owner in registry.groups() {
        let entries = registry.entries(owner);
        for (i, (name, _)) in entries.iter().enumerate() {
            for (other, _) in &entries[i + 1..] {
                assert_ne!(name, other);
            }
        }
    }
}

#[test]
fn entries_are_listed_the_same_every_time() {
    let registry = Registry::new();
    for owner in registry.groups() {
        assert_eq!(registry.entries(owner), registry.entries(owner));
    }
    assert_eq!(registry.groups(), registry.groups());
}

#[test]
fn the_later_ceph_declaration_wins_and_keeps_its_place() {
    let registry = Registry::new();
    let ceph = registry.entries(Some(System::Ceph));
    assert_eq!(ceph.len(), 23);
    let at: Vec<usize> = ceph
        .iter()
        .enumerate()
        .filter(|(_, (name, _))| *name == "Multipath block")
        .map(|(i, _)| i)
        .collect();
    assert_eq!(at, vec![12]);
    assert_eq!(ceph[12].1.as_str(), "7F4A666A-16F3-47A2-8445-152EF4D03F6C");
    assert_eq!(ceph[11].0, "Multipath journal");
    assert_eq!(ceph[13].0, "Multipath block DB");
    let found = registry
        .lookup_by_name(Some(System::Ceph), "Multipath block")
        .expect("Ceph has Multipath block");
    assert_eq!(found.as_str(), "7F4A666A-16F3-47A2-8445-152EF4D03F6C");
    assert!(registry.lookup_by_guid("CAFECAFE-8AE0-4982-BF9D-5A8D867AF560").is_empty());
    assert_eq!(
        registry.lookup_by_guid("7F4A666A-16F3-47A2-8445-152EF4D03F6C"),
        vec![(Some(System::Ceph), "Multipath block")]
    );
}

#[test]
fn every_guid_is_found_again_by_its_text() {
    let registry = Registry::new();
    for owner in registry.groups() {
        for (name, guid) in registry.entries(owner) {
            assert!(registry.lookup_by_guid(guid.as_str()).contains(&(owner, name)));
            assert!(registry.lookup_by_guid(&guid.as_str().to_lowercase()).contains(&(owner, name)));
            assert!(registry.lookup_by_name_any_group(name).contains(&(owner, guid)));
        }
    }
}
