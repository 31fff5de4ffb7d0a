use gpt_guid::guid::{at_hyphen_position, char_is_hex_digit, GUID_TEXT_LEN};
use gpt_guid::{validate_guid_text, MalformedGuid, System, GUID};

#[test]
fn a_canonical_text_is_accepted() {
    assert_eq!(validate_guid_text("C12A7328-F81F-11D2-BA4B-00A0C93EC93B"), Ok(()));
    assert_eq!(validate_guid_text("00000000-0000-0000-0000-000000000000"), Ok(()));
    assert_eq!(validate_guid_text("FFFFFFFF-FFFF-FFFF-FFFF-FFFFFFFFFFFF"), Ok(()));
}

#[test]
fn lower_case_digits_are_accepted() {
    assert_eq!(validate_guid_text("c12a7328-f81f-11d2-ba4b-00a0c93ec93b"), Ok(()));
    assert_eq!(validate_guid_text("abcdefAB-CDEF-0123-4567-89abcdefABCD"), Ok(()));
}

#[test]
fn a_wrong_length_is_reported_with_the_length() {
    assert_eq!(validate_guid_text(""), Err(MalformedGuid::WrongLength { found: 0 }));
    assert_eq!(
        validate_guid_text("0FC63DAF-8483-4772-8E79-3D69D8477DE"),
        Err(MalformedGuid::WrongLength { found: 35 })
    );
    assert_eq!(
        validate_guid_text("C12A7328-F81F-11D2-BA4B-00A0C93EC93B0"),
        Err(MalformedGuid::WrongLength { found: 37 })
    );
    assert_eq!(
        validate_guid_text("C12A7328F81F11D2BA4B00A0C93EC93B"),
        Err(MalformedGuid::WrongLength { found: 32 })
    );
}

#[test]
fn length_is_counted_in_characters() {
    assert_eq!(
        validate_guid_text("\u{e9}12A7328-F81F-11D2-BA4B-00A0C93EC93B"),
        Err(MalformedGuid::InvalidDigit { at: 0 })
    );
    assert_eq!(
        validate_guid_text("C12A7328-F81F-11D2-BA4B-00A0C93EC9\u{e9}"),
        Err(MalformedGuid::WrongLength { found: 35 })
    );
}

#[test]
fn a_missing_hyphen_is_reported_at_its_position() {
    assert_eq!(
        validate_guid_text("C12A7328_F81F-11D2-BA4B-00A0C93EC93B"),
        Err(MalformedGuid::MissingHyphen { at: 8 })
    );
    assert_eq!(
        validate_guid_text("C12A7328-F81F011D2-BA4B-00A0C93EC93B"),
        Err(MalformedGuid::MissingHyphen { at: 13 })
    );
    assert_eq!(
        validate_guid_text("C12A7328-F81F-11D2 BA4B-00A0C93EC93B"),
        Err(MalformedGuid::MissingHyphen { at: 18 })
    );
    assert_eq!(
        validate_guid_text("C12A7328-F81F-11D2-BA4BA00A0C93EC93B"),
        Err(MalformedGuid::MissingHyphen { at: 23 })
    );
}

#[test]
fn an_invalid_digit_is_reported_at_its_position() {
    assert_eq!(
        validate_guid_text("G12A7328-F81F-11D2-BA4B-00A0C93EC93B"),
        Err(MalformedGuid::InvalidDigit { at: 0 })
    );
    assert_eq!(
        validate_guid_text("C12A7328-F81F-11D2-BA4B-00A0C93EC93g"),
        Err(MalformedGuid::InvalidDigit { at: 35 })
    );
    assert_eq!(
        validate_guid_text("C12A732--F81F-11D2-BA4B-00A0C93EC93B"),
        Err(MalformedGuid::InvalidDigit { at: 7 })
    );
    assert_eq!(
        validate_guid_text("C12A7328-F81F-11D2-BA4B-00A0 93EC93B"),
        Err(MalformedGuid::InvalidDigit { at: 28 })
    );
}

#[test]
fn the_first_defect_is_the_one_reported() {
    assert_eq!(
        validate_guid_text("C12A7328_F81F-11D2-BA4B-00A0C93EC9ZZ"),
        Err(MalformedGuid::MissingHyphen { at: 8 })
    );
    assert_eq!(
        validate_guid_text("C1ZA7328_F81F-11D2-BA4B-00A0C93EC93B"),
        Err(MalformedGuid::InvalidDigit { at: 2 })
    );
}

#[test]
fn hexadecimal_digits_are_told_apart() {
    for c in "0123456789abcdefABCDEF".chars() {
        assert!(char_is_hex_digit(c), "{c}");
    }
    for c in "/:@G`g-_ zZ\u{e9}\u{ff21}".chars() {
        assert!(!char_is_hex_digit(c), "{c}");
    }
}

#[test]
fn hyphens_stand_at_four_positions() {
    let hyphens: Vec<usize> = (0..GUID_TEXT_LEN).filter(|i| at_hyphen_position(*i)).collect();
    assert_eq!(hyphens, vec![8, 13, 18, 23]);
    assert!(!at_hyphen_position(36));
    assert_eq!(GUID_TEXT_LEN, 36);
}

#[test]
fn a_guid_hands_back_what_it_was_made_of() {
    let guid = GUID::new("EBD0A0A2-B9E5-4433-87C0-68B6B72699C7", Some(System::Windows));
    assert_eq!(guid.as_str(), "EBD0A0A2-B9E5-4433-87C0-68B6B72699C7");
    assert_eq!(guid.system(), Some(System::Windows));
    assert_eq!(guid.to_string(), "EBD0A0A2-B9E5-4433-87C0-68B6B72699C7".to_string());
    assert!(guid.is_well_formed());
    let general = GUID::new("not a guid", None);
    assert_eq!(general.as_str(), "not a guid");
    assert_eq!(general.system(), None);
    assert!(!general.is_well_formed());
}

#[test]
fn a_guid_matches_its_text_in_any_case() {
    let guid = GUID::new("EBD0A0A2-B9E5-4433-87C0-68B6B72699C7", Some(System::Windows));
    assert!(guid.matches("EBD0A0A2-B9E5-4433-87C0-68B6B72699C7"));
    assert!(guid.matches("ebd0a0a2-b9e5-4433-87c0-68b6b72699c7"));
    assert!(guid.matches("Ebd0A0a2-b9E5-4433-87c0-68B6b72699C7"));
    assert!(!guid.matches("EBD0A0A2-B9E5-4433-87C0-68B6B72699C8"));
    assert!(!guid.matches("EBD0A0A2-B9E5-4433-87C0-68B6B72699C"));
    assert!(!guid.matches(""));
}
