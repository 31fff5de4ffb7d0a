use gpt_guid::text::{str_equal, str_equal_ignoring_case, to_upper};

#[test]
fn lower_case_letters_become_upper_case() {
    assert_eq!(to_upper('a'), 'A');
    assert_eq!(to_upper('f'), 'F');
    assert_eq!(to_upper('z'), 'Z');
}

#[test]
fn other_characters_stay_as_they_are() {
    for c in "AZ09-`{@[ \u{e9}\u{c9}\u{ff41}".chars() {
        assert_eq!(to_upper(c), c);
    }
}

#[test]
fn upper_case_agrees_with_the_ascii_rule() {
    for code in 0u32..0x250 {
        if let Some(c) = char::from_u32(code) {
            assert_eq!(to_upper(c), c.to_ascii_uppercase());
        }
    }
}

#[test]
fn equal_strings_are_equal() {
    assert!(str_equal("", ""));
    assert!(str_equal("ZFS", "ZFS"));
    assert!(str_equal("Unix File System (UFS)", "Unix File System (UFS)"));
    assert!(str_equal("caf\u{e9}", "caf\u{e9}"));
}

#[test]
fn different_strings_are_not_equal() {
    assert!(!str_equal("ZFS", "zfs"));
    assert!(!str_equal("ZFS", "ZF"));
    assert!(!str_equal("ZF", "ZFS"));
    assert!(!str_equal("", "Z"));
    assert!(!str_equal("ZFS", "ZFT"));
    assert!(!str_equal("AFS", "ZFS"));
    assert!(!str_equal("cafe", "caf\u{e9}"));
}

#[test]
fn case_of_ascii_letters_is_set_aside() {
    assert!(str_equal_ignoring_case("", ""));
    assert!(str_equal_ignoring_case("abcDEF-09", "ABCdef-09"));
    assert!(str_equal_ignoring_case("ZFS", "zfs"));
    assert!(str_equal_ignoring_case("zfs", "ZFS"));
}

#[test]
fn nothing_but_case_of_ascii_letters_is_set_aside() {
    assert!(!str_equal_ignoring_case("ZFS", "ZF"));
    assert!(!str_equal_ignoring_case("ZF", "ZFS"));
    assert!(!str_equal_ignoring_case("ZFS", "ZFT"));
    assert!(!str_equal_ignoring_case("a-b", "a_b"));
    assert!(!str_equal_ignoring_case("@", "`"));
    assert!(!str_equal_ignoring_case("[", "{"));
    assert!(!str_equal_ignoring_case("\u{e9}", "\u{c9}"));
    assert!(str_equal_ignoring_case("\u{e9}a", "\u{e9}A"));
}

#[test]
fn ignoring_case_agrees_with_the_ascii_rule() {
    let samples = ["", "a", "A", "Ab-0", "aB-0", "ab-1", "\u{e9}", "\u{c9}", "ab", "abc"];
    for a in samples {
        for b in samples {
            assert_eq!(str_equal_ignoring_case(a, b), a.eq_ignore_ascii_case(b), "{a} {b}");
            assert_eq!(str_equal(a, b), a == b, "{a} {b}");
        }
    }
}
