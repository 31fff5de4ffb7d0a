//! GUID texts: their shape, how a malformed one is told apart, and the value
//! that the registry hands out.

use vstd::prelude::*;
use vstd::std_specs::iter::IteratorSpec;
use vstd::string::*;
use crate::system::System;
use crate::text::{same_ignoring_case, str_equal_ignoring_case};

verus! {

/// The number of characters of a GUID text: 32 digits and 4 hyphens.
pub const GUID_TEXT_LEN: usize = 36;

/// A hexadecimal digit of either case.
pub open spec fn is_hex_digit(c: char) -> bool {
    ('0' <= c && c <= '9') || ('a' <= c && c <= 'f') || ('A' <= c && c <= 'F')
}

/// A hexadecimal digit that is not a lower-case letter.
pub open spec fn is_upper_hex_digit(c: char) -> bool {
    ('0' <= c && c <= '9') || ('A' <= c && c <= 'F')
}

/// The positions that separate the groups of 8, 4, 4, 4 and 12 digits.
pub open spec fn is_hyphen_position(i: int) -> bool {
    i == 8 || i == 13 || i == 18 || i == 23
}

/// Position `i` of `s` holds what a GUID text has there: a hyphen between
/// the groups, a hexadecimal digit elsewhere.
pub open spec fn fits_at(s: Seq<char>, i: int) -> bool {
    if is_hyphen_position(i) {
        s[i] == '-'
    } else {
        is_hex_digit(s[i])
    }
}

/// Position `i` of `s` holds what a canonical GUID text has there: as
/// `fits_at`, with no lower-case digit.
pub open spec fn fits_canonically_at(s: Seq<char>, i: int) -> bool {
    if is_hyphen_position(i) {
        s[i] == '-'
    } else {
        is_upper_hex_digit(s[i])
    }
}

/// A GUID text: 36 characters, hyphens at positions 8, 13, 18 and 23,
/// hexadecimal digits of either case elsewhere.
pub open spec fn is_guid_text(s: Seq<char>) -> bool {
    &&& s.len() == 36
    &&& forall|i: int| 0 <= i < 36 ==> #[trigger] fits_at(s, i)
}

/// The beginning of a canonical GUID text: at most 36 characters, each of
/// them what the canonical form has at its position.
pub open spec fn is_canonical_prefix(s: Seq<char>) -> bool {
    &&& s.len() <= 36
    &&& forall|i: int| 0 <= i < s.len() ==> #[trigger] fits_canonically_at(s, i)
}

/// A GUID text in canonical form: a GUID text whose digits are upper-case.
pub open spec fn is_canonical_guid_text(s: Seq<char>) -> bool {
    s.len() == 36 && is_canonical_prefix(s)
}

/// `at` is the first position of `s` that does not hold what a GUID text
/// has there.
pub open spec fn is_first_defect(s: Seq<char>, at: int) -> bool {
    &&& 0 <= at < 36
    &&& at < s.len()
    &&& !fits_at(s, at)
    &&& forall|j: int| 0 <= j < at ==> #[trigger] fits_at(s, j)
}

/// Why a text is no GUID text.
#[derive(Clone, Copy, Debug, PartialEq, Eq, Structural)]
pub enum MalformedGuid {
    /// The text does not have 36 characters; `found` is the number it has.
    WrongLength { found: usize },
    /// Position `at`, one of 8, 13, 18 and 23, holds no hyphen; all is well
    /// before it.
    MissingHyphen { at: usize },
    /// Position `at` holds no hexadecimal digit; all is well before it.
    InvalidDigit { at: usize },
}

/// Whether a character is a hexadecimal digit of either case.
pub fn char_is_hex_digit(c: char) -> (r: bool)
    ensures
        r == is_hex_digit(c),
{
    ('0' <= c && c <= '9') || ('a' <= c && c <= 'f') || ('A' <= c && c <= 'F')
}

/// Whether position `i` separates two groups of digits.
pub fn at_hyphen_position(i: usize) -> (r: bool)
    ensures
        r == is_hyphen_position(i as int),
{
    i == 8 || i == 13 || i == 18 || i == 23
}

/// Checks that a text is a GUID text, and says what is wrong with one that
/// is not: its length, or else the first position that holds the wrong kind
/// of character.
pub fn validate_guid_text(text: &str) -> (r: Result<(), MalformedGuid>)
    ensures
        match r {
            Ok(_) => is_guid_text(text@),
            Err(MalformedGuid::WrongLength { found }) => found != 36 && found == text@.len(),
            Err(MalformedGuid::MissingHyphen { at }) => text@.len() == 36 && is_first_defect(
                text@,
                at as int,
            ) && is_hyphen_position(at as int),
            Err(MalformedGuid::InvalidDigit { at }) => text@.len() == 36 && is_first_defect(
                text@,
                at as int,
            ) && !is_hyphen_position(at as int),
        },
{
    let found: usize = text.unicode_len();
    if found != GUID_TEXT_LEN {
        return Err(MalformedGuid::WrongLength { found });
    }
    let mut rest = text.chars();
    let mut at: usize = 0;
    while at < GUID_TEXT_LEN
        invariant
            text@.len() == 36,
            0 <= at <= 36,
            rest.remaining() == text@.skip(at as int),
            forall|j: int| 0 <= j < at ==> #[trigger] fits_at(text@, j),
        decreases 36 - at,
    {
        match rest.next() {
            Some(c) => {
                if at_hyphen_position(at) {
                    if c != '-' {
                        return Err(MalformedGuid::MissingHyphen { at });
                    }
                } else if !char_is_hex_digit(c) {
                    return Err(MalformedGuid::InvalidDigit { at });
                }
            },
            None => {
                assert(false);
            },
        }
        at = at + 1;
    }
    Ok(())
}

/// A partition-type GUID as the registry holds it: its text, and the system
/// that defines it, if one does.
#[derive(Clone, Copy, Debug, PartialEq, Eq)]
pub struct GUID {
    string: &'static str,
    system: Option<System>,
}

/// What a `GUID` stands for.
pub struct GuidView {
    pub text: Seq<char>,
    pub system: Option<System>,
}

impl View for GUID {
    type V = GuidView;

    closed spec fn view(&self) -> GuidView {
        GuidView { text: self.string@, system: self.system }
    }
}

impl GUID {
    /// The GUID with the given text and owner. The text is taken as it is.
    pub fn new(text: &'static str, system: Option<System>) -> (g: GUID)
        ensures
            g@ == (GuidView { text: text@, system }),
    {
        GUID { string: text, system }
    }

    /// The text of the GUID, as the registry spells it.
    pub fn as_str(&self) -> (s: &'static str)
        ensures
            s@ == self@.text,
    {
        self.string
    }

    /// The system that defines the GUID; `None` for one that belongs to no
    /// single system.
    pub fn system(&self) -> (s: Option<System>)
        ensures
            s == self@.system,
    {
        self.system
    }

    /// The text of the GUID as an owned string.
    pub fn to_string(&self) -> (s: String)
        ensures
            s@ == self@.text,
    {
        String::from_str(self.string)
    }

    /// Whether the text is a GUID text: 36 characters, hyphens and
    /// hexadecimal digits in their places.
    pub fn is_well_formed(&self) -> (r: bool)
        ensures
            r == is_guid_text(self@.text),
    {
        validate_guid_text(self.string).is_ok()
    }

    /// Whether `text` spells this GUID, whatever the case of its letters.
    pub fn matches(&self, text: &str) -> (r: bool)
        ensures
            r == same_ignoring_case(self@.text, text@),
    {
        str_equal_ignoring_case(self.string, text)
    }
}

} // verus!
