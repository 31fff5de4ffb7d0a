//! Characters and strings as the registry compares them: names exactly,
//! GUID texts without regard to the case of ASCII letters.

use vstd::prelude::*;
use vstd::std_specs::iter::IteratorSpec;
use vstd::string::*;

verus! {

/// The character with an ASCII lower-case letter replaced by its upper-case
/// form; every other character is left alone.
pub open spec fn upper_char(c: char) -> char {
    if 'a' <= c && c <= 'z' {
        ((c as u8 - 32) as u8) as char
    } else {
        c
    }
}

/// The character with an ASCII upper-case letter replaced by its lower-case
/// form; every other character is left alone.
pub open spec fn lower_char(c: char) -> char {
    if 'A' <= c && c <= 'Z' {
        ((c as u8 + 32) as u8) as char
    } else {
        c
    }
}

/// A text with every ASCII lower-case letter made upper-case.
pub open spec fn upper_text(s: Seq<char>) -> Seq<char> {
    Seq::new(s.len(), |i: int| upper_char(s[i]))
}

/// A text with every ASCII upper-case letter made lower-case.
pub open spec fn lower_text(s: Seq<char>) -> Seq<char> {
    Seq::new(s.len(), |i: int| lower_char(s[i]))
}

/// Two texts are the same up to the case of their ASCII letters.
pub open spec fn same_ignoring_case(a: Seq<char>, b: Seq<char>) -> bool {
    upper_text(a) == upper_text(b)
}

/// The upper-case form of one character.
pub fn to_upper(c: char) -> (r: char)
    ensures
        r == upper_char(c),
{
    if 'a' <= c && c <= 'z' {
        let b: u8 = c as u8;
        (b - 32) as char
    } else {
        c
    }
}

/// Whether two strings hold the same characters.
pub fn str_equal(a: &str, b: &str) -> (r: bool)
    ensures
        r == (a@ == b@),
{
    let mut left = a.chars();
    let mut right = b.chars();
    let ghost mut k: int = 0;
    loop
        invariant
            0 <= k <= a@.len(),
            k <= b@.len(),
            left.remaining() == a@.skip(k),
            right.remaining() == b@.skip(k),
            a@.take(k) == b@.take(k),
        decreases a@.len() - k,
    {
        let x = left.next();
        let y = right.next();
        match (x, y) {
            (Some(p), Some(q)) => {
                if p != q {
                    return false;
                }
                proof {
                    k = k + 1;
                }
            },
            (None, None) => {
                assert(a@.take(k) =~= a@ && b@.take(k) =~= b@);
                return true;
            },
            _ => {
                return false;
            },
        }
    }
}

/// Whether two strings hold the same characters once the case of their ASCII
/// letters is set aside.
pub fn str_equal_ignoring_case(a: &str, b: &str) -> (r: bool)
    ensures
        r == same_ignoring_case(a@, b@),
{
    let mut left = a.chars();
    let mut right = b.chars();
    let ghost mut k: int = 0;
    loop
        invariant
            0 <= k <= a@.len(),
            k <= b@.len(),
            left.remaining() == a@.skip(k),
            right.remaining() == b@.skip(k),
            forall|i: int| 0 <= i < k ==> upper_char(a@[i]) == upper_char(b@[i]),
        decreases a@.len() - k,
    {
        let x = left.next();
        let y = right.next();
        match (x, y) {
            (Some(p), Some(q)) => {
                if to_upper(p) != to_upper(q) {
                    assert(upper_text(a@)[k] != upper_text(b@)[k]);
                    return false;
                }
                proof {
                    k = k + 1;
                }
            },
            (None, None) => {
                assert(upper_text(a@) =~= upper_text(b@));
                return true;
            },
            _ => {
                assert(upper_text(a@).len() != upper_text(b@).len());
                return false;
            },
        }
    }
}

/// Changing the case of ASCII letters does not change what a text is taken
/// for when case is set aside.
pub proof fn lemma_case_is_ignored(s: Seq<char>)
    ensures
        same_ignoring_case(upper_text(s), s),
        same_ignoring_case(lower_text(s), s),
        same_ignoring_case(lower_text(s), upper_text(s)),
{
    assert forall|i: int| 0 <= i < s.len() implies upper_char(upper_char(s[i])) == upper_char(
        s[i],
    ) && upper_char(lower_char(s[i])) == upper_char(s[i]) by {
        lemma_upper_char_absorbs(s[i]);
    }
    assert(upper_text(upper_text(s)) =~= upper_text(s));
    assert(upper_text(lower_text(s)) =~= upper_text(s));
}

/// Making a character upper-case a second time, or after making it
/// lower-case, gives what making it upper-case once gives.
pub proof fn lemma_upper_char_absorbs(c: char)
    ensures
        upper_char(upper_char(c)) == upper_char(c),
        upper_char(lower_char(c)) == upper_char(c),
{
}

} // verus!
