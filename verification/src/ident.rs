//! Identifiers of actions, feedbacks and instances.

use vstd::prelude::*;

verus! {

/// Whether `c` is a digit or one of the letters `a` to `f`.
pub open spec fn is_lower_hex(c: char) -> bool {
    ('0' <= c <= '9') || ('a' <= c <= 'f')
}

/// Whether position `i` of an identifier holds a hyphen.
pub open spec fn is_hyphen_position(i: int) -> bool {
    i == 8 || i == 13 || i == 18 || i == 23
}

/// The text of a random (version 4) UUID: 36 characters, lower-case
/// hexadecimal digits in groups of 8, 4, 4, 4 and 12 with hyphens between
/// them; the third group starts with the version, 4, and the fourth with the
/// variant, one of `8`, `9`, `a` and `b`.
pub open spec fn is_uuid_text(s: Seq<char>) -> bool {
    &&& s.len() == 36
    &&& forall|i: int|
        0 <= i < 36 ==> if is_hyphen_position(i) {
            #[trigger] s[i] == '-'
        } else {
            is_lower_hex(s[i])
        }
    &&& s[14] == '4'
    &&& (s[19] == '8' || s[19] == '9' || s[19] == 'a' || s[19] == 'b')
}

/// Draws a new identifier: `uuid::Uuid::new_v4`, written out by the `Display`
/// of `Uuid`.
///
/// Trusted: the bits come from the operating system's random source, so the
/// contract states the shape of the text and nothing of its value. `new_v4`
/// sets the version and variant bits as `is_uuid_text` says, and `Display`
/// writes the hyphenated lower-case form. Where the operating system cannot
/// supply random bytes, `new_v4` panics.
#[verifier::external_body]
pub(crate) fn new_id() -> (id: String)
    ensures
        is_uuid_text(id@),
{
    uuid::Uuid::new_v4().to_string()
}

} // verus!
