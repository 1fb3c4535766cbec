//! Fresh names for session links.

use vstd::prelude::*;

verus! {

/// A digit or one of the letters `a` to `f`.
pub open spec fn is_hex_digit(c: char) -> bool {
    ('0' <= c && c <= '9') || ('a' <= c && c <= 'f')
}

/// The shape of a session identifier: 36 characters in five groups of
/// lower-case hexadecimal digits, with a `-` between the groups after the
/// 8th, 12th, 16th and 20th digit.
pub open spec fn is_session_id(id: Seq<char>) -> bool {
    &&& id.len() == 36
    &&& forall|i: int|
        0 <= i < 36 ==> if i == 8 || i == 13 || i == 18 || i == 23 {
            #[trigger] id[i] == '-'
        } else {
            is_hex_digit(id[i])
        }
}

/// A fresh random identifier.
///
/// Calls `uuid::Uuid::new_v4` and formats the result with its `Display`
/// impl, which writes the hyphenated lower-case form. The contract claims
/// that form of the text and nothing of its value: each call draws anew.
#[verifier::external_body]
pub(crate) fn random_id() -> (id: String)
    ensures
        is_session_id(id@),
{
    uuid::Uuid::new_v4().to_string()
}

} // verus!
