//! Random identifiers for servers, clients and world objects.
use vstd::prelude::*;

verus! {

/// Whether `c` is a decimal digit or one of the letters `a` to `f`.
pub open spec fn is_lower_hex(c: char) -> bool {
    ('0' <= c && c <= '9') || ('a' <= c && c <= 'f')
}

/// The shape of a hyphenated lower-case UUID: 36 characters, hyphens after
/// the 8th, 12th, 16th and 20th hexadecimal digit.
pub open spec fn is_hyphenated_uuid(text: Seq<char>) -> bool {
    &&& text.len() == 36
    &&& forall|i: int|
        0 <= i < 36 ==> if i == 8 || i == 13 || i == 18 || i == 23 {
            #[trigger] text[i] == '-'
        } else {
            is_lower_hex(text[i])
        }
}

/// A new random identifier: `uuid::Uuid::new_v4()`, written out by its
/// `Display` impl.
///
/// Trusted: nothing is proved of the outside crate. The contract claims only
/// the shape of the text, which is the same for every UUID; which identifier
/// comes out is left open, and so is whether it was ever issued before.
#[verifier::external_body]
pub(crate) fn random_id() -> (id: String)
    ensures
        is_hyphenated_uuid(id@),
{
    uuid::Uuid::new_v4().to_string()
}

} // verus!
