//! Fresh GUIDs.

use vstd::prelude::*;

verus! {

/// Whether `c` is a decimal digit or one of the letters `a` to `f`.
pub open spec fn is_lower_hex(c: char) -> bool {
    ('0' <= c <= '9') || ('a' <= c <= 'f')
}

/// Whether `s` has the shape of a GUID written in lower case: 36
/// characters, hyphens after the 8th, 12th, 16th and 20th hexadecimal
/// digit, hexadecimal digits everywhere else.
pub open spec fn is_guid(s: Seq<char>) -> bool {
    &&& s.len() == 36
    &&& forall|i: int|
        0 <= i < 36 ==> if i == 8 || i == 13 || i == 18 || i == 23 {
            #[trigger] s[i] == '-'
        } else {
            is_lower_hex(s[i])
        }
}

/// `Uuid::new_v4` of the uuid crate, written out by the `Display` of
/// `Uuid`. The value is random; what holds of every outcome is its shape:
/// `Display` writes the 32 hexadecimal digits in lower case, in groups of
/// 8, 4, 4, 4 and 12 with hyphens between them. The call fails by panic
/// where the system cannot supply random bytes.
#[verifier::external_body]
pub(crate) fn new_guid() -> (r: String)
    ensures
        is_guid(r@),
{
    uuid::Uuid::new_v4().to_string()
}

} // verus!
