//! Fresh story ids.

use vstd::prelude::*;

verus! {

/// A hexadecimal digit in lower case.
pub open spec fn is_lower_hex(c: char) -> bool {
    ('0' <= c && c <= '9') || ('a' <= c && c <= 'f')
}

/// The hyphenated form of a UUID: 36 characters, dashes at the places 8, 13,
/// 18 and 23, lower-case hexadecimal digits elsewhere.
pub open spec fn is_hyphenated_uuid(s: Seq<char>) -> bool {
    &&& s.len() == 36
    &&& forall|i: int|
        0 <= i < 36 ==> if i == 8 || i == 13 || i == 18 || i == 23 {
            #[trigger] s[i] == '-'
        } else {
            is_lower_hex(s[i])
        }
}

/// `Uuid::new_v4()` in its `Display` form, which is the lower-case
/// hyphenated one. Which UUID comes out is left to chance. `Uuid::new_v4()`
/// panics where the system hands out no random bytes.
#[verifier::external_body]
pub(crate) fn new_story_id() -> (r: String)
    ensures
        is_hyphenated_uuid(r@),
{
    uuid::Uuid::new_v4().to_string()
}

} // verus!
