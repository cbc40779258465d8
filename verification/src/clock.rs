//! Fresh identifiers and the current time.

use vstd::prelude::*;

verus! {

/// Whether `c` is a lowercase hexadecimal digit.
pub open spec fn is_lower_hex(c: char) -> bool {
    ('0' <= c && c <= '9') || ('a' <= c && c <= 'f')
}

/// The text of a hyphenated UUID: 36 characters, `-` at positions 8, 13, 18 and
/// 23, lowercase hexadecimal digits elsewhere.
pub open spec fn is_uuid_text(s: Seq<char>) -> bool {
    &&& s.len() == 36
    &&& forall|i: int|
        0 <= i < 36 ==> if i == 8 || i == 13 || i == 18 || i == 23 {
            #[trigger] s[i] == '-'
        } else {
            is_lower_hex(s[i])
        }
}

/// A random (version 4) UUID as text (`uuid::Uuid::new_v4().to_string()`). Which
/// UUID comes out is chance; its shape is that of any UUID's `Display`.
#[verifier::external_body]
pub(crate) fn new_uuid() -> (id: String)
    ensures
        is_uuid_text(id@),
{
    uuid::Uuid::new_v4().to_string()
}

/// The current time in milliseconds since the Unix epoch
/// (`chrono::Utc::now().timestamp_millis()`). Nothing is promised of its value.
#[verifier::external_body]
pub(crate) fn now_millis() -> (ms: i64) {
    chrono::Utc::now().timestamp_millis()
}

} // verus!
