//! JSON values carried through the library unread.

use vstd::prelude::*;

verus! {

/// `serde_json::Value`, carried as it is: the library never looks inside.
#[verifier::external_type_specification]
#[verifier::external_body]
pub struct ExJsonValue(serde_json::Value);

/// `Value::clone` gives an equal value.
pub assume_specification[ <serde_json::Value as Clone>::clone ](v: &serde_json::Value) -> (r:
    serde_json::Value)
    ensures
        r == *v,
;

} // verus!
