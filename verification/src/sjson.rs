//! Declaration of the external parser's generic tree type, so that it can
//! stand in signatures. The type stays opaque: the library reads it only
//! through the trusted conversion in `parse`.

use vstd::prelude::*;

verus! {

#[verifier::external_type_specification]
#[verifier::external_body]
pub struct ExSerdeValue(serde_json::Value);

#[verifier::external_type_specification]
#[verifier::external_body]
pub struct ExSerdeNumber(serde_json::Number);

} // verus!
