//! JSON payloads and decimal amounts that entities carry through unchanged.

use vstd::prelude::*;

verus! {

/// `serde_json::Value`, carried as an opaque payload.
#[verifier::external_type_specification]
#[verifier::external_body]
pub struct ExJsonValue(serde_json::Value);

/// `rust_decimal::Decimal`, carried as an opaque amount.
#[verifier::external_type_specification]
#[verifier::external_body]
pub struct ExDecimal(rust_decimal::Decimal);

/// Calls `serde_json::Map::new` and wraps the map as a JSON value: an empty
/// JSON object. Nothing is claimed of it beyond its type, as JSON values are
/// opaque here.
#[verifier::external_body]
pub(crate) fn empty_json_object() -> (r: serde_json::Value) {
    serde_json::Value::Object(serde_json::Map::new())
}

/// `Clone` of `serde_json::Value`, which is derived: the copy is the same value.
pub assume_specification[ <serde_json::Value as Clone>::clone ](v: &serde_json::Value) -> (r: serde_json::Value)
    ensures
        r == *v,
;

/// `Clone` of `rust_decimal::Decimal`, which is `Copy`: the copy is the same value.
pub assume_specification[ <rust_decimal::Decimal as Clone>::clone ](v: &rust_decimal::Decimal) -> (r: rust_decimal::Decimal)
    ensures
        r == *v,
;

} // verus!
