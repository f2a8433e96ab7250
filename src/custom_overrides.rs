//! Records of a schema whose properties carry type overrides in their
//! metadata. Where a property's type is overridden, its record holds the
//! value as arbitrary JSON.

use vstd::prelude::*;
use std::collections::HashMap;

verus! {

/// Declares `serde_json::Value`, a JSON value of any shape, so that records
/// can hold one; the library never looks inside it.
#[verifier::external_type_specification]
#[verifier::external_body]
pub struct ExValue(serde_json::Value);

/// The variant `baz` of the overridden discriminator.
pub struct RootOverrideTypeDiscriminatorBaz {}

/// The root of the schema.
#[allow(non_snake_case)]
pub struct Root {
    pub overrideElementsContainer: Vec<String>,
    pub overrideTypeDiscriminator: serde_json::Value,
    pub overrideTypeEnum: serde_json::Value,
    pub overrideTypeExpr: serde_json::Value,
    pub overrideTypeProperties: serde_json::Value,
    pub overrideValuesContainer: HashMap<String, String>,
}

} // verus!
