//! Records of a schema whose nested type names collide: the property `bar`
//! of `foo` and the property `foo_bar` of the root both combine to the type
//! name `RootFooBar`. The driver keeps the first and numbers the second.

use vstd::prelude::*;

verus! {

/// The type of `foo.bar`.
pub struct RootFooBar {
    pub x: bool,
}

/// The type of `foo`.
pub struct RootFoo {
    pub bar: RootFooBar,
}

/// The type of `foo_bar`, renamed because its combined name was taken.
pub struct RootFooBar0 {
    pub x: String,
}

/// The root of the schema.
#[allow(non_snake_case)]
pub struct Root {
    pub foo: RootFoo,
    pub fooBar: RootFooBar0,
}

} // verus!
