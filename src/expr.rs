//! Lowering of type expressions onto proto3's type vocabulary.
//!
//! Expressions are lowered bottom-up: the element of an array, a dictionary or
//! a nullable arrives as the text it was already lowered to. Narrow integers
//! widen to 32 bits, timestamps travel as RFC 3339 strings, and nullability is
//! dropped, since proto3 has no optional scalar that keeps null apart from
//! absent.

use vstd::prelude::*;
use crate::text::push_char;

verus! {

/// A type expression whose nested parts are already lowered.
#[derive(Clone, Debug)]
pub enum Expr {
    /// Any JSON value at all.
    Empty,
    Boolean,
    Int8,
    Uint8,
    Int16,
    Uint16,
    Int32,
    Uint32,
    Float32,
    Float64,
    String,
    Timestamp,
    ArrayOf(String),
    DictOf(String),
    NullableOf(String),
}

/// A construct that has no proto3 form; it stops the generation of the file.
#[derive(Clone, Debug)]
pub enum Unsupported {
    /// A type expression, by the name of its kind.
    Expression(String),
    /// An item, by its kind and, where it has one, its name.
    Item(String),
}

/// The proto3 text of an expression, or `None` where it has none.
pub open spec fn lowered(e: Expr) -> Option<Seq<char>> {
    match e {
        Expr::Empty => None,
        Expr::Boolean => Some("bool"@),
        Expr::Int8 | Expr::Int16 | Expr::Int32 => Some("int32"@),
        Expr::Uint8 | Expr::Uint16 | Expr::Uint32 => Some("uint32"@),
        Expr::Float32 => Some("float"@),
        Expr::Float64 => Some("double"@),
        Expr::String | Expr::Timestamp => Some("string"@),
        Expr::ArrayOf(t) => Some("repeated "@ + t@),
        Expr::DictOf(t) => Some("map<string, "@ + t@ + ">"@),
        Expr::NullableOf(t) => Some(t@),
    }
}

/// The name by which an unsupported expression is reported.
pub open spec fn unsupported_expression_name(e: Expr) -> Seq<char> {
    match e {
        Expr::Empty => "Empty"@,
        _ => Seq::empty(),
    }
}

/// The error that `lower` gives for an expression without a proto3 form.
pub open spec fn expression_error(e: Expr, err: Unsupported) -> bool {
    match err {
        Unsupported::Expression(k) => k@ == unsupported_expression_name(e),
        _ => false,
    }
}

/// Lowers `e` to its proto3 text, or reports that its kind has none.
pub fn lower(e: Expr) -> (r: Result<String, Unsupported>)
    ensures
        lowered(e) is Some <==> r is Ok,
        r is Ok ==> r->Ok_0@ == lowered(e)->0,
        r is Err ==> expression_error(e, r->Err_0),
{
    match e {
        Expr::Empty => Err(Unsupported::Expression(String::from_str("Empty"))),
        Expr::Boolean => Ok(String::from_str("bool")),
        Expr::Int8 | Expr::Int16 | Expr::Int32 => Ok(String::from_str("int32")),
        Expr::Uint8 | Expr::Uint16 | Expr::Uint32 => Ok(String::from_str("uint32")),
        Expr::Float32 => Ok(String::from_str("float")),
        Expr::Float64 => Ok(String::from_str("double")),
        Expr::String | Expr::Timestamp => Ok(String::from_str("string")),
        Expr::ArrayOf(t) => {
            let mut out = String::from_str("repeated ");
            out.append(t.as_str());
            Ok(out)
        },
        Expr::DictOf(t) => {
            let mut out = String::from_str("map<string, ");
            out.append(t.as_str());
            push_char(&mut out, '>');
            proof {
                reveal_strlit(">");
            }
            assert(out@ =~= "map<string, "@ + t@ + ">"@);
            Ok(out)
        },
        Expr::NullableOf(t) => Ok(t),
    }
}

/// Nullability is dropped: a nullable of an expression lowers to exactly
/// what the expression itself lowers to.
pub proof fn nullable_unwraps(e: Expr, inner: String)
    requires
        lowered(e) == Some(inner@),
    ensures
        lowered(Expr::NullableOf(inner)) == lowered(e),
{
}

/// Integers narrower than 32 bits widen to the 32-bit type of the same
/// signedness.
pub proof fn narrow_integers_widen()
    ensures
        lowered(Expr::Uint8) == lowered(Expr::Uint32),
        lowered(Expr::Uint16) == lowered(Expr::Uint32),
        lowered(Expr::Int8) == lowered(Expr::Int32),
        lowered(Expr::Int16) == lowered(Expr::Int32),
{
}

} // verus!
