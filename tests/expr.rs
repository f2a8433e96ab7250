use target_protobuf::doc::Metadata;
use target_protobuf::expr::{lower, Expr, Unsupported};
use target_protobuf::item::FileState;
use target_protobuf::target::Target;

fn ok(e: Expr) -> String {
    match lower(e) {
        Ok(s) => s,
        Err(_) => panic!("expression has no proto3 form"),
    }
}

#[test]
fn scalars_lower_to_keywords() {
    assert_eq!(ok(Expr::String), "string");
    assert_eq!(ok(Expr::Timestamp), "string");
    assert_eq!(ok(Expr::Boolean), "bool");
    assert_eq!(ok(Expr::Float32), "float");
    assert_eq!(ok(Expr::Float64), "double");
    assert_eq!(ok(Expr::Int32), "int32");
    assert_eq!(ok(Expr::Uint32), "uint32");
}

#[test]
fn narrow_integers_widen() {
    assert_eq!(ok(Expr::Uint8), ok(Expr::Uint32));
    assert_eq!(ok(Expr::Uint16), "uint32");
    assert_eq!(ok(Expr::Int8), "int32");
    assert_eq!(ok(Expr::Int16), ok(Expr::Int32));
}

#[test]
fn nullable_is_unwrapped() {
    for e in [Expr::String, Expr::Int8, Expr::Boolean, Expr::Float64] {
        let inner = ok(e.clone());
        assert_eq!(ok(Expr::NullableOf(inner)), ok(e));
    }
    let arr = ok(Expr::ArrayOf("int32".to_string()));
    assert_eq!(ok(Expr::NullableOf(arr.clone())), arr);
}

#[test]
fn containers_wrap_their_element() {
    assert_eq!(ok(Expr::ArrayOf("string".to_string())), "repeated string");
    assert_eq!(ok(Expr::DictOf("int32".to_string())), "map<string, int32>");
    assert_eq!(ok(Expr::DictOf("Foo".to_string())), "map<string, Foo>");
}

#[test]
fn empty_expression_is_unsupported() {
    let r = lower(Expr::Empty);
    assert!(matches!(r, Err(Unsupported::Expression(ref k)) if k == "Empty"));
}

#[test]
fn target_expr_leaves_state_alone() {
    let t = Target::new();
    let mut state = FileState::new();
    let r = t.expr(&mut state, Metadata::empty(), Expr::Uint8);
    assert!(matches!(r, Ok(ref s) if s == "uint32"));
    assert_eq!(state.last_field_number(), 0);
    let r = t.expr(&mut state, Metadata::empty(), Expr::Empty);
    assert!(r.is_err());
    assert_eq!(state.last_field_number(), 0);
}
