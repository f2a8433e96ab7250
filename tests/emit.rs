use target_protobuf::doc::{description, doc, enum_variant_description, Metadata};
use target_protobuf::expr::Unsupported;
use target_protobuf::item::{EnumMember, Field, FileState, Item};
use target_protobuf::target::{
    EnumMemberNaming, FilePartitioning, OptionalPropertyHandling, Target,
};

fn field(json_name: &str, type_: &str, doc_text: &str) -> Field {
    let mut metadata = Metadata::empty();
    metadata.description = doc_text.to_string();
    Field {
        name: json_name.to_string(),
        json_name: json_name.to_string(),
        optional: false,
        type_: type_.to_string(),
        metadata,
    }
}

fn member(name: &str) -> EnumMember {
    EnumMember { name: name.to_string(), json_value: name.to_string() }
}

fn structure(name: &str, fields: Vec<Field>) -> Item {
    Item::Struct {
        metadata: Metadata::empty(),
        name: name.to_string(),
        has_additional: false,
        fields,
    }
}

fn emitted(t: &Target, state: &mut FileState, item: Item) -> String {
    match t.item(state, item) {
        Ok(s) => s,
        Err(_) => panic!("item has no proto3 form"),
    }
}

#[test]
fn preamble_opens_wrapper_message() {
    let t = Target::new();
    let mut state = FileState::new();
    let s = emitted(&t, &mut state, Item::Preamble);
    assert_eq!(
        s,
        "// Code generated by jtd-codegen for ProtoBuffers v0.1.0\nsyntax = \"proto3\";\n\nmessage RootMessage {\n"
    );
    assert_eq!(emitted(&t, &mut state, Item::Postamble), "}\n");
    assert_eq!(emitted(&t, &mut state, Item::Auxiliary), "");
    assert_eq!(state.last_field_number(), 0);
}

#[test]
fn root_struct_scenario() {
    let t = Target::new();
    let mut state = FileState::new();
    let item = structure("Root", vec![field("name", "string", ""), field("age", "int32", "")]);
    let s = emitted(&t, &mut state, item);
    assert_eq!(
        s,
        "\n\tmessage Root {\n\t\tstring name = 1;\n\t\tint32 age = 2;\n\t}\n\tRoot root = 1;\n"
    );
    assert_eq!(state.last_field_number(), 1);
}

#[test]
fn field_tags_follow_declaration_order() {
    let t = Target::new();
    let mut state = FileState::new();
    let item = structure(
        "Point",
        vec![field("zeta", "double", ""), field("alpha", "double", ""), field("mid", "bool", "")],
    );
    let s = emitted(&t, &mut state, item);
    assert_eq!(
        s,
        "\n\tmessage Point {\n\t\tdouble zeta = 1;\n\t\tdouble alpha = 2;\n\t\tbool mid = 3;\n\t}\n"
    );
    assert_eq!(state.last_field_number(), 0);
}

#[test]
fn documented_fields_are_separated() {
    let t = Target::new();
    let mut state = FileState::new();
    let item = structure("Doc", vec![field("a", "string", "first"), field("b", "string", "second")]);
    let s = emitted(&t, &mut state, item);
    assert_eq!(
        s,
        "\n\tmessage Doc {\n\t  /**\n   * first\n   */\n\tstring a = 1;\n\n\t  /**\n   * second\n   */\n\tstring b = 2;\n\t}\n"
    );
}

#[test]
fn enum_scenario() {
    let t = Target::new();
    let mut state = FileState::new();
    let item = Item::Enum {
        metadata: Metadata::empty(),
        name: "Status".to_string(),
        members: vec![member("ACTIVE"), member("INACTIVE")],
    };
    let s = emitted(&t, &mut state, item);
    assert_eq!(s, "\n\tenum Status {\n\t\tACTIVE = 0;\n\t\tINACTIVE = 1;\n\t}\n");
    assert_eq!(state.last_field_number(), 0);
}

#[test]
fn enum_member_documented_by_value() {
    let t = Target::new();
    let mut state = FileState::new();
    let mut metadata = Metadata::empty();
    metadata.enum_descriptions.push(("INACTIVE".to_string(), "No longer used".to_string()));
    let item = Item::Enum {
        metadata,
        name: "Status".to_string(),
        members: vec![member("ACTIVE"), member("INACTIVE")],
    };
    let s = emitted(&t, &mut state, item);
    assert_eq!(
        s,
        "\n\tenum Status {\n\t\tACTIVE = 0;\n\n\t    /**\n     * No longer used\n     */\n\tINACTIVE = 1;\n\t}\n"
    );
}

#[test]
fn root_enum_adds_wrapper_field() {
    let t = Target::new();
    let mut state = FileState::new();
    let item = Item::Enum {
        metadata: Metadata::empty(),
        name: "Root".to_string(),
        members: vec![member("A")],
    };
    let s = emitted(&t, &mut state, item);
    assert_eq!(s, "\n\tenum Root {\n\t\tA = 0;\n\t}\n\tRoot root = 1;\n");
    assert_eq!(state.last_field_number(), 1);
}

#[test]
fn root_alias_scenario() {
    let t = Target::new();
    let mut state = FileState::new();
    let item = Item::Alias {
        metadata: Metadata::empty(),
        name: "Root".to_string(),
        type_: "string".to_string(),
    };
    assert_eq!(emitted(&t, &mut state, item), "\tstring root = 1;\n");
    assert_eq!(state.last_field_number(), 1);
}

#[test]
fn other_alias_is_unsupported() {
    let t = Target::new();
    let mut state = FileState::new();
    let item = Item::Alias {
        metadata: Metadata::empty(),
        name: "Other".to_string(),
        type_: "string".to_string(),
    };
    let r = t.item(&mut state, item);
    assert!(matches!(r, Err(Unsupported::Item(ref k)) if k == "Alias Other"));
    assert_eq!(state.last_field_number(), 0);
}

#[test]
fn discriminators_are_unsupported() {
    let t = Target::new();
    let mut state = FileState::new();
    let r = t.item(
        &mut state,
        Item::Discriminator { metadata: Metadata::empty(), name: "Shape".to_string() },
    );
    assert!(matches!(r, Err(Unsupported::Item(ref k)) if k == "Discriminator Shape"));
    let r = t.item(
        &mut state,
        Item::DiscriminatorVariant { metadata: Metadata::empty(), name: "ShapeCircle".to_string() },
    );
    assert!(matches!(r, Err(Unsupported::Item(ref k)) if k == "DiscriminatorVariant ShapeCircle"));
}

#[test]
fn root_counter_only_grows() {
    let t = Target::new();
    let mut state = FileState::default();
    assert_eq!(state.last_field_number(), 0);
    emitted(&t, &mut state, Item::Preamble);
    assert_eq!(state.last_field_number(), 0);
    emitted(&t, &mut state, structure("Other", vec![]));
    assert_eq!(state.last_field_number(), 0);
    let s = emitted(&t, &mut state, structure("Root", vec![]));
    assert_eq!(s, "\n\tmessage Root {\n\t}\n\tRoot root = 1;\n");
    assert_eq!(state.last_field_number(), 1);
    let s = emitted(&t, &mut state, structure("Root", vec![]));
    assert!(s.ends_with("\tRoot root = 2;\n"));
    assert_eq!(state.last_field_number(), 2);
    emitted(&t, &mut state, Item::Postamble);
    assert_eq!(state.last_field_number(), 2);
}

#[test]
fn many_fields_get_multi_digit_tags() {
    let t = Target::new();
    let mut state = FileState::new();
    let fields: Vec<Field> = (0..12).map(|i| field(&format!("f{}", i), "bool", "")).collect();
    let s = emitted(&t, &mut state, structure("Wide", fields));
    assert!(s.contains("\tbool f9 = 10;\n"));
    assert!(s.ends_with("\tbool f11 = 12;\n\t}\n"));
}

#[test]
fn doc_blocks() {
    assert_eq!(doc(1, ""), "");
    assert_eq!(doc(0, "x"), "/**\n * x\n */\n");
    assert_eq!(doc(1, "a\nb"), "  /**\n   * a\n   * b\n   */\n");
    let mut metadata = Metadata::empty();
    assert_eq!(description(&metadata, 1), "");
    metadata.description = "hello".to_string();
    assert_eq!(description(&metadata, 1), "  /**\n   * hello\n   */\n");
    metadata.enum_descriptions.push(("A".to_string(), "first".to_string()));
    assert_eq!(enum_variant_description(&metadata, 2, "A"), "    /**\n     * first\n     */\n");
    assert_eq!(enum_variant_description(&metadata, 2, "B"), "");
}

#[test]
fn strategy_is_single_file_and_non_nullable() {
    let s = Target::new().strategy();
    assert!(matches!(s.file_partitioning, FilePartitioning::SingleFile(ref f) if f == "index.proto"));
    assert!(s.enum_member_naming == EnumMemberNaming::Modularized);
    assert!(s.optional_property_handling == OptionalPropertyHandling::NativeSupport);
    assert!(!s.booleans_are_nullable && !s.strings_are_nullable && !s.int8s_are_nullable);
    assert!(!s.structs_are_nullable && !s.discriminators_are_nullable && !s.timestamps_are_nullable);
}
