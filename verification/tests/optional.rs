use fast_struct::model::{AttributeDescriptor, FieldDescriptor, MacroError, Shape, StructDescriptor};
use fast_struct::optional::{
    exempt, generate_optional, optional_for, optional_impl, own_attribute, parse_field,
    pass_attributes, transform, transform_fields, transform_named_field,
    transform_positional_field, wrap_type,
};
use proc_macro2::TokenStream;
use std::str::FromStr;

// What the optional transform emits for `struct Foo { bar: String, baz: usize }`, compiled.
struct Foo {
    bar: Option<String>,
    baz: Option<usize>,
}

fn tokens(text: &str) -> String {
    TokenStream::from_str(text).unwrap().to_string()
}

fn attribute(text: &str, path: Option<&str>, argument: Option<&str>) -> AttributeDescriptor {
    AttributeDescriptor {
        text: text.to_string(),
        path: path.map(|p| p.to_string()),
        argument: argument.map(|a| a.to_string()),
    }
}

fn field(name: &str, ty: &str, visibility: &str, attributes: Vec<AttributeDescriptor>) -> FieldDescriptor {
    FieldDescriptor {
        name: name.to_string(),
        ty: ty.to_string(),
        visibility: visibility.to_string(),
        attributes,
    }
}

fn marker() -> AttributeDescriptor {
    attribute("# [optional (except)]", Some("optional"), Some("except"))
}

#[test]
fn optional_test() {
    assert_eq!(
        optional_impl("", "#[optional] struct Foo { bar: String, baz: usize }"),
        Ok("struct Foo {\n    bar: Option<String>,\n    baz: Option<usize>\n}\n".to_string())
    );

    let foo = Foo {
        bar: Some("Hello, world!".to_string()),
        baz: Some(1984),
    };

    assert_eq!(Some("Hello, world!".to_string()), foo.bar);
    assert_eq!(Some(1984), foo.baz);
}

#[test]
fn non_exempt_fields_accept_the_empty_value() {
    let foo = Foo {
        bar: None,
        baz: None,
    };
    assert_eq!(foo.bar, None);
    assert_eq!(foo.baz, None);
}

#[test]
fn optional_keeps_visibility_and_other_attributes() {
    let text = optional_impl(
        "",
        "#[derive(Debug)] #[optional] #[allow(dead_code)] pub struct Foo { pub bar: u8, pub(crate) baz: Vec<u8> }",
    )
    .unwrap();
    assert_eq!(
        text,
        "# [derive (Debug)]\n# [allow (dead_code)]\npub struct Foo {\n    pub bar: Option<u8>,\n    pub (crate) baz: Option<Vec < u8 >>\n}\n"
    );
    assert_eq!(
        tokens(&text),
        tokens("#[derive(Debug)] #[allow(dead_code)] pub struct Foo { pub bar: Option<u8>, pub(crate) baz: Option<Vec<u8>> }")
    );
}

#[test]
fn optional_wraps_every_positional_field() {
    assert_eq!(
        optional_impl("", "pub struct Pair(pub u8, #[optional(except)] String);"),
        Ok("pub struct Pair(Option<u8>, Option<String>);\n".to_string())
    );
    assert_eq!(optional_impl("", "struct Nothing();"), Ok("struct Nothing();\n".to_string()));
}

#[test]
fn optional_of_a_structure_without_fields() {
    assert_eq!(optional_impl("", "struct Empty {}"), Ok("struct Empty {\n\n}\n".to_string()));
}

#[test]
fn optional_ignores_the_arguments_of_the_invocation() {
    let item = "struct Foo { bar: u8 }";
    assert_eq!(optional_impl("anything, at = all", item), optional_impl("", item));
}

#[test]
fn optional_refuses_a_unit_structure() {
    assert_eq!(optional_impl("", "struct Unit;"), Err(MacroError::UnsupportedShape));
}

#[test]
fn optional_refuses_an_enumeration_and_a_union() {
    assert_eq!(optional_impl("", "enum Foo { A }"), Err(MacroError::UnsupportedShape));
    assert_eq!(optional_impl("", "union Foo { a: u8 }"), Err(MacroError::UnsupportedShape));
}

#[test]
fn optional_reports_a_syntax_error() {
    assert_eq!(
        optional_impl("", "fn main() {}"),
        Err(MacroError::Syntax("expected one of: `struct`, `enum`, `union`".to_string()))
    );
}

#[test]
fn optional_of_a_parsed_declaration() {
    let input = syn::parse_str::<syn::DeriveInput>(
        "#[optional] pub struct Foo { #[optional(except)] bar: bool, baz: usize }",
    )
    .unwrap();
    assert_eq!(
        optional_for(&input),
        Ok("pub struct Foo {\n    bar: bool,\n    baz: Option<usize>\n}\n".to_string())
    );
    let unit = syn::parse_str::<syn::DeriveInput>("struct Unit;").unwrap();
    assert_eq!(optional_for(&unit), Err(MacroError::UnsupportedShape));
}

#[test]
fn marker_under_a_longer_path_does_not_exempt() {
    assert_eq!(
        optional_impl("", "struct Foo { #[a::optional(except)] bar: bool }"),
        Ok("struct Foo {\n    bar: Option<bool>\n}\n".to_string())
    );
}

#[test]
fn exempt_marker_is_found_among_other_attributes() {
    let doc = attribute("# [doc = \" x\"]", Some("doc"), None);
    assert!(exempt(&field("a", "u8", "", vec![marker()])));
    assert!(exempt(&field("a", "u8", "", vec![doc.clone(), marker()])));
    assert!(exempt(&field("a", "u8", "", vec![marker(), doc.clone()])));
    assert!(!exempt(&field("a", "u8", "", vec![doc])));
    assert!(!exempt(&field("a", "u8", "", Vec::new())));
}

#[test]
fn exempt_marker_needs_path_and_argument() {
    let bare = attribute("# [optional]", Some("optional"), None);
    let other_argument = attribute("# [optional (keep)]", Some("optional"), Some("keep"));
    let other_path = attribute("# [except]", Some("except"), None);
    let other_owner = attribute("# [serde (except)]", Some("serde"), Some("except"));
    let long_path = attribute("# [a :: optional (except)]", None, Some("except"));
    for candidate in [bare, other_argument, other_path, other_owner, long_path] {
        assert!(!exempt(&field("a", "u8", "", vec![candidate])));
    }
}

#[test]
fn own_attribute_goes_by_the_path() {
    assert!(own_attribute(&marker()));
    assert!(own_attribute(&attribute("# [optional]", Some("optional"), None)));
    assert!(!own_attribute(&attribute("# [derive (Debug)]", Some("derive"), None)));
    assert!(!own_attribute(&attribute("# [a :: optional]", None, None)));
}

#[test]
fn wrapped_type_is_the_optional_of_the_type() {
    assert_eq!(wrap_type("usize"), "Option<usize>");
    assert_eq!(wrap_type("Vec < u8 >"), "Option<Vec < u8 >>");
    assert_eq!(wrap_type(""), "Option<>");
}

#[test]
fn named_field_is_wrapped_unless_exempt() {
    let plain = field("baz", "usize", "pub", vec![attribute("# [doc = \" x\"]", Some("doc"), None)]);
    assert_eq!(transform_named_field(&plain), field("baz", "Option<usize>", "pub", Vec::new()));
    let kept = field("bar", "bool", "pub", vec![marker()]);
    assert_eq!(transform_named_field(&kept), field("bar", "bool", "pub", Vec::new()));
    assert_eq!(parse_field(&plain), "    pub baz: Option<usize>");
    assert_eq!(parse_field(&kept), "    pub bar: bool");
}

#[test]
fn positional_field_is_always_wrapped() {
    let marked = field("", "bool", "pub", vec![marker()]);
    assert_eq!(transform_positional_field(&marked), field("", "Option<bool>", "", Vec::new()));
}

#[test]
fn transform_keeps_count_and_order_of_fields() {
    let fields = vec![
        field("a", "u8", "", Vec::new()),
        field("b", "u16", "", vec![marker()]),
        field("c", "u32", "", Vec::new()),
    ];
    let named = transform_fields(Shape::NamedFields, &fields);
    assert_eq!(
        named,
        vec![
            field("a", "Option<u8>", "", Vec::new()),
            field("b", "u16", "", Vec::new()),
            field("c", "Option<u32>", "", Vec::new()),
        ]
    );
    let positional = transform_fields(Shape::PositionalFields, &fields);
    assert_eq!(positional.len(), 3);
    assert_eq!(positional[1].ty, "Option<u16>");
}

#[test]
fn only_own_attributes_are_dropped() {
    let derive = attribute("# [derive (Debug)]", Some("derive"), None);
    let own = attribute("# [optional]", Some("optional"), None);
    let long = attribute("# [a :: b]", None, None);
    assert_eq!(
        pass_attributes(&vec![derive.clone(), own.clone(), long.clone(), marker()]),
        vec![derive, long]
    );
    assert_eq!(pass_attributes(&vec![own]), Vec::new());
    assert_eq!(pass_attributes(&Vec::new()), Vec::new());
}

#[test]
fn transform_of_a_descriptor() {
    let descriptor = StructDescriptor {
        name: "Foo".to_string(),
        visibility: "pub".to_string(),
        attributes: vec![attribute("# [optional]", Some("optional"), None)],
        shape: Shape::NamedFields,
        fields: vec![field("bar", "bool", "", vec![marker()]), field("baz", "usize", "", Vec::new())],
    };
    let expected = StructDescriptor {
        name: "Foo".to_string(),
        visibility: "pub".to_string(),
        attributes: Vec::new(),
        shape: Shape::NamedFields,
        fields: vec![field("bar", "bool", "", Vec::new()), field("baz", "Option<usize>", "", Vec::new())],
    };
    assert_eq!(transform(&descriptor), Ok(expected));
    assert_eq!(
        generate_optional(&descriptor),
        Ok("pub struct Foo {\n    bar: bool,\n    baz: Option<usize>\n}\n".to_string())
    );
    let mut unit = descriptor;
    unit.shape = Shape::Unsupported;
    assert_eq!(transform(&unit), Err(MacroError::UnsupportedShape));
    assert_eq!(generate_optional(&unit), Err(MacroError::UnsupportedShape));
}
