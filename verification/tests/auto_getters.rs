use fast_struct::assembly::Record;
use fast_struct::auto_getters::{
    auto_getters_for, auto_getters_impl, generate_getters, getter_method, getter_methods,
};
use fast_struct::model::{FieldDescriptor, MacroError, Shape, StructDescriptor};
use fast_struct::syntax::parse_struct;
use proc_macro2::TokenStream;
use std::str::FromStr;

struct Foo {
    bar: String,
    baz: i16,
}

// What accessor derivation emits for `Foo`, compiled.
impl Foo {
    pub fn bar(&self) -> &String {
        &self.bar
    }
    pub fn baz(&self) -> &i16 {
        &self.baz
    }
}

fn foo_source() -> &'static str {
    "struct Foo { bar: String, baz: i16 }"
}

fn foo_getters() -> &'static str {
    "impl Foo {\n    pub fn bar(&self) -> &String {\n        &self.bar\n    }\n    pub fn baz(&self) -> &i16 {\n        &self.baz\n    }\n}\n"
}

fn tokens(text: &str) -> String {
    TokenStream::from_str(text).unwrap().to_string()
}

fn field(name: &str, ty: &str, visibility: &str) -> FieldDescriptor {
    FieldDescriptor {
        name: name.to_string(),
        ty: ty.to_string(),
        visibility: visibility.to_string(),
        attributes: Vec::new(),
    }
}

fn foo_descriptor() -> StructDescriptor {
    StructDescriptor {
        name: "Foo".to_string(),
        visibility: String::new(),
        attributes: Vec::new(),
        shape: Shape::NamedFields,
        fields: vec![field("bar", "String", ""), field("baz", "i16", "")],
    }
}

#[test]
fn auto_getters_test() {
    assert_eq!(auto_getters_impl(foo_source()), Ok(foo_getters().to_string()));

    let foo = Foo {
        bar: "Hello, world!".into(),
        baz: 1984,
    };

    assert_eq!("Hello, world!", foo.bar());
    assert_eq!(1984_i16, *foo.baz());
}

#[test]
fn getters_from_descriptor() {
    assert_eq!(parse_struct(foo_source()), Ok(foo_descriptor()));
    assert_eq!(generate_getters(&foo_descriptor()), Ok(foo_getters().to_string()));
}

#[test]
fn getters_match_the_hand_written_tokens() {
    let expected = "impl Foo { pub fn bar (& self) -> & String { & self . bar } pub fn baz (& self) -> & i16 { & self . baz } }";
    assert_eq!(tokens(&auto_getters_impl(foo_source()).unwrap()), tokens(expected));
}

#[test]
fn getters_parse_as_an_impl_block() {
    let text = auto_getters_impl("pub struct Pair { pub left: Vec<u8>, right: Option<&'static str> }").unwrap();
    let parsed = syn::parse_str::<syn::ItemImpl>(&text).unwrap();
    assert_eq!(parsed.items.len(), 2);
}

#[test]
fn one_getter_per_field_in_declaration_order() {
    let fields = vec![field("a", "u8", ""), field("b", "Vec < u8 >", "pub"), field("c", "bool", "")];
    let methods = getter_methods(&fields);
    assert_eq!(methods.len(), 3);
    assert_eq!(methods[0], "    pub fn a(&self) -> &u8 {\n        &self.a\n    }");
    assert_eq!(methods[1], "    pub fn b(&self) -> &Vec < u8 > {\n        &self.b\n    }");
    assert_eq!(methods[2], getter_method(&fields[2]));
    assert_eq!(getter_methods(&Vec::new()), Vec::<String>::new());
}

#[test]
fn getters_of_a_structure_without_fields() {
    assert_eq!(auto_getters_impl("struct Empty {}"), Ok("impl Empty {\n\n}\n".to_string()));
}

#[test]
fn getters_are_the_same_on_every_run() {
    let first = auto_getters_impl(foo_source());
    let second = auto_getters_impl(foo_source());
    assert_eq!(first, second);
}

#[test]
fn getters_refuse_positional_fields() {
    assert_eq!(auto_getters_impl("struct Pair(u8, u8);"), Err(MacroError::UnsupportedShape));
}

#[test]
fn getters_refuse_a_unit_structure() {
    assert_eq!(auto_getters_impl("struct Unit;"), Err(MacroError::UnsupportedShape));
    let mut descriptor = foo_descriptor();
    descriptor.shape = Shape::Unsupported;
    assert_eq!(generate_getters(&descriptor), Err(MacroError::UnsupportedShape));
}

#[test]
fn getters_refuse_an_enumeration_and_a_union() {
    assert_eq!(auto_getters_impl("enum Foo { A }"), Err(MacroError::UnsupportedShape));
    assert_eq!(auto_getters_impl("union Foo { a: u8 }"), Err(MacroError::UnsupportedShape));
}

#[test]
fn getters_report_a_syntax_error() {
    assert_eq!(
        auto_getters_impl("fn main() {}"),
        Err(MacroError::Syntax("expected one of: `struct`, `enum`, `union`".to_string()))
    );
}

#[test]
fn getters_of_a_parsed_declaration() {
    let input = syn::parse_str::<syn::DeriveInput>(foo_source()).unwrap();
    assert_eq!(auto_getters_for(&input), Ok(foo_getters().to_string()));
    let pair = syn::parse_str::<syn::DeriveInput>("struct Pair(u8, u8);").unwrap();
    assert_eq!(auto_getters_for(&pair), Err(MacroError::UnsupportedShape));
}

#[test]
fn record_accessors_return_the_stored_values() {
    let record = Record::new(&foo_descriptor(), vec!["Hello, world!", "1984"]).unwrap();
    assert_eq!(record.get("bar"), Some(&"Hello, world!"));
    assert_eq!(record.get("baz"), Some(&"1984"));
    assert_eq!(record.get("bar"), record.get("bar"));
    assert_eq!(record.get("qux"), None);
}

#[test]
fn record_needs_one_value_per_named_field() {
    assert!(Record::new(&foo_descriptor(), vec![1u8]).is_none());
    assert!(Record::new(&foo_descriptor(), vec![1u8, 2, 3]).is_none());
    let mut positional = foo_descriptor();
    positional.shape = Shape::PositionalFields;
    assert!(Record::new(&positional, vec![1u8, 2]).is_none());
}
