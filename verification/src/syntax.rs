//! Field extraction: from a parsed declaration to the descriptor model. The
//! declaration is parsed and read through `syn`; everything stated about `syn`
//! here is taken on trust, everything built on it is proved.

use crate::model::{
    AttributeDescriptor, AttributeView, FieldDescriptor, FieldView, MacroError, Shape,
    StructDescriptor, StructView,
};
use quote::ToTokens;
use vstd::prelude::*;

verus! {

/// Makes `syn::DeriveInput` known as an opaque type: a parsed declaration of a
/// structure, an enumeration or a union. Nothing is claimed of what a value
/// holds.
#[verifier::external_type_specification]
#[verifier::external_body]
pub struct ExDeriveInput(syn::DeriveInput);

/// Makes `syn::Fields` known as an opaque type: the fields of a parsed
/// structure. Nothing is claimed of what a value holds.
#[verifier::external_type_specification]
#[verifier::external_body]
pub struct ExFields(syn::Fields);

/// Makes `syn::Field` known as an opaque type: one field of a parsed
/// declaration. Nothing is claimed of what a value holds.
#[verifier::external_type_specification]
#[verifier::external_body]
pub struct ExField(syn::Field);

/// Makes `syn::Attribute` known as an opaque type: one attribute of a parsed
/// declaration or field. Nothing is claimed of what a value holds.
#[verifier::external_type_specification]
#[verifier::external_body]
pub struct ExAttribute(syn::Attribute);

/// Makes `syn::Error` known as an opaque type: the error of a failed parse.
/// Nothing is claimed of what a value holds.
#[verifier::external_type_specification]
#[verifier::external_body]
pub struct ExError(syn::Error);

/// The identifier of a declaration, as text.
pub uninterp spec fn declared_name(input: syn::DeriveInput) -> Seq<char>;

/// The visibility of a declaration, as a token text.
pub uninterp spec fn declared_visibility(input: syn::DeriveInput) -> Seq<char>;

/// The attributes of a declaration, in the order written.
pub uninterp spec fn declared_attributes(input: syn::DeriveInput) -> Seq<syn::Attribute>;

/// The fields that a declaration holds as a structure; none where it declares
/// an enumeration or a union.
pub uninterp spec fn declared_body(input: syn::DeriveInput) -> Option<syn::Fields>;

/// The shape of the fields of a structure: named, positional, or unsupported
/// where the structure is a unit.
pub uninterp spec fn body_shape(body: syn::Fields) -> Shape;

/// The fields of a structure, in declaration order.
pub uninterp spec fn body_fields(body: syn::Fields) -> Seq<syn::Field>;

/// The identifier of a field as text, where it has one.
pub uninterp spec fn field_ident(field: syn::Field) -> Option<Seq<char>>;

/// The type of a field, as a token text.
pub uninterp spec fn field_type(field: syn::Field) -> Seq<char>;

/// The visibility of a field, as a token text.
pub uninterp spec fn field_visibility(field: syn::Field) -> Seq<char>;

/// The attributes of a field, in the order written.
pub uninterp spec fn field_attributes(field: syn::Field) -> Seq<syn::Attribute>;

/// An attribute as a token text.
pub uninterp spec fn attribute_tokens(attribute: syn::Attribute) -> Seq<char>;

/// The identifier that an attribute's path consists of, where it is a single
/// identifier.
pub uninterp spec fn attribute_path(attribute: syn::Attribute) -> Option<Seq<char>>;

/// The identifier that an attribute's arguments consist of, where the
/// attribute has a delimited list of arguments that parses as exactly one
/// identifier.
pub uninterp spec fn attribute_argument(attribute: syn::Attribute) -> Option<Seq<char>>;

/// What parsing a text as a declaration gives: the model of the declaration,
/// or nothing where the text is none. `hosted` tells which lexer reads the
/// text and prints the tokens: the compiler's, inside the expansion of a macro,
/// or `proc_macro2`'s own.
pub uninterp spec fn parsed_declaration(text: Seq<char>, hosted: bool) -> Option<StructView>;

/// The model of one attribute. Its argument is looked at only where its path
/// is a single identifier.
pub open spec fn attribute_model(attribute: syn::Attribute) -> AttributeView {
    AttributeView {
        text: attribute_tokens(attribute),
        path: attribute_path(attribute),
        argument: if attribute_path(attribute) is Some {
            attribute_argument(attribute)
        } else {
            None
        },
    }
}

/// The models of a list of attributes, in order.
pub open spec fn attribute_models(attributes: Seq<syn::Attribute>) -> Seq<AttributeView> {
    attributes.map_values(|a: syn::Attribute| attribute_model(a))
}

/// The name a field goes by: its identifier, or the empty text where it has
/// none.
pub open spec fn field_name(field: syn::Field) -> Seq<char> {
    match field_ident(field) {
        Some(name) => name,
        None => Seq::empty(),
    }
}

/// The model of one field.
pub open spec fn field_model(field: syn::Field) -> FieldView {
    FieldView {
        name: field_name(field),
        ty: field_type(field),
        visibility: field_visibility(field),
        attributes: attribute_models(field_attributes(field)),
    }
}

/// The models of a list of fields, in order.
pub open spec fn field_models(fields: Seq<syn::Field>) -> Seq<FieldView> {
    fields.map_values(|f: syn::Field| field_model(f))
}

/// The shape of a declaration: that of its fields where it declares a
/// structure, unsupported where it declares an enumeration or a union.
pub open spec fn declared_shape(input: syn::DeriveInput) -> Shape {
    match declared_body(input) {
        Some(body) => body_shape(body),
        None => Shape::Unsupported,
    }
}

/// The fields of a declaration, in declaration order: those of the structure
/// it declares, and none where it declares an enumeration or a union.
pub open spec fn declared_fields(input: syn::DeriveInput) -> Seq<FieldView> {
    match declared_body(input) {
        Some(body) => field_models(body_fields(body)),
        None => Seq::empty(),
    }
}

/// The model of a declaration.
pub open spec fn struct_model(input: syn::DeriveInput) -> StructView {
    StructView {
        name: declared_name(input),
        visibility: declared_visibility(input),
        attributes: attribute_models(declared_attributes(input)),
        shape: declared_shape(input),
        fields: declared_fields(input),
    }
}

/// Calls `syn::parse_str::<syn::DeriveInput>`. The call reads nothing but the
/// text, and lexes it with one of two lexers: the compiler's, where the
/// process is a compiler that expands a macro, and `proc_macro2`'s own
/// elsewhere. The contract names the outcome as a function of the text and of
/// which of the two was in force, and does not say which was: on success the
/// outcome is the model of the declaration that came back, on failure there
/// is none.
#[verifier::external_body]
fn parse_input(text: &str) -> (r: Result<syn::DeriveInput, syn::Error>)
    ensures
        exists|hosted: bool|
            match r {
                Ok(input) => #[trigger] parsed_declaration(text@, hosted) == Some(
                    struct_model(input),
                ),
                Err(_) => parsed_declaration(text@, hosted) is None,
            },
{
    syn::parse_str::<syn::DeriveInput>(text)
}

/// Formats a `syn::Error` through its `Display` impl, which writes the message
/// of the first error it holds. Nothing is claimed of the message.
#[verifier::external_body]
fn error_text(error: &syn::Error) -> (r: String) {
    error.to_string()
}

/// Formats the `ident` of a `syn::DeriveInput`.
#[verifier::external_body]
fn input_name(input: &syn::DeriveInput) -> (r: String)
    ensures
        r@ == declared_name(*input),
{
    input.ident.to_string()
}

/// Prints the `vis` of a `syn::DeriveInput` as tokens.
#[verifier::external_body]
fn input_visibility(input: &syn::DeriveInput) -> (r: String)
    ensures
        r@ == declared_visibility(*input),
{
    input.vis.to_token_stream().to_string()
}

/// The length of the `attrs` of a `syn::DeriveInput`.
#[verifier::external_body]
fn input_attribute_count(input: &syn::DeriveInput) -> (r: usize)
    ensures
        r == declared_attributes(*input).len(),
{
    input.attrs.len()
}

/// Indexes the `attrs` of a `syn::DeriveInput`.
#[verifier::external_body]
fn input_attribute(input: &syn::DeriveInput, index: usize) -> (r: &syn::Attribute)
    requires
        index < declared_attributes(*input).len(),
    ensures
        *r == declared_attributes(*input)[index as int],
{
    &input.attrs[index]
}

/// Tells the variants of `syn::Data` apart, on the `data` of a
/// `syn::DeriveInput`: a structure hands out its `fields`, an enumeration and
/// a union hand out nothing.
#[verifier::external_body]
fn input_body(input: &syn::DeriveInput) -> (r: Option<&syn::Fields>)
    ensures
        match r {
            Some(body) => declared_body(*input) == Some(*body),
            None => declared_body(*input) is None,
        },
{
    match &input.data {
        syn::Data::Struct(data) => Some(&data.fields),
        syn::Data::Enum(_) => None,
        syn::Data::Union(_) => None,
    }
}

/// Tells the variants of `syn::Fields` apart: named, unnamed, unit.
#[verifier::external_body]
fn fields_shape(body: &syn::Fields) -> (r: Shape)
    ensures
        r == body_shape(*body),
{
    match body {
        syn::Fields::Named(_) => Shape::NamedFields,
        syn::Fields::Unnamed(_) => Shape::PositionalFields,
        syn::Fields::Unit => Shape::Unsupported,
    }
}

/// Calls `syn::Fields::len`.
#[verifier::external_body]
fn fields_count(body: &syn::Fields) -> (r: usize)
    ensures
        r == body_fields(*body).len(),
{
    body.len()
}

/// Walks `syn::Fields::iter` up to one position.
#[verifier::external_body]
fn fields_at(body: &syn::Fields, index: usize) -> (r: &syn::Field)
    requires
        index < body_fields(*body).len(),
    ensures
        *r == body_fields(*body)[index as int],
{
    body.iter().nth(index).unwrap()
}

/// Formats the `ident` of a `syn::Field`, where it has one.
#[verifier::external_body]
fn field_ident_text(field: &syn::Field) -> (r: Option<String>)
    ensures
        crate::model::optional_text(r) == field_ident(*field),
{
    field.ident.as_ref().map(|ident| ident.to_string())
}

/// Prints the `ty` of a `syn::Field` as tokens.
#[verifier::external_body]
fn field_type_text(field: &syn::Field) -> (r: String)
    ensures
        r@ == field_type(*field),
{
    field.ty.to_token_stream().to_string()
}

/// Prints the `vis` of a `syn::Field` as tokens.
#[verifier::external_body]
fn field_visibility_text(field: &syn::Field) -> (r: String)
    ensures
        r@ == field_visibility(*field),
{
    field.vis.to_token_stream().to_string()
}

/// The length of the `attrs` of a `syn::Field`.
#[verifier::external_body]
fn field_attribute_count(field: &syn::Field) -> (r: usize)
    ensures
        r == field_attributes(*field).len(),
{
    field.attrs.len()
}

/// Indexes the `attrs` of a `syn::Field`.
#[verifier::external_body]
fn field_attribute(field: &syn::Field, index: usize) -> (r: &syn::Attribute)
    requires
        index < field_attributes(*field).len(),
    ensures
        *r == field_attributes(*field)[index as int],
{
    &field.attrs[index]
}

/// Prints a `syn::Attribute` as tokens.
#[verifier::external_body]
fn attribute_text(attribute: &syn::Attribute) -> (r: String)
    ensures
        r@ == attribute_tokens(*attribute),
{
    attribute.to_token_stream().to_string()
}

/// Calls `syn::Path::get_ident` on the path of a `syn::Attribute` and formats
/// the identifier, where the path is one.
#[verifier::external_body]
fn attribute_path_text(attribute: &syn::Attribute) -> (r: Option<String>)
    ensures
        crate::model::optional_text(r) == attribute_path(*attribute),
{
    attribute.path().get_ident().map(|ident| ident.to_string())
}

/// Calls `syn::Attribute::parse_args::<syn::Ident>` and formats the identifier,
/// where the call succeeds: the attribute has a delimited list of arguments
/// and it parses as exactly one identifier. On an attribute without arguments
/// the call reads the first and the last segment of the path, which a path
/// without segments does not have: the attribute's path must be a single
/// identifier.
#[verifier::external_body]
fn attribute_argument_text(attribute: &syn::Attribute) -> (r: Option<String>)
    requires
        attribute_path(*attribute) is Some,
    ensures
        crate::model::optional_text(r) == attribute_argument(*attribute),
{
    attribute.parse_args::<syn::Ident>().ok().map(|ident| ident.to_string())
}

/// Reads one attribute into the descriptor model. The argument is asked for
/// only where the path is a single identifier, and is absent otherwise.
pub fn read_attribute(attribute: &syn::Attribute) -> (r: AttributeDescriptor)
    ensures
        r@ == attribute_model(*attribute),
{
    let text = attribute_text(attribute);
    let path = attribute_path_text(attribute);
    let argument = if path.is_some() {
        attribute_argument_text(attribute)
    } else {
        None
    };
    AttributeDescriptor { text, path, argument }
}

/// Reads one field into the descriptor model. Its attributes are kept in the
/// order written; a field without an identifier gets the empty name.
pub fn read_field(field: &syn::Field) -> (r: FieldDescriptor)
    ensures
        r@ == field_model(*field),
{
    let name = match field_ident_text(field) {
        Some(name) => name,
        None => String::new(),
    };
    let count = field_attribute_count(field);
    let mut attributes: Vec<AttributeDescriptor> = Vec::new();
    let mut index: usize = 0;
    while index < count
        invariant
            count == field_attributes(*field).len(),
            index <= count,
            attributes@.len() == index,
            forall|k: int|
                0 <= k < index ==> (#[trigger] attributes@[k])@ == attribute_model(
                    field_attributes(*field)[k],
                ),
        decreases count - index,
    {
        let attribute = read_attribute(field_attribute(field, index));
        attributes.push(attribute);
        index += 1;
    }
    proof {
        assert(crate::model::attribute_views(attributes@) =~= attribute_models(
            field_attributes(*field),
        ));
    }
    FieldDescriptor {
        name,
        ty: field_type_text(field),
        visibility: field_visibility_text(field),
        attributes,
    }
}

/// The fields of a declaration, in declaration order. A declaration without
/// fields gives the empty list, and so does one of an enumeration or a union:
/// no declaration is turned away.
pub fn get_fields(input: &syn::DeriveInput) -> (r: Vec<FieldDescriptor>)
    ensures
        crate::model::field_views(r@) == declared_fields(*input),
{
    let mut fields: Vec<FieldDescriptor> = Vec::new();
    match input_body(input) {
        Some(body) => {
            let count = fields_count(body);
            let mut index: usize = 0;
            while index < count
                invariant
                    count == body_fields(*body).len(),
                    index <= count,
                    fields@.len() == index,
                    forall|k: int|
                        0 <= k < index ==> (#[trigger] fields@[k])@ == field_model(
                            body_fields(*body)[k],
                        ),
                decreases count - index,
            {
                let field = read_field(fields_at(body, index));
                fields.push(field);
                index += 1;
            }
            proof {
                assert(crate::model::field_views(fields@) =~= field_models(body_fields(*body)));
            }
        },
        None => {
            proof {
                assert(crate::model::field_views(fields@) =~= Seq::empty());
            }
        },
    }
    fields
}

/// The attributes of a declaration, in the order written.
pub fn get_attributes(input: &syn::DeriveInput) -> (r: Vec<AttributeDescriptor>)
    ensures
        crate::model::attribute_views(r@) == attribute_models(declared_attributes(*input)),
{
    let count = input_attribute_count(input);
    let mut attributes: Vec<AttributeDescriptor> = Vec::new();
    let mut index: usize = 0;
    while index < count
        invariant
            count == declared_attributes(*input).len(),
            index <= count,
            attributes@.len() == index,
            forall|k: int|
                0 <= k < index ==> (#[trigger] attributes@[k])@ == attribute_model(
                    declared_attributes(*input)[k],
                ),
        decreases count - index,
    {
        let attribute = read_attribute(input_attribute(input, index));
        attributes.push(attribute);
        index += 1;
    }
    proof {
        assert(crate::model::attribute_views(attributes@) =~= attribute_models(
            declared_attributes(*input),
        ));
    }
    attributes
}

/// Tells the shape of a declaration: that of its fields where it declares a
/// structure, unsupported where it declares an enumeration or a union.
pub fn get_shape(input: &syn::DeriveInput) -> (r: Shape)
    ensures
        r == declared_shape(*input),
{
    match input_body(input) {
        Some(body) => fields_shape(body),
        None => Shape::Unsupported,
    }
}

/// Normalises a parsed declaration into its descriptor. Every declaration has
/// one: no shape is turned away here.
pub fn describe(input: &syn::DeriveInput) -> (r: StructDescriptor)
    ensures
        r@ == struct_model(*input),
{
    StructDescriptor {
        name: input_name(input),
        visibility: input_visibility(input),
        attributes: get_attributes(input),
        shape: get_shape(input),
        fields: get_fields(input),
    }
}

/// True where `outcome` is what parsing `text` gives, under one of the two
/// lexers.
pub open spec fn is_parse_of(text: Seq<char>, outcome: Option<StructView>) -> bool {
    exists|hosted: bool| #[trigger] parsed_declaration(text, hosted) == outcome
}

/// Parses a text as a declaration and normalises it. Where the text parses, the
/// descriptor of the declaration comes back; where it does not, a syntax error
/// with the parser's message.
pub fn parse_struct(text: &str) -> (r: Result<StructDescriptor, MacroError>)
    ensures
        match r {
            Ok(descriptor) => is_parse_of(text@, Some(descriptor@)),
            Err(error) => error is Syntax && is_parse_of(text@, None),
        },
{
    match parse_input(text) {
        Ok(input) => Ok(describe(&input)),
        Err(error) => Err(MacroError::Syntax(error_text(&error))),
    }
}

} // verus!
