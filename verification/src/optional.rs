//! The optional transform: the same structure, with the type of every field
//! that is not exempt wrapped in `Option`.

use crate::model::{
    accepts, attribute_views, field_views, text_result_view, Transformation, AttributeDescriptor, AttributeView,
    FieldDescriptor, FieldView, MacroError, MacroErrorView, Shape, StructDescriptor, StructView,
};
use crate::syntax::{describe, parse_struct, parsed_declaration, struct_model};
use crate::render::{named_field_text, struct_text, write_named_field, write_struct};
use crate::text::same_text;
use vstd::prelude::*;
use vstd::string::*;

verus! {

/// True where the attribute belongs to the transform: its path is the single
/// identifier `optional`.
pub open spec fn is_own_attribute(attribute: AttributeView) -> bool {
    attribute.path == Some("optional"@)
}

/// True where the attribute is the exempt marker: the transform's own
/// attribute with the single argument `except`.
pub open spec fn is_exempt_marker(attribute: AttributeView) -> bool {
    is_own_attribute(attribute) && attribute.argument == Some("except"@)
}

/// True where a field is exempt: one of its attributes is the exempt marker.
pub open spec fn is_exempt(field: FieldView) -> bool {
    exists|i: int| 0 <= i < field.attributes.len() && is_exempt_marker(#[trigger] field.attributes[i])
}

/// A type wrapped in the optional container.
pub open spec fn wrapped_type(ty: Seq<char>) -> Seq<char> {
    "Option<"@ + ty + ">"@
}

/// What the transform makes of a named field: name and visibility pass
/// through, the type is wrapped unless the field is exempt, and the field's
/// attributes are not carried over.
pub open spec fn optional_named_field(field: FieldView) -> FieldView {
    FieldView {
        name: field.name,
        ty: if is_exempt(field) {
            field.ty
        } else {
            wrapped_type(field.ty)
        },
        visibility: field.visibility,
        attributes: Seq::empty(),
    }
}

/// What the transform makes of a positional field: the wrapped type alone.
pub open spec fn optional_positional_field(field: FieldView) -> FieldView {
    FieldView {
        name: Seq::empty(),
        ty: wrapped_type(field.ty),
        visibility: Seq::empty(),
        attributes: Seq::empty(),
    }
}

/// What the transform makes of the fields of a structure of the given shape,
/// in declaration order.
pub open spec fn optional_fields(shape: Shape, fields: Seq<FieldView>) -> Seq<FieldView> {
    if shape == Shape::NamedFields {
        fields.map_values(|f: FieldView| optional_named_field(f))
    } else {
        fields.map_values(|f: FieldView| optional_positional_field(f))
    }
}

/// The attributes that pass through: all but the transform's own, in the
/// order written.
pub open spec fn passed_attributes(attributes: Seq<AttributeView>) -> Seq<AttributeView> {
    attributes.filter(|a: AttributeView| !is_own_attribute(a))
}

/// The transformed structure: same name, visibility and shape.
pub open spec fn optional_struct(descriptor: StructView) -> StructView {
    StructView {
        name: descriptor.name,
        visibility: descriptor.visibility,
        attributes: passed_attributes(descriptor.attributes),
        shape: descriptor.shape,
        fields: optional_fields(descriptor.shape, descriptor.fields),
    }
}

/// What the transform gives for a structure: the transformed structure where
/// the fields are named or positional, the shape error otherwise.
pub open spec fn transform_outcome(descriptor: StructView) -> Result<StructView, MacroErrorView> {
    if accepts(Transformation::Optional, descriptor.shape) {
        Ok(optional_struct(descriptor))
    } else {
        Err(MacroErrorView::UnsupportedShape)
    }
}

/// In a transformed structure with named fields every field keeps its place,
/// name and visibility; the type of an exempt field is unchanged, the type of
/// any other field is the optional of its type.
pub proof fn lemma_named_field_types(descriptor: StructView, i: int)
    requires
        descriptor.shape == Shape::NamedFields,
        0 <= i < descriptor.fields.len(),
    ensures
        optional_struct(descriptor).fields.len() == descriptor.fields.len(),
        optional_struct(descriptor).fields[i].name == descriptor.fields[i].name,
        optional_struct(descriptor).fields[i].visibility == descriptor.fields[i].visibility,
        is_exempt(descriptor.fields[i]) ==> optional_struct(descriptor).fields[i].ty
            == descriptor.fields[i].ty,
        !is_exempt(descriptor.fields[i]) ==> optional_struct(descriptor).fields[i].ty
            == wrapped_type(descriptor.fields[i].ty),
{
}

/// In a transformed structure with positional fields every field keeps its
/// place, and its type is the optional of its type.
pub proof fn lemma_positional_field_types(descriptor: StructView, i: int)
    requires
        descriptor.shape == Shape::PositionalFields,
        0 <= i < descriptor.fields.len(),
    ensures
        optional_struct(descriptor).fields.len() == descriptor.fields.len(),
        optional_struct(descriptor).fields[i].ty == wrapped_type(descriptor.fields[i].ty),
{
}

/// Tells whether an optional text is present and equal to `expected`.
fn holds_text(text: &Option<String>, expected: &str) -> (r: bool)
    ensures
        r == (crate::model::optional_text(*text) == Some(expected@)),
{
    match text {
        Some(found) => same_text(found.as_str(), expected),
        None => false,
    }
}

/// Tells whether the attribute is the transform's own.
pub fn own_attribute(attribute: &AttributeDescriptor) -> (r: bool)
    ensures
        r == is_own_attribute(attribute@),
{
    holds_text(&attribute.path, "optional")
}

/// Tells whether a field carries the exempt marker, by scanning its
/// attributes.
pub fn exempt(field: &FieldDescriptor) -> (r: bool)
    ensures
        r == is_exempt(field@),
{
    let mut is_except = false;
    let mut index: usize = 0;
    while index < field.attributes.len()
        invariant
            index <= field.attributes.len(),
            is_except == exists|i: int|
                0 <= i < index && is_exempt_marker(#[trigger] field@.attributes[i]),
        decreases field.attributes.len() - index,
    {
        let attribute = &field.attributes[index];
        assert(field@.attributes[index as int] == attribute@);
        if own_attribute(attribute) && holds_text(&attribute.argument, "except") {
            is_except = true;
        }
        index += 1;
    }
    assert(field@.attributes.len() == field.attributes.len());
    is_except
}

/// Wraps a type in the optional container.
pub fn wrap_type(ty: &str) -> (r: String)
    ensures
        r@ == wrapped_type(ty@),
{
    let mut out = String::new();
    out.append("Option<");
    out.append(ty);
    out.append(">");
    assert(out@ =~= wrapped_type(ty@));
    out
}

/// Transforms a named field.
pub fn transform_named_field(field: &FieldDescriptor) -> (r: FieldDescriptor)
    ensures
        r@ == optional_named_field(field@),
{
    let ty = if exempt(field) {
        field.ty.clone()
    } else {
        wrap_type(field.ty.as_str())
    };
    let r = FieldDescriptor {
        name: field.name.clone(),
        ty,
        visibility: field.visibility.clone(),
        attributes: Vec::new(),
    };
    assert(r@.attributes =~= Seq::empty());
    r
}

/// Transforms a positional field.
pub fn transform_positional_field(field: &FieldDescriptor) -> (r: FieldDescriptor)
    ensures
        r@ == optional_positional_field(field@),
{
    let r = FieldDescriptor {
        name: String::new(),
        ty: wrap_type(field.ty.as_str()),
        visibility: String::new(),
        attributes: Vec::new(),
    };
    assert(r@.attributes =~= Seq::empty());
    r
}

/// Copies an optional text.
fn copy_optional_text(text: &Option<String>) -> (r: Option<String>)
    ensures
        r == *text,
{
    match text {
        Some(found) => Some(found.clone()),
        None => None,
    }
}

/// Keeps the attributes that pass through the transform, in the order
/// written.
pub fn pass_attributes(attributes: &Vec<AttributeDescriptor>) -> (r: Vec<AttributeDescriptor>)
    ensures
        attribute_views(r@) == passed_attributes(attribute_views(attributes@)),
{
    let mut kept: Vec<AttributeDescriptor> = Vec::new();
    let mut index: usize = 0;
    proof {
        reveal(Seq::filter);
        assert(attribute_views(kept@) =~= Seq::empty());
    }
    while index < attributes.len()
        invariant
            index <= attributes.len(),
            attribute_views(kept@) == passed_attributes(
                attribute_views(attributes@).take(index as int),
            ),
        decreases attributes.len() - index,
    {
        let attribute = &attributes[index];
        proof {
            let views = attribute_views(attributes@);
            assert(views.take(index + 1).drop_last() =~= views.take(index as int));
            assert(views.take(index + 1).last() == attribute@);
            reveal(Seq::filter);
        }
        if !own_attribute(attribute) {
            let copy = AttributeDescriptor {
                text: attribute.text.clone(),
                path: copy_optional_text(&attribute.path),
                argument: copy_optional_text(&attribute.argument),
            };
            assert(attribute_views(kept@.push(copy)) =~= attribute_views(kept@).push(copy@));
            kept.push(copy);
        }
        index += 1;
    }
    proof {
        let views = attribute_views(attributes@);
        assert(views.take(attributes.len() as int) =~= views);
    }
    kept
}

/// Transforms the fields of a structure of the given shape, in declaration
/// order: as many fields come out as went in.
pub fn transform_fields(shape: Shape, fields: &Vec<FieldDescriptor>) -> (r: Vec<FieldDescriptor>)
    ensures
        r@.len() == fields@.len(),
        field_views(r@) == optional_fields(shape, field_views(fields@)),
{
    let named = match shape {
        Shape::NamedFields => true,
        _ => false,
    };
    let mut out: Vec<FieldDescriptor> = Vec::new();
    let mut index: usize = 0;
    while index < fields.len()
        invariant
            index <= fields.len(),
            named == (shape == Shape::NamedFields),
            out@.len() == index,
            forall|i: int|
                0 <= i < index ==> (#[trigger] out@[i])@ == (if named {
                    optional_named_field(fields@[i]@)
                } else {
                    optional_positional_field(fields@[i]@)
                }),
        decreases fields.len() - index,
    {
        let field = if named {
            transform_named_field(&fields[index])
        } else {
            transform_positional_field(&fields[index])
        };
        out.push(field);
        index += 1;
    }
    assert(field_views(out@) =~= optional_fields(shape, field_views(fields@)));
    out
}

/// The view of a transformed structure or the error in its place.
pub open spec fn transform_result_view(
    r: Result<StructDescriptor, MacroError>,
) -> Result<StructView, MacroErrorView> {
    match r {
        Ok(descriptor) => Ok(descriptor@),
        Err(error) => Err(error@),
    }
}

/// Transforms a described structure.
pub fn transform(descriptor: &StructDescriptor) -> (r: Result<StructDescriptor, MacroError>)
    ensures
        transform_result_view(r) == transform_outcome(descriptor@),
{
    if Transformation::Optional.takes(descriptor.shape) {
        Ok(
            StructDescriptor {
                name: descriptor.name.clone(),
                visibility: descriptor.visibility.clone(),
                attributes: pass_attributes(&descriptor.attributes),
                shape: descriptor.shape,
                fields: transform_fields(descriptor.shape, &descriptor.fields),
            },
        )
    } else {
        Err(MacroError::UnsupportedShape)
    }
}

/// Writes a named field as it stands in the transformed structure.
pub fn parse_field(field: &FieldDescriptor) -> (r: String)
    ensures
        r@ == named_field_text(optional_named_field(field@)),
{
    write_named_field(&transform_named_field(field))
}

/// What the transform emits for a structure: the declaration of the
/// transformed structure, or the shape error.
pub open spec fn optional_outcome(descriptor: StructView) -> Result<Seq<char>, MacroErrorView> {
    match transform_outcome(descriptor) {
        Ok(transformed) => Ok(struct_text(transformed)),
        Err(error) => Err(error),
    }
}

/// Transforms a described structure and writes the result as a declaration.
pub fn generate_optional(descriptor: &StructDescriptor) -> (r: Result<String, MacroError>)
    ensures
        text_result_view(r) == optional_outcome(descriptor@),
{
    match transform(descriptor) {
        Ok(transformed) => Ok(write_struct(&transformed)),
        Err(error) => Err(error),
    }
}

/// The optional transform on a parsed declaration.
pub fn optional_for(input: &syn::DeriveInput) -> (r: Result<String, MacroError>)
    ensures
        text_result_view(r) == optional_outcome(struct_model(*input)),
{
    generate_optional(&describe(input))
}

/// The optional transform, from the text of a declaration to the text of the
/// transformed declaration. The arguments of the invocation are not looked
/// at. Where the text parses, what comes back is what the transform emits for
/// the declaration; where it does not, a syntax error.
pub fn optional_impl(_attr: &str, item: &str) -> (r: Result<String, MacroError>)
    ensures
        exists|hosted: bool|
            match #[trigger] parsed_declaration(item@, hosted) {
                Some(descriptor) => text_result_view(r) == optional_outcome(descriptor),
                None => r is Err && r->Err_0 is Syntax,
            },
{
    match parse_struct(item) {
        Ok(descriptor) => generate_optional(&descriptor),
        Err(error) => Err(error),
    }
}

} // verus!
