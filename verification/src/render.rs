//! Writing a described structure out as a declaration.

use crate::model::{
    attribute_views, field_views, AttributeDescriptor, AttributeView, FieldDescriptor, FieldView,
    Shape, StructDescriptor, StructView,
};
use crate::text::{join, joined, push_visibility, text_views, visibility_prefix};
use vstd::prelude::*;
use vstd::string::*;

verus! {

/// A list of attributes as written before an item: each on a line of its own.
pub open spec fn attributes_text(attributes: Seq<AttributeView>) -> Seq<char>
    decreases attributes.len(),
{
    if attributes.len() == 0 {
        Seq::empty()
    } else {
        attributes_text(attributes.drop_last()) + attributes.last().text + "\n"@
    }
}

/// A named field as written in a structure's braces.
pub open spec fn named_field_text(field: FieldView) -> Seq<char> {
    attributes_text(field.attributes) + "    "@ + visibility_prefix(field.visibility) + field.name
        + ": "@ + field.ty
}

/// A positional field as written in a structure's parentheses.
pub open spec fn positional_field_text(field: FieldView) -> Seq<char> {
    attributes_text(field.attributes) + visibility_prefix(field.visibility) + field.ty
}

/// The named fields of a list, each as written, in declaration order.
pub open spec fn named_field_texts(fields: Seq<FieldView>) -> Seq<Seq<char>> {
    fields.map_values(|f: FieldView| named_field_text(f))
}

/// The positional fields of a list, each as written, in declaration order.
pub open spec fn positional_field_texts(fields: Seq<FieldView>) -> Seq<Seq<char>> {
    fields.map_values(|f: FieldView| positional_field_text(f))
}

/// What follows the name in a declaration: the fields in braces or in
/// parentheses, or nothing but the semicolon.
pub open spec fn body_text(shape: Shape, fields: Seq<FieldView>) -> Seq<char> {
    match shape {
        Shape::NamedFields => " {\n"@ + joined(named_field_texts(fields), ",\n"@) + "\n}\n"@,
        Shape::PositionalFields => "("@ + joined(positional_field_texts(fields), ", "@) + ");\n"@,
        Shape::Unsupported => ";\n"@,
    }
}

/// A structure as a declaration: attributes, visibility, name and fields.
pub open spec fn struct_text(descriptor: StructView) -> Seq<char> {
    attributes_text(descriptor.attributes) + visibility_prefix(descriptor.visibility) + "struct "@
        + descriptor.name + body_text(descriptor.shape, descriptor.fields)
}

/// Writes a list of attributes, each on a line of its own.
pub fn write_attributes(attributes: &Vec<AttributeDescriptor>) -> (r: String)
    ensures
        r@ == attributes_text(attribute_views(attributes@)),
{
    let mut out = String::new();
    let mut index: usize = 0;
    while index < attributes.len()
        invariant
            index <= attributes.len(),
            out@ == attributes_text(attribute_views(attributes@).take(index as int)),
        decreases attributes.len() - index,
    {
        proof {
            let views = attribute_views(attributes@);
            assert(views.take(index + 1).drop_last() =~= views.take(index as int));
            assert(views.take(index + 1).last() == attributes@[index as int]@);
        }
        out.append(attributes[index].text.as_str());
        out.append("\n");
        index += 1;
    }
    proof {
        let views = attribute_views(attributes@);
        assert(views.take(attributes.len() as int) =~= views);
    }
    out
}

/// Writes a named field.
pub fn write_named_field(field: &FieldDescriptor) -> (r: String)
    ensures
        r@ == named_field_text(field@),
{
    let mut out = write_attributes(&field.attributes);
    out.append("    ");
    push_visibility(&mut out, field.visibility.as_str());
    out.append(field.name.as_str());
    out.append(": ");
    out.append(field.ty.as_str());
    assert(out@ =~= named_field_text(field@));
    out
}

/// Writes a positional field.
pub fn write_positional_field(field: &FieldDescriptor) -> (r: String)
    ensures
        r@ == positional_field_text(field@),
{
    let mut out = write_attributes(&field.attributes);
    push_visibility(&mut out, field.visibility.as_str());
    out.append(field.ty.as_str());
    assert(out@ =~= positional_field_text(field@));
    out
}

/// Writes what follows the name in a declaration.
pub fn write_body(shape: Shape, fields: &Vec<FieldDescriptor>) -> (r: String)
    ensures
        r@ == body_text(shape, field_views(fields@)),
{
    let mut out = String::new();
    match shape {
        Shape::NamedFields => {
            let mut lines: Vec<String> = Vec::new();
            let mut index: usize = 0;
            while index < fields.len()
                invariant
                    index <= fields.len(),
                    lines@.len() == index,
                    forall|i: int|
                        0 <= i < index ==> (#[trigger] lines@[i])@ == named_field_text(
                            fields@[i]@,
                        ),
                decreases fields.len() - index,
            {
                lines.push(write_named_field(&fields[index]));
                index += 1;
            }
            assert(text_views(lines@) =~= named_field_texts(field_views(fields@)));
            out.append(" {\n");
            out.append(join(&lines, ",\n").as_str());
            out.append("\n}\n");
            assert(out@ =~= body_text(shape, field_views(fields@)));
        },
        Shape::PositionalFields => {
            let mut entries: Vec<String> = Vec::new();
            let mut index: usize = 0;
            while index < fields.len()
                invariant
                    index <= fields.len(),
                    entries@.len() == index,
                    forall|i: int|
                        0 <= i < index ==> (#[trigger] entries@[i])@ == positional_field_text(
                            fields@[i]@,
                        ),
                decreases fields.len() - index,
            {
                entries.push(write_positional_field(&fields[index]));
                index += 1;
            }
            assert(text_views(entries@) =~= positional_field_texts(field_views(fields@)));
            out.append("(");
            out.append(join(&entries, ", ").as_str());
            out.append(");\n");
            assert(out@ =~= body_text(shape, field_views(fields@)));
        },
        Shape::Unsupported => {
            out.append(";\n");
            assert(out@ =~= body_text(shape, field_views(fields@)));
        },
    }
    out
}

/// Writes a structure as a declaration.
pub fn write_struct(descriptor: &StructDescriptor) -> (r: String)
    ensures
        r@ == struct_text(descriptor@),
{
    let mut out = write_attributes(&descriptor.attributes);
    push_visibility(&mut out, descriptor.visibility.as_str());
    out.append("struct ");
    out.append(descriptor.name.as_str());
    out.append(write_body(descriptor.shape, &descriptor.fields).as_str());
    assert(out@ =~= struct_text(descriptor@));
    out
}

} // verus!
