//! Accessor derivation: one read-only accessor per named field.

use crate::model::{
    accepts, field_views, text_result_view, Transformation, FieldDescriptor, FieldView,
    MacroError, MacroErrorView, StructDescriptor, StructView,
};
use crate::syntax::{describe, parse_struct, parsed_declaration, struct_model};
use crate::text::{join, joined, text_views};
use vstd::prelude::*;
use vstd::string::*;

verus! {

/// The accessor of one field: a method named as the field, which borrows the
/// field from `&self`.
pub open spec fn getter_text(field: FieldView) -> Seq<char> {
    "    pub fn "@ + field.name + "(&self) -> &"@ + field.ty + " {\n        &self."@ + field.name
        + "\n    }"@
}

/// The accessors of a list of fields, one per field, in declaration order.
pub open spec fn getter_texts(fields: Seq<FieldView>) -> Seq<Seq<char>> {
    fields.map_values(|field: FieldView| getter_text(field))
}

/// Accessor derivation emits as many methods as there are fields, the method
/// at each position being the accessor of the field at that position.
pub proof fn lemma_one_getter_per_field(fields: Seq<FieldView>, i: int)
    requires
        0 <= i < fields.len(),
    ensures
        getter_texts(fields).len() == fields.len(),
        getter_texts(fields)[i] == getter_text(fields[i]),
{
}

/// The implementation block that holds the accessors of a structure.
pub open spec fn getters_text(descriptor: StructView) -> Seq<char> {
    "impl "@ + descriptor.name + " {\n"@ + joined(getter_texts(descriptor.fields), "\n"@)
        + "\n}\n"@
}

/// What accessor derivation gives for a structure: the implementation block
/// where the fields are named, the shape error otherwise.
pub open spec fn getters_outcome(descriptor: StructView) -> Result<Seq<char>, MacroErrorView> {
    if accepts(Transformation::AutoGetters, descriptor.shape) {
        Ok(getters_text(descriptor))
    } else {
        Err(MacroErrorView::UnsupportedShape)
    }
}

/// Writes the accessor of one field.
pub fn getter_method(field: &FieldDescriptor) -> (r: String)
    ensures
        r@ == getter_text(field@),
{
    let mut out = String::new();
    out.append("    pub fn ");
    out.append(field.name.as_str());
    out.append("(&self) -> &");
    out.append(field.ty.as_str());
    out.append(" {\n        &self.");
    out.append(field.name.as_str());
    out.append("\n    }");
    assert(out@ =~= getter_text(field@));
    out
}

/// Writes the accessors of a list of fields: as many methods as fields, the
/// method at each position being the accessor of the field at that position.
pub fn getter_methods(fields: &Vec<FieldDescriptor>) -> (r: Vec<String>)
    ensures
        r@.len() == fields@.len(),
        forall|i: int| 0 <= i < fields@.len() ==> (#[trigger] r@[i])@ == getter_text(fields@[i]@),
        text_views(r@) == getter_texts(field_views(fields@)),
{
    let mut methods: Vec<String> = Vec::new();
    let mut index: usize = 0;
    while index < fields.len()
        invariant
            index <= fields.len(),
            methods@.len() == index,
            forall|i: int| 0 <= i < index ==> (#[trigger] methods@[i])@ == getter_text(fields@[i]@),
        decreases fields.len() - index,
    {
        methods.push(getter_method(&fields[index]));
        index += 1;
    }
    assert(text_views(methods@) =~= getter_texts(field_views(fields@)));
    methods
}

/// Derives the accessors of a described structure.
pub fn generate_getters(descriptor: &StructDescriptor) -> (r: Result<String, MacroError>)
    ensures
        text_result_view(r) == getters_outcome(descriptor@),
{
    if Transformation::AutoGetters.takes(descriptor.shape) {
        let methods = getter_methods(&descriptor.fields);
        let body = join(&methods, "\n");
        let mut out = String::new();
        out.append("impl ");
        out.append(descriptor.name.as_str());
        out.append(" {\n");
        out.append(body.as_str());
        out.append("\n}\n");
        assert(out@ =~= getters_text(descriptor@));
        Ok(out)
    } else {
        Err(MacroError::UnsupportedShape)
    }
}

/// Accessor derivation on a parsed declaration.
pub fn auto_getters_for(input: &syn::DeriveInput) -> (r: Result<String, MacroError>)
    ensures
        text_result_view(r) == getters_outcome(struct_model(*input)),
{
    generate_getters(&describe(input))
}

/// Accessor derivation, from the text of a declaration to the text of the
/// implementation block. Where the text parses, what comes back is what
/// accessor derivation gives for the declaration; where it does not, a syntax
/// error.
pub fn auto_getters_impl(input: &str) -> (r: Result<String, MacroError>)
    ensures
        exists|hosted: bool|
            match #[trigger] parsed_declaration(input@, hosted) {
                Some(descriptor) => text_result_view(r) == getters_outcome(descriptor),
                None => r is Err && r->Err_0 is Syntax,
            },
{
    match parse_struct(input) {
        Ok(descriptor) => generate_getters(&descriptor),
        Err(error) => Err(error),
    }
}

} // verus!
