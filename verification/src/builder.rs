//! Builder derivation: a companion builder type with one slot per field, an
//! error enumeration with one variant per field, fluent setters and the
//! validating assembly operation.

use crate::model::{
    accepts, field_views, text_result_view, Transformation, FieldDescriptor, FieldView,
    MacroError, MacroErrorView, StructDescriptor, StructView,
};
use crate::naming::{
    is_snake_case, lemma_pascal_case_is_injective, pascal_case, snake_to_pascal,
};
use crate::syntax::{describe, parse_struct, parsed_declaration, struct_model};
use crate::text::{join, joined, push_visibility, text_views, visibility_prefix};
use vstd::prelude::*;
use vstd::string::*;

verus! {

/// The name of the builder type of a structure.
pub open spec fn builder_name(name: Seq<char>) -> Seq<char> {
    name + "Builder"@
}

/// The name of the error enumeration of a structure's builder.
pub open spec fn error_name(name: Seq<char>) -> Seq<char> {
    name + "BuilderError"@
}

/// The error variant that stands for a missing field: the field's name in
/// Pascal case, followed by `NotFound`.
pub open spec fn variant_name(field_name: Seq<char>) -> Seq<char> {
    pascal_case(field_name) + "NotFound"@
}

/// Distinct snake-case field names have distinct error variants.
pub proof fn lemma_variants_are_distinct(a: Seq<char>, b: Seq<char>)
    requires
        is_snake_case(a),
        is_snake_case(b),
        a != b,
    ensures
        variant_name(a) != variant_name(b),
{
    if variant_name(a) == variant_name(b) {
        let suffix = "NotFound"@;
        let left = pascal_case(a);
        let right = pascal_case(b);
        assert((left + suffix).len() == left.len() + suffix.len());
        assert((right + suffix).len() == right.len() + suffix.len());
        assert(left =~= (left + suffix).subrange(0, left.len() as int));
        assert(right =~= (right + suffix).subrange(0, right.len() as int));
        lemma_pascal_case_is_injective(a, b);
    }
}

/// The slot of one field in the builder type: the field with its visibility,
/// its type wrapped in `Option`.
pub open spec fn slot_text(field: FieldView) -> Seq<char> {
    "    "@ + visibility_prefix(field.visibility) + field.name + ": Option<"@ + field.ty + ">"@
}

/// The setter of one field: it takes any value that converts into the field's
/// type, stores it in the slot and hands the builder back.
pub open spec fn setter_text(field: FieldView) -> Seq<char> {
    "    pub fn "@ + field.name + "<T: Into<"@ + field.ty
        + ">>(&mut self, value: T) -> &mut Self {\n        self."@ + field.name
        + " = Some(value.into());\n        self\n    }"@
}

/// The part of the assembly operation that fills one field: a clone of the
/// slot's value, or the return of the field's error variant where the slot is
/// empty.
pub open spec fn create_text(field: FieldView, error: Seq<char>) -> Seq<char> {
    "            "@ + field.name + ": match self."@ + field.name
        + " {\n                Some(ref value) => Clone::clone(value),\n                None => return Err("@
        + error + "::"@ + variant_name(field.name) + ")\n            }"@
}

/// The error variant of one field as it stands in the enumeration.
pub open spec fn variant_text(field: FieldView) -> Seq<char> {
    "    "@ + variant_name(field.name)
}

/// The slots of a list of fields, in declaration order.
pub open spec fn slot_texts(fields: Seq<FieldView>) -> Seq<Seq<char>> {
    fields.map_values(|f: FieldView| slot_text(f))
}

/// The setters of a list of fields, in declaration order.
pub open spec fn setter_texts(fields: Seq<FieldView>) -> Seq<Seq<char>> {
    fields.map_values(|f: FieldView| setter_text(f))
}

/// The parts of the assembly operation for a list of fields, in declaration
/// order.
pub open spec fn create_texts(fields: Seq<FieldView>, error: Seq<char>) -> Seq<Seq<char>> {
    fields.map_values(|f: FieldView| create_text(f, error))
}

/// The error variants of a list of fields, in declaration order.
pub open spec fn variant_texts(fields: Seq<FieldView>) -> Seq<Seq<char>> {
    fields.map_values(|f: FieldView| variant_text(f))
}

/// A builder has one slot, one setter, one part of the assembly operation and
/// one error variant per field, each list in declaration order.
pub proof fn lemma_one_of_each_per_field(fields: Seq<FieldView>, error: Seq<char>, i: int)
    requires
        0 <= i < fields.len(),
    ensures
        slot_texts(fields).len() == fields.len(),
        setter_texts(fields).len() == fields.len(),
        create_texts(fields, error).len() == fields.len(),
        variant_texts(fields).len() == fields.len(),
        slot_texts(fields)[i] == slot_text(fields[i]),
        setter_texts(fields)[i] == setter_text(fields[i]),
        create_texts(fields, error)[i] == create_text(fields[i], error),
        variant_texts(fields)[i] == variant_text(fields[i]),
{
}

/// The four texts that one field contributes to a builder.
pub struct BuilderParts {
    /// The slot in the builder type.
    pub slot: String,
    /// The setter.
    pub setter: String,
    /// The field's part of the assembly operation.
    pub create: String,
    /// The error variant.
    pub variant: String,
}

impl BuilderParts {
    /// True where the four texts are those of `field` in a builder whose error
    /// enumeration is named `error`.
    pub open spec fn is_for(&self, field: FieldView, error: Seq<char>) -> bool {
        &&& self.slot@ == slot_text(field)
        &&& self.setter@ == setter_text(field)
        &&& self.create@ == create_text(field, error)
        &&& self.variant@ == variant_text(field)
    }
}

/// The error enumeration: one variant per field, in declaration order.
pub open spec fn error_enum_text(descriptor: StructView) -> Seq<char> {
    "#[derive(Debug)]\n"@ + visibility_prefix(descriptor.visibility) + "enum "@ + error_name(
        descriptor.name,
    ) + " {\n"@ + joined(variant_texts(descriptor.fields), ",\n"@)
        + "\n}\n"@
}

/// The display and error-source impls of the error enumeration. An error
/// displays as the name of its variant.
pub open spec fn error_impls_text(descriptor: StructView) -> Seq<char> {
    "impl std::fmt::Display for "@ + error_name(descriptor.name)
        + " {\n    fn fmt(&self, f: &mut std::fmt::Formatter<'_>) -> std::fmt::Result {\n        write!(f, \"{:?}\", self)\n    }\n}\n\nimpl std::error::Error for "@
        + error_name(descriptor.name) + " {}\n"@
}

/// The factory added to the structure: it returns a builder with every slot
/// empty.
pub open spec fn factory_text(descriptor: StructView) -> Seq<char> {
    "impl "@ + descriptor.name + " {\n    pub fn builder() -> "@ + builder_name(descriptor.name)
        + " {\n        "@ + builder_name(descriptor.name) + "::default()\n    }\n}\n"@
}

/// The builder type: one slot per field, in declaration order.
pub open spec fn builder_struct_text(descriptor: StructView) -> Seq<char> {
    "#[derive(Default, Clone)]\n"@ + visibility_prefix(descriptor.visibility) + "struct "@
        + builder_name(descriptor.name) + " {\n"@ + joined(slot_texts(descriptor.fields), ",\n"@) + "\n}\n"@
}

/// The setters: one per field, in declaration order.
pub open spec fn setters_text(descriptor: StructView) -> Seq<char> {
    "impl "@ + builder_name(descriptor.name) + " {\n"@ + joined(setter_texts(descriptor.fields), "\n"@) + "\n}\n"@
}

/// The assembly operation: it fills the fields of the structure in
/// declaration order, each from its slot.
pub open spec fn build_text(descriptor: StructView) -> Seq<char> {
    "impl "@ + builder_name(descriptor.name) + " {\n    pub fn build(&self) -> Result<"@
        + descriptor.name + ", "@ + error_name(descriptor.name) + "> {\n        Ok("@
        + descriptor.name + " {\n"@ + joined(create_texts(descriptor.fields, error_name(descriptor.name)), ",\n"@) + "\n        })\n    }\n}\n"@
}

/// Everything that builder derivation emits for a structure with named
/// fields: the error enumeration with its impls, the factory, the builder
/// type, the setters and the assembly operation, a blank line between each
/// two.
pub open spec fn builder_text(descriptor: StructView) -> Seq<char> {
    error_enum_text(descriptor) + "\n"@ + error_impls_text(descriptor) + "\n"@ + factory_text(
        descriptor,
    ) + "\n"@ + builder_struct_text(descriptor) + "\n"@ + setters_text(descriptor) + "\n"@
        + build_text(descriptor)
}

/// What builder derivation gives for a structure: the text above where the
/// fields are named, the shape error otherwise.
pub open spec fn builder_outcome(descriptor: StructView) -> Result<Seq<char>, MacroErrorView> {
    if accepts(Transformation::Builder, descriptor.shape) {
        Ok(builder_text(descriptor))
    } else {
        Err(MacroErrorView::UnsupportedShape)
    }
}

/// Derives the name of the error variant of a field.
pub fn not_found_variant(field_name: &str) -> (r: String)
    ensures
        r@ == variant_name(field_name@),
{
    let mut out = snake_to_pascal(field_name);
    out.append("NotFound");
    out
}

/// Writes the four texts that one field contributes to a builder whose error
/// enumeration is named `error`.
pub fn builder_parts(field: &FieldDescriptor, error: &str) -> (r: BuilderParts)
    ensures
        r.is_for(field@, error@),
{
    let variant_ident = not_found_variant(field.name.as_str());

    let mut slot = String::new();
    slot.append("    ");
    push_visibility(&mut slot, field.visibility.as_str());
    slot.append(field.name.as_str());
    slot.append(": Option<");
    slot.append(field.ty.as_str());
    slot.append(">");
    assert(slot@ =~= slot_text(field@));

    let mut setter = String::new();
    setter.append("    pub fn ");
    setter.append(field.name.as_str());
    setter.append("<T: Into<");
    setter.append(field.ty.as_str());
    setter.append(">>(&mut self, value: T) -> &mut Self {\n        self.");
    setter.append(field.name.as_str());
    setter.append(" = Some(value.into());\n        self\n    }");
    assert(setter@ =~= setter_text(field@));

    let mut create = String::new();
    create.append("            ");
    create.append(field.name.as_str());
    create.append(": match self.");
    create.append(field.name.as_str());
    create.append(
        " {\n                Some(ref value) => Clone::clone(value),\n                None => return Err(",
    );
    create.append(error);
    create.append("::");
    create.append(variant_ident.as_str());
    create.append(")\n            }");
    assert(create@ =~= create_text(field@, error@));

    let mut variant = String::new();
    variant.append("    ");
    variant.append(variant_ident.as_str());
    assert(variant@ =~= variant_text(field@));

    BuilderParts { slot, setter, create, variant }
}

/// The texts that the fields of a structure contribute to its builder, one
/// list per kind of text, each in declaration order.
pub struct BuilderColumns {
    pub slots: Vec<String>,
    pub setters: Vec<String>,
    pub creates: Vec<String>,
    pub variants: Vec<String>,
}

impl BuilderColumns {
    /// True where each list holds, position by position, the text of that kind
    /// for the field at that position.
    pub open spec fn is_for(&self, fields: Seq<FieldView>, error: Seq<char>) -> bool {
        &&& text_views(self.slots@) == slot_texts(fields)
        &&& text_views(self.setters@) == setter_texts(fields)
        &&& text_views(self.creates@) == create_texts(fields, error)
        &&& text_views(self.variants@) == variant_texts(fields)
    }
}

/// Writes the texts of every field, in declaration order: each list has as
/// many entries as there are fields.
pub fn builder_columns(fields: &Vec<FieldDescriptor>, error: &str) -> (r: BuilderColumns)
    ensures
        r.is_for(field_views(fields@), error@),
        r.slots@.len() == fields@.len(),
        r.setters@.len() == fields@.len(),
        r.creates@.len() == fields@.len(),
        r.variants@.len() == fields@.len(),
{
    let mut slots: Vec<String> = Vec::new();
    let mut setters: Vec<String> = Vec::new();
    let mut creates: Vec<String> = Vec::new();
    let mut variants: Vec<String> = Vec::new();
    let mut index: usize = 0;
    while index < fields.len()
        invariant
            index <= fields.len(),
            slots@.len() == index,
            setters@.len() == index,
            creates@.len() == index,
            variants@.len() == index,
            forall|i: int| 0 <= i < index ==> (#[trigger] slots@[i])@ == slot_text(fields@[i]@),
            forall|i: int| 0 <= i < index ==> (#[trigger] setters@[i])@ == setter_text(fields@[i]@),
            forall|i: int|
                0 <= i < index ==> (#[trigger] creates@[i])@ == create_text(fields@[i]@, error@),
            forall|i: int|
                0 <= i < index ==> (#[trigger] variants@[i])@ == variant_text(fields@[i]@),
        decreases fields.len() - index,
    {
        let parts = builder_parts(&fields[index], error);
        slots.push(parts.slot);
        setters.push(parts.setter);
        creates.push(parts.create);
        variants.push(parts.variant);
        index += 1;
    }
    proof {
        let views = field_views(fields@);
        assert(text_views(slots@) =~= slot_texts(views));
        assert(text_views(setters@) =~= setter_texts(views));
        assert(text_views(creates@) =~= create_texts(views, error@));
        assert(text_views(variants@) =~= variant_texts(views));
    }
    BuilderColumns { slots, setters, creates, variants }
}

/// Writes the error enumeration from its variants.
fn write_error_enum(descriptor: &StructDescriptor, error: &str, variants: &Vec<String>) -> (r:
    String)
    requires
        error@ == error_name(descriptor@.name),
        text_views(variants@) == variant_texts(descriptor@.fields),
    ensures
        r@ == error_enum_text(descriptor@),
{
    let body = join(variants, ",\n");
    let mut out = String::new();
    out.append("#[derive(Debug)]\n");
    push_visibility(&mut out, descriptor.visibility.as_str());
    out.append("enum ");
    out.append(error);
    out.append(" {\n");
    out.append(body.as_str());
    out.append("\n}\n");
    assert(out@ =~= error_enum_text(descriptor@));
    out
}

/// Writes the display and error-source impls of the error enumeration.
fn write_error_impls(descriptor: &StructDescriptor, error: &str) -> (r: String)
    requires
        error@ == error_name(descriptor@.name),
    ensures
        r@ == error_impls_text(descriptor@),
{
    let mut out = String::new();
    out.append("impl std::fmt::Display for ");
    out.append(error);
    out.append(
        " {\n    fn fmt(&self, f: &mut std::fmt::Formatter<'_>) -> std::fmt::Result {\n        write!(f, \"{:?}\", self)\n    }\n}\n\nimpl std::error::Error for ",
    );
    out.append(error);
    out.append(" {}\n");
    assert(out@ =~= error_impls_text(descriptor@));
    out
}

/// Writes the factory that the structure gets.
fn write_factory(descriptor: &StructDescriptor, builder: &str) -> (r: String)
    requires
        builder@ == builder_name(descriptor@.name),
    ensures
        r@ == factory_text(descriptor@),
{
    let mut out = String::new();
    out.append("impl ");
    out.append(descriptor.name.as_str());
    out.append(" {\n    pub fn builder() -> ");
    out.append(builder);
    out.append(" {\n        ");
    out.append(builder);
    out.append("::default()\n    }\n}\n");
    assert(out@ =~= factory_text(descriptor@));
    out
}

/// Writes the builder type from its slots.
fn write_builder_struct(descriptor: &StructDescriptor, builder: &str, slots: &Vec<String>) -> (r:
    String)
    requires
        builder@ == builder_name(descriptor@.name),
        text_views(slots@) == slot_texts(descriptor@.fields),
    ensures
        r@ == builder_struct_text(descriptor@),
{
    let body = join(slots, ",\n");
    let mut out = String::new();
    out.append("#[derive(Default, Clone)]\n");
    push_visibility(&mut out, descriptor.visibility.as_str());
    out.append("struct ");
    out.append(builder);
    out.append(" {\n");
    out.append(body.as_str());
    out.append("\n}\n");
    assert(out@ =~= builder_struct_text(descriptor@));
    out
}

/// Writes the impl block that holds the setters.
fn write_setters(descriptor: &StructDescriptor, builder: &str, setters: &Vec<String>) -> (r:
    String)
    requires
        builder@ == builder_name(descriptor@.name),
        text_views(setters@) == setter_texts(descriptor@.fields),
    ensures
        r@ == setters_text(descriptor@),
{
    let body = join(setters, "\n");
    let mut out = String::new();
    out.append("impl ");
    out.append(builder);
    out.append(" {\n");
    out.append(body.as_str());
    out.append("\n}\n");
    assert(out@ =~= setters_text(descriptor@));
    out
}

/// Writes the impl block that holds the assembly operation.
fn write_build(
    descriptor: &StructDescriptor,
    builder: &str,
    error: &str,
    creates: &Vec<String>,
) -> (r: String)
    requires
        builder@ == builder_name(descriptor@.name),
        error@ == error_name(descriptor@.name),
        text_views(creates@) == create_texts(descriptor@.fields, error@),
    ensures
        r@ == build_text(descriptor@),
{
    let body = join(creates, ",\n");
    let mut out = String::new();
    out.append("impl ");
    out.append(builder);
    out.append(" {\n    pub fn build(&self) -> Result<");
    out.append(descriptor.name.as_str());
    out.append(", ");
    out.append(error);
    out.append("> {\n        Ok(");
    out.append(descriptor.name.as_str());
    out.append(" {\n");
    out.append(body.as_str());
    out.append("\n        })\n    }\n}\n");
    assert(out@ =~= build_text(descriptor@));
    out
}

/// Derives the builder of a described structure.
pub fn generate_builder(descriptor: &StructDescriptor) -> (r: Result<String, MacroError>)
    ensures
        text_result_view(r) == builder_outcome(descriptor@),
{
    if Transformation::Builder.takes(descriptor.shape) {
        {
            let mut builder = descriptor.name.clone();
            builder.append("Builder");
            let mut error = descriptor.name.clone();
            error.append("BuilderError");
            let columns = builder_columns(&descriptor.fields, error.as_str());

            let mut out = write_error_enum(descriptor, error.as_str(), &columns.variants);
            out.append("\n");
            out.append(write_error_impls(descriptor, error.as_str()).as_str());
            out.append("\n");
            out.append(write_factory(descriptor, builder.as_str()).as_str());
            out.append("\n");
            out.append(
                write_builder_struct(descriptor, builder.as_str(), &columns.slots).as_str(),
            );
            out.append("\n");
            out.append(write_setters(descriptor, builder.as_str(), &columns.setters).as_str());
            out.append("\n");
            out.append(
                write_build(descriptor, builder.as_str(), error.as_str(), &columns.creates)
                    .as_str(),
            );
            assert(out@ =~= builder_text(descriptor@));
            Ok(out)
        }
    } else {
        Err(MacroError::UnsupportedShape)
    }
}

/// Builder derivation on a parsed declaration.
pub fn builder_for(input: &syn::DeriveInput) -> (r: Result<String, MacroError>)
    ensures
        text_result_view(r) == builder_outcome(struct_model(*input)),
{
    generate_builder(&describe(input))
}

/// Builder derivation, from the text of a declaration to the text of the items
/// that make up its builder. Where the text parses, what comes back is what
/// builder derivation gives for the declaration; where it does not, a syntax
/// error.
pub fn builder_impl(input: &str) -> (r: Result<String, MacroError>)
    ensures
        exists|hosted: bool|
            match #[trigger] parsed_declaration(input@, hosted) {
                Some(descriptor) => text_result_view(r) == builder_outcome(descriptor),
                None => r is Err && r->Err_0 is Syntax,
            },
{
    match parse_struct(input) {
        Ok(descriptor) => generate_builder(&descriptor),
        Err(error) => Err(error),
    }
}

} // verus!
