//! The descriptor model: what a structure declaration is, as plain values.

use vstd::prelude::*;
use vstd::string::*;

verus! {

/// How a structure lays out its fields.
#[derive(Clone, Copy, Debug, PartialEq, Eq, Structural)]
pub enum Shape {
    /// Every field carries an identifier.
    NamedFields,
    /// Fields are told apart by position only.
    PositionalFields,
    /// Neither of the two: a unit structure, an enumeration, a union.
    Unsupported,
}

/// One attribute, kept verbatim together with the two parts the
/// transformations look at.
#[derive(Clone, Debug, PartialEq, Eq)]
pub struct AttributeDescriptor {
    /// The attribute as written, as a token text.
    pub text: String,
    /// The name of the attribute, where its path is a single identifier.
    pub path: Option<String>,
    /// The argument of the attribute, where the attribute has a name and its
    /// arguments are a single identifier.
    pub argument: Option<String>,
}

/// The mathematical value of an [`AttributeDescriptor`].
pub ghost struct AttributeView {
    pub text: Seq<char>,
    pub path: Option<Seq<char>>,
    pub argument: Option<Seq<char>>,
}

/// The view of an optional text.
pub open spec fn optional_text(o: Option<String>) -> Option<Seq<char>> {
    match o {
        Some(s) => Some(s@),
        None => None,
    }
}

impl View for AttributeDescriptor {
    type V = AttributeView;

    open spec fn view(&self) -> AttributeView {
        AttributeView {
            text: self.text@,
            path: optional_text(self.path),
            argument: optional_text(self.argument),
        }
    }
}

/// The views of a list of attributes, in order.
pub open spec fn attribute_views(attributes: Seq<AttributeDescriptor>) -> Seq<AttributeView> {
    attributes.map_values(|a: AttributeDescriptor| a@)
}

/// One field of a structure. A positional field has the empty name.
#[derive(Clone, Debug, PartialEq, Eq)]
pub struct FieldDescriptor {
    pub name: String,
    /// The type expression, as a token text.
    pub ty: String,
    /// The visibility, as a token text; empty where none is written.
    pub visibility: String,
    pub attributes: Vec<AttributeDescriptor>,
}

/// The mathematical value of a [`FieldDescriptor`].
pub ghost struct FieldView {
    pub name: Seq<char>,
    pub ty: Seq<char>,
    pub visibility: Seq<char>,
    pub attributes: Seq<AttributeView>,
}

impl View for FieldDescriptor {
    type V = FieldView;

    open spec fn view(&self) -> FieldView {
        FieldView {
            name: self.name@,
            ty: self.ty@,
            visibility: self.visibility@,
            attributes: attribute_views(self.attributes@),
        }
    }
}

/// The views of a list of fields, in declaration order.
pub open spec fn field_views(fields: Seq<FieldDescriptor>) -> Seq<FieldView> {
    fields.map_values(|f: FieldDescriptor| f@)
}

/// A declaration: its name, visibility, attributes, shape and fields in
/// declaration order. A declaration of an enumeration or a union has the
/// unsupported shape and no fields.
#[derive(Clone, Debug, PartialEq, Eq)]
pub struct StructDescriptor {
    pub name: String,
    /// The visibility, as a token text; empty where none is written.
    pub visibility: String,
    pub attributes: Vec<AttributeDescriptor>,
    pub shape: Shape,
    pub fields: Vec<FieldDescriptor>,
}

/// The mathematical value of a [`StructDescriptor`].
pub ghost struct StructView {
    pub name: Seq<char>,
    pub visibility: Seq<char>,
    pub attributes: Seq<AttributeView>,
    pub shape: Shape,
    pub fields: Seq<FieldView>,
}

impl View for StructDescriptor {
    type V = StructView;

    open spec fn view(&self) -> StructView {
        StructView {
            name: self.name@,
            visibility: self.visibility@,
            attributes: attribute_views(self.attributes@),
            shape: self.shape,
            fields: field_views(self.fields@),
        }
    }
}

/// The three transformations.
#[derive(Clone, Copy, Debug, PartialEq, Eq, Structural)]
pub enum Transformation {
    /// Accessor derivation.
    AutoGetters,
    /// Builder derivation.
    Builder,
    /// The optional transform.
    Optional,
}

/// True where a transformation accepts a shape: accessor and builder
/// derivation take named fields only, the optional transform takes named and
/// positional fields.
pub open spec fn accepts(transformation: Transformation, shape: Shape) -> bool {
    match transformation {
        Transformation::AutoGetters => shape == Shape::NamedFields,
        Transformation::Builder => shape == Shape::NamedFields,
        Transformation::Optional => shape != Shape::Unsupported,
    }
}

/// What a transformation expects of the shape of a structure, as the message
/// of its shape error.
pub open spec fn expectation_text(transformation: Transformation) -> Seq<char> {
    match transformation {
        Transformation::AutoGetters =>
            "AutoGetters can only be derived for structs with named fields"@,
        Transformation::Builder => "Builder can only be derived for structs with named fields"@,
        Transformation::Optional =>
            "Optional can only be derived for structs with named and unnamed fields"@,
    }
}

impl Transformation {
    /// Tells whether the transformation accepts a shape.
    pub fn takes(&self, shape: Shape) -> (r: bool)
        ensures
            r == accepts(*self, shape),
    {
        match self {
            Transformation::AutoGetters | Transformation::Builder => match shape {
                Shape::NamedFields => true,
                _ => false,
            },
            Transformation::Optional => match shape {
                Shape::Unsupported => false,
                _ => true,
            },
        }
    }

    /// The message of the transformation's shape error: it names what the
    /// transformation expects of a structure.
    pub fn expectation(&self) -> (r: String)
        ensures
            r@ == expectation_text(*self),
    {
        match self {
            Transformation::AutoGetters => String::from_str(
                "AutoGetters can only be derived for structs with named fields",
            ),
            Transformation::Builder => String::from_str(
                "Builder can only be derived for structs with named fields",
            ),
            Transformation::Optional => String::from_str(
                "Optional can only be derived for structs with named and unnamed fields",
            ),
        }
    }
}

/// The message of an error of a transformation: the parser's message of a
/// syntax error, the transformation's expectation for a shape error.
pub open spec fn message_text(transformation: Transformation, error: MacroErrorView) -> Seq<char> {
    match error {
        MacroErrorView::Syntax(message) => message,
        MacroErrorView::UnsupportedShape => expectation_text(transformation),
    }
}

/// Why a transformation produced nothing.
#[derive(Clone, Debug, PartialEq, Eq)]
pub enum MacroError {
    /// The input is not a declaration; the text says why.
    Syntax(String),
    /// The structure has a shape that the transformation does not accept.
    UnsupportedShape,
}

/// The mathematical value of a [`MacroError`].
pub ghost enum MacroErrorView {
    Syntax(Seq<char>),
    UnsupportedShape,
}

impl View for MacroError {
    type V = MacroErrorView;

    open spec fn view(&self) -> MacroErrorView {
        match self {
            MacroError::Syntax(message) => MacroErrorView::Syntax(message@),
            MacroError::UnsupportedShape => MacroErrorView::UnsupportedShape,
        }
    }
}

impl MacroError {
    /// The message of the error, as an error of the given transformation.
    pub fn message(&self, transformation: Transformation) -> (r: String)
        ensures
            r@ == message_text(transformation, self@),
    {
        match self {
            MacroError::Syntax(message) => message.clone(),
            MacroError::UnsupportedShape => transformation.expectation(),
        }
    }
}

/// The view of a generated text or the error in its place.
pub open spec fn text_result_view(
    r: Result<String, MacroError>,
) -> Result<Seq<char>, MacroErrorView> {
    match r {
        Ok(text) => Ok(text@),
        Err(error) => Err(error@),
    }
}

} // verus!
