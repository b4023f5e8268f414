//! What a front end hands over: the attributes it read, and the description of
//! the type to parse into, with its fields or its variants.

use crate::expr::Expr;
use vstd::prelude::*;

verus! {

/// A literal in an attribute.
#[derive(Debug, PartialEq, Eq)]
pub enum Lit {
    /// A string literal, by its value.
    Str(String),
    /// A literal of any other kind.
    Other,
}

/// One entry between the parentheses of an attribute.
#[derive(Debug, PartialEq, Eq)]
pub enum Arg {
    /// `name = literal`
    NameValue { name: String, value: Lit },
    /// Anything else: a bare word, a bare literal, a nested list.
    Other,
}

/// An attribute, by its name. `args` holds the entries of `name(..)`, and is
/// `None` for an attribute of another form (`name`, `name = literal`).
#[derive(Debug, PartialEq, Eq)]
pub struct Attribute {
    pub name: String,
    pub args: Option<Vec<Arg>>,
}

/// What the attributes of a field say.
#[derive(Debug, PartialEq, Eq)]
pub struct FieldAttributes {
    /// The text of the construction expression, where the field has one.
    pub construct_with: Option<String>,
}

/// A field of the type to parse into.
#[derive(Debug, PartialEq, Eq)]
pub struct Field {
    /// The field's name; `None` for a positional field.
    pub ident: Option<String>,
    /// The field's declared type, as written.
    pub ty: String,
    /// The construction expression, where the field has one.
    pub construct_with: Option<Expr>,
}

/// The fields of a struct or of a variant.
#[derive(Debug, PartialEq, Eq)]
pub enum Fields {
    Named(Vec<Field>),
    Unnamed(Vec<Field>),
    Unit,
}

/// One alternative of a sum type.
#[derive(Debug, PartialEq, Eq)]
pub struct Variant {
    pub ident: String,
    /// The variant's own pattern, where it has one.
    pub regex: Option<String>,
    pub fields: Fields,
}

/// The body of the type to parse into.
#[derive(Debug, PartialEq, Eq)]
pub enum Data {
    Struct(Fields),
    Enum(Vec<Variant>),
    Union,
}

/// The type to parse into.
#[derive(Debug, PartialEq, Eq)]
pub struct DeriveInput {
    pub ident: String,
    /// The pattern given for the type as a whole, where there is one.
    pub regex: Option<String>,
    pub data: Data,
}

/// The shapes that a type can have.
#[derive(Clone, Copy, Debug, PartialEq, Eq, Structural)]
pub enum DataType {
    Struct,
    TupleStruct,
    UnitStruct,
    Enum,
    Union,
}

/// The views of a list of strings, in order.
pub open spec fn texts(v: Vec<String>) -> Seq<Seq<char>> {
    Seq::new(v.len() as nat, |i: int| v[i]@)
}

/// The view of an optional string.
pub open spec fn opt_text(o: Option<String>) -> Option<Seq<char>> {
    match o {
        Some(s) => Some(s@),
        None => None,
    }
}

/// The views of an optional list of strings.
pub open spec fn opt_texts(o: Option<Vec<String>>) -> Option<Seq<Seq<char>>> {
    match o {
        Some(v) => Some(texts(v)),
        None => None,
    }
}

} // verus!
