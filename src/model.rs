//! The record definitions that the generator reads, and what it produces.
use vstd::prelude::*;

verus! {

/// One token of an annotation's argument list, as a token tree.
pub enum Token {
    /// An identifier such as `tag`.
    Ident(String),
    /// A punctuation character such as `=`.
    Punct(char),
    /// A string literal, held by its value.
    Str(String),
    /// A character literal, held by its value.
    Char(char),
    /// Any other literal (a number, a byte string), held by its source text.
    Literal(String),
    /// A delimited group and the tokens inside it.
    Group(Vec<Token>),
}

/// An annotation (`#[path tokens]`) on a type or a field.
pub struct Annotation {
    /// The segments of the annotation's path (`telegraf`, `measurement`).
    pub path: Vec<String>,
    /// The tokens that follow the path.
    pub tokens: Vec<Token>,
}

/// The declared type of a field, as far as the generator looks at it.
pub enum TypeRef {
    /// A path type such as `Option<u64>` or `std::string::String`.
    Path {
        /// Whether the path has a qualified self type (`<T as Trait>::X`).
        qualified_self: bool,
        /// Whether the path starts with `::`.
        leading_colon: bool,
        /// The identifiers of the path's segments, without generic arguments.
        segments: Vec<String>,
    },
    /// Any other type: a reference, a tuple, an array, a pointer.
    Other,
}

/// One named member of a record.
pub struct FieldDefinition {
    pub name: String,
    pub ty: TypeRef,
    pub annotations: Vec<Annotation>,
}

/// The shape of the type that the generator is asked to process.
pub enum RecordShape {
    /// A struct with named fields, in declaration order.
    Named(Vec<FieldDefinition>),
    /// A tuple struct.
    Positional,
    /// A struct without fields.
    Unit,
    /// An enum.
    Variants,
    /// A union.
    Union,
}

/// The kind of a generic parameter.
#[derive(PartialEq, Eq, Structural, Clone, Copy, Debug)]
pub enum GenericKind {
    Type,
    Lifetime,
    Const,
}

/// A bound on a generic parameter.
pub enum Bound {
    /// The capability of converting into a metric point.
    Metric,
    /// A bound written in the source, by its text.
    Written(String),
}

/// A generic parameter of the record, with its bounds in order.
pub struct GenericParam {
    pub kind: GenericKind,
    pub name: String,
    pub bounds: Vec<Bound>,
}

/// The annotated record type as the host read it.
pub struct RecordDefinition {
    pub name: String,
    pub shape: RecordShape,
    pub generics: Vec<GenericParam>,
    pub annotations: Vec<Annotation>,
}

/// The role a field plays in the metric point.
#[derive(PartialEq, Eq, Structural, Clone, Copy, Debug)]
pub enum FieldRole {
    /// A string-valued key/value pair of the tag sequence.
    Tag,
    /// The source of the point's timestamp.
    Timestamp,
    /// A typed key/value pair of the field sequence.
    Field,
}

/// Why generation was refused.
#[derive(PartialEq, Eq, Debug)]
pub enum GenError {
    /// The type is an enum or a union.
    UnsupportedDataType,
    /// The struct has positional fields or none.
    UnnamedFields,
    /// The `measurement` annotation holds no string or character literal.
    MalformedMeasurement,
    /// A `telegraf` annotation on the named field holds no marker.
    MalformedRole(String),
}

} // verus!
