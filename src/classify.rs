//! Field-role classification and the optional-wrapper check.
use vstd::prelude::*;
use crate::model::{Annotation, FieldDefinition, FieldRole, GenError, Token, TypeRef};
use crate::text::text_is;

verus! {

/// An annotation in the role namespace: the last segment of its path is `telegraf`.
pub open spec fn is_role_annotation(a: Annotation) -> bool {
    a.path@.len() > 0 && a.path@.last()@ == "telegraf"@
}

/// A role annotation without a marker: no tokens at all, or an empty group first.
pub open spec fn is_malformed_role(a: Annotation) -> bool {
    &&& is_role_annotation(a)
    &&& (a.tokens@.len() == 0 || (a.tokens@[0] matches Token::Group(inner) && inner@.len() == 0))
}

/// A role annotation whose first token is a group that opens with the identifier `marker`.
pub open spec fn marks(a: Annotation, marker: Seq<char>) -> bool {
    &&& is_role_annotation(a)
    &&& a.tokens@.len() > 0
    &&& a.tokens@[0] matches Token::Group(inner)
    &&& inner@.len() > 0
    &&& inner@[0] matches Token::Ident(id)
    &&& id@ == marker
}

pub open spec fn tag_marker() -> Seq<char> {
    "tag"@
}

pub open spec fn timestamp_marker() -> Seq<char> {
    "timestamp"@
}

/// The role of a field: an error if any of its role annotations is malformed; else
/// `Tag` if one marks it a tag; else `Timestamp` if one marks it a timestamp; else `Field`.
pub open spec fn role_of(f: FieldDefinition) -> Result<FieldRole, GenError> {
    let anns = f.annotations@;
    if exists|i: int| 0 <= i < anns.len() && is_malformed_role(#[trigger] anns[i]) {
        Err(GenError::MalformedRole(f.name))
    } else if exists|i: int| 0 <= i < anns.len() && marks(#[trigger] anns[i], tag_marker()) {
        Ok(FieldRole::Tag)
    } else if exists|i: int| 0 <= i < anns.len() && marks(#[trigger] anns[i], timestamp_marker()) {
        Ok(FieldRole::Timestamp)
    } else {
        Ok(FieldRole::Field)
    }
}

/// A single-segment path named `Option`, neither qualified nor rooted at `::`.
/// The check goes by the name alone: an alias of the wrapper is not recognised.
pub open spec fn is_optional(t: TypeRef) -> bool {
    &&& t matches TypeRef::Path { qualified_self, leading_colon, segments }
    &&& !qualified_self
    &&& !leading_colon
    &&& segments@.len() == 1
    &&& segments@[0]@ == "Option"@
}

/// Whether an annotation is in the role namespace.
pub fn has_role_namespace(a: &Annotation) -> (r: bool)
    ensures
        r == is_role_annotation(*a),
{
    let n = a.path.len();
    if n == 0 {
        false
    } else {
        text_is(&a.path[n - 1], "telegraf")
    }
}

/// What one annotation says of a field's role: `Err` where it is a malformed role
/// annotation, else whether it marks the field a tag and whether a timestamp.
fn annotation_markers(a: &Annotation, f: &FieldDefinition) -> (r: Result<(bool, bool), GenError>)
    ensures
        match r {
            Ok((tag, ts)) => {
                &&& !is_malformed_role(*a)
                &&& tag == marks(*a, tag_marker())
                &&& ts == marks(*a, timestamp_marker())
            },
            Err(e) => is_malformed_role(*a) && e == GenError::MalformedRole(f.name),
        },
{
    if !has_role_namespace(a) {
        return Ok((false, false));
    }
    if a.tokens.len() == 0 {
        return Err(GenError::MalformedRole(f.name.clone()));
    }
    match &a.tokens[0] {
        Token::Group(inner) => {
            if inner.len() == 0 {
                Err(GenError::MalformedRole(f.name.clone()))
            } else {
                match &inner[0] {
                    Token::Ident(id) => Ok((text_is(id, "tag"), text_is(id, "timestamp"))),
                    _ => Ok((false, false)),
                }
            }
        },
        _ => Ok((false, false)),
    }
}

/// Classifies a field by its annotations, tag before timestamp before field.
/// A role annotation without a marker is refused rather than defaulted.
pub fn classify_field(f: &FieldDefinition) -> (r: Result<FieldRole, GenError>)
    ensures
        r == role_of(*f),
{
    let anns = &f.annotations;
    let mut tag = false;
    let mut ts = false;
    let mut i: usize = 0;
    while i < anns.len()
        invariant
            0 <= i <= anns@.len(),
            anns == f.annotations,
            forall|j: int| 0 <= j < i ==> !is_malformed_role(#[trigger] anns@[j]),
            tag == exists|j: int| 0 <= j < i && marks(#[trigger] anns@[j], tag_marker()),
            ts == exists|j: int| 0 <= j < i && marks(#[trigger] anns@[j], timestamp_marker()),
        decreases anns@.len() - i,
    {
        match annotation_markers(&anns[i], f) {
            Err(e) => {
                return Err(e);
            },
            Ok((t, s)) => {
                proof {
                    if tag || t {
                        if t {
                            assert(marks(anns@[i as int], tag_marker()));
                        }
                    }
                    if ts || s {
                        if s {
                            assert(marks(anns@[i as int], timestamp_marker()));
                        }
                    }
                }
                tag = tag || t;
                ts = ts || s;
                assert(tag == exists|j: int| 0 <= j < i + 1 && marks(#[trigger] anns@[j], tag_marker()));
                assert(ts == exists|j: int| 0 <= j < i + 1 && marks(#[trigger] anns@[j], timestamp_marker()));
            },
        }
        i = i + 1;
    }
    if tag {
        Ok(FieldRole::Tag)
    } else if ts {
        Ok(FieldRole::Timestamp)
    } else {
        Ok(FieldRole::Field)
    }
}

/// Whether a declared type is the optional wrapper, by name.
pub fn type_is_optional(t: &TypeRef) -> (r: bool)
    ensures
        r == is_optional(*t),
{
    match t {
        TypeRef::Path { qualified_self, leading_colon, segments } => {
            !*qualified_self && !*leading_colon && segments.len() == 1 && text_is(&segments[0], "Option")
        },
        TypeRef::Other => false,
    }
}

} // verus!
