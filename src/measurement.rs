//! Resolution of the measurement name of a record.
use vstd::prelude::*;
use crate::model::{Annotation, GenError, RecordDefinition, Token};
use crate::text::text_is;

verus! {

/// An annotation whose path is the single segment `measurement`.
pub open spec fn is_measurement_annotation(a: Annotation) -> bool {
    a.path@.len() == 1 && a.path@[0]@ == "measurement"@
}

/// The first measurement annotation of a list, if any.
pub open spec fn first_measurement(anns: Seq<Annotation>) -> Option<Annotation>
    decreases anns.len(),
{
    if anns.len() == 0 {
        None
    } else if is_measurement_annotation(anns[0]) {
        Some(anns[0])
    } else {
        first_measurement(anns.drop_first())
    }
}

/// The argument token of a measurement annotation: the first token inside the group
/// where the tokens are one group (`measurement("cpu")`), else the second token
/// (`measurement = "cpu"`).
pub open spec fn measurement_argument(a: Annotation) -> Option<Token> {
    let t = a.tokens@;
    if t.len() == 1 && t[0] is Group {
        let inner = t[0]->Group_0@;
        if inner.len() > 0 {
            Some(inner[0])
        } else {
            None
        }
    } else if t.len() >= 2 {
        Some(t[1])
    } else {
        None
    }
}

/// The text of a string or character literal token.
pub open spec fn literal_text(t: Token) -> Option<Seq<char>> {
    match t {
        Token::Str(s) => Some(s@),
        Token::Char(c) => Some(seq![c]),
        _ => None,
    }
}

/// The measurement name of a record: the literal argument of its first measurement
/// annotation, or the record's own name where it has none.
pub open spec fn measurement_name(rec: RecordDefinition) -> Result<Seq<char>, GenError> {
    match first_measurement(rec.annotations@) {
        None => Ok(rec.name@),
        Some(a) => match measurement_argument(a) {
            Some(t) => match literal_text(t) {
                Some(s) => Ok(s),
                None => Err(GenError::MalformedMeasurement),
            },
            None => Err(GenError::MalformedMeasurement),
        },
    }
}

/// Whether an annotation is a measurement annotation.
pub fn is_measurement(a: &Annotation) -> (r: bool)
    ensures
        r == is_measurement_annotation(*a),
{
    a.path.len() == 1 && text_is(&a.path[0], "measurement")
}

/// Relies on `ToString` for `char`: the string of that one character.
#[verifier::external_body]
fn char_text(c: char) -> (r: String)
    ensures
        r@ == seq![c],
{
    c.to_string()
}

/// The literal text of a measurement annotation's argument.
fn argument_text(a: &Annotation) -> (r: Result<String, GenError>)
    ensures
        match r {
            Ok(s) => measurement_argument(*a) matches Some(t) && literal_text(t) == Some(s@),
            Err(e) => e == GenError::MalformedMeasurement && !(measurement_argument(*a) matches Some(t)
                && literal_text(t) is Some),
        },
{
    let t = &a.tokens;
    let arg: &Token = if t.len() == 1 && matches!(t[0], Token::Group(_)) {
        match &t[0] {
            Token::Group(inner) => {
                if inner.len() > 0 {
                    &inner[0]
                } else {
                    return Err(GenError::MalformedMeasurement);
                }
            },
            _ => {
                return Err(GenError::MalformedMeasurement);
            },
        }
    } else if t.len() >= 2 {
        &t[1]
    } else {
        return Err(GenError::MalformedMeasurement);
    };
    match arg {
        Token::Str(s) => Ok(s.clone()),
        Token::Char(c) => {
            Ok(char_text(*c))
        },
        _ => Err(GenError::MalformedMeasurement),
    }
}

/// Resolves the measurement name of a record, once, from its type-level annotations.
pub fn resolve_measurement_name(rec: &RecordDefinition) -> (r: Result<String, GenError>)
    ensures
        match r {
            Ok(s) => measurement_name(*rec) == Ok::<Seq<char>, GenError>(s@),
            Err(e) => measurement_name(*rec) == Err::<Seq<char>, GenError>(e),
        },
{
    let anns = &rec.annotations;
    let mut i: usize = 0;
    assert(anns@.subrange(0, anns@.len() as int) =~= anns@);
    while i < anns.len()
        invariant
            0 <= i <= anns@.len(),
            anns == rec.annotations,
            first_measurement(anns@) == first_measurement(anns@.subrange(i as int, anns@.len() as int)),
        decreases anns@.len() - i,
    {
        let ghost rest = anns@.subrange(i as int, anns@.len() as int);
        assert(rest.drop_first() =~= anns@.subrange(i + 1, anns@.len() as int));
        if is_measurement(&anns[i]) {
            return argument_text(&anns[i]);
        }
        i = i + 1;
    }
    assert(anns@.subrange(i as int, anns@.len() as int) =~= Seq::<Annotation>::empty());
    Ok(rec.name.clone())
}

} // verus!
