//! Synthesis of the conversion body and of the surrounding declaration.
use vstd::prelude::*;
use crate::classify::{classify_field, is_optional, role_of, type_is_optional};
use crate::measurement::{measurement_name, resolve_measurement_name};
use crate::model::{
    Bound, FieldDefinition, FieldRole, GenError, GenericKind, GenericParam, RecordDefinition,
    RecordShape,
};

verus! {

/// One statement of the generated conversion body. With `role` and `optional` it takes
/// one of six shapes: push `(field, formatted value)` onto the tags, set the timestamp
/// if it is still unset, or push `(field, boxed value)` onto the fields; where
/// `optional`, only when the value is present, and unwrapped.
pub struct FieldStatement {
    pub role: FieldRole,
    pub field: String,
    pub optional: bool,
}

/// The generated conversion declaration for one record.
pub struct MetricImpl {
    /// The record's own name.
    pub record_name: String,
    /// The resolved measurement name.
    pub measurement: String,
    /// The record's generic parameters, with the metric bound added to each type parameter.
    pub generics: Vec<GenericParam>,
    /// One statement per field, in declaration order.
    pub body: Vec<FieldStatement>,
}

/// The statement generated for a field whose role annotations are well formed.
pub open spec fn statement_of(f: FieldDefinition) -> FieldStatement {
    FieldStatement {
        role: match role_of(f) {
            Ok(r) => r,
            Err(_) => FieldRole::Field,
        },
        field: f.name,
        optional: is_optional(f.ty),
    }
}

/// The statements generated for a list of fields, in order.
pub open spec fn body_of(fs: Seq<FieldDefinition>) -> Seq<FieldStatement> {
    fs.map_values(|f: FieldDefinition| statement_of(f))
}

/// The error of the first field, in declaration order, whose role annotations are malformed.
pub open spec fn first_role_error(fs: Seq<FieldDefinition>) -> Option<GenError>
    decreases fs.len(),
{
    if fs.len() == 0 {
        None
    } else {
        match role_of(fs[0]) {
            Err(e) => Some(e),
            Ok(_) => first_role_error(fs.drop_first()),
        }
    }
}

/// Why generation fails for a record, if it does: a malformed measurement annotation
/// first, then a shape other than named fields, then the first malformed role annotation.
pub open spec fn generation_error(rec: RecordDefinition) -> Option<GenError> {
    match measurement_name(rec) {
        Err(e) => Some(e),
        Ok(_) => match rec.shape {
            RecordShape::Named(fs) => first_role_error(fs@),
            RecordShape::Positional => Some(GenError::UnnamedFields),
            RecordShape::Unit => Some(GenError::UnnamedFields),
            RecordShape::Variants => Some(GenError::UnsupportedDataType),
            RecordShape::Union => Some(GenError::UnsupportedDataType),
        },
    }
}

/// `new` is `old` with the metric bound appended to the bounds of each type parameter.
pub open spec fn bounds_propagated(old: Seq<GenericParam>, new: Seq<GenericParam>) -> bool {
    &&& new.len() == old.len()
    &&& forall|i: int|
        0 <= i < old.len() ==> {
            &&& (#[trigger] new[i]).kind == old[i].kind
            &&& new[i].name == old[i].name
            &&& new[i].bounds@ == if old[i].kind == GenericKind::Type {
                old[i].bounds@.push(Bound::Metric)
            } else {
                old[i].bounds@
            }
        }
}

/// Synthesizes the statement of one field from its role and its optionality.
pub fn synthesize(f: &FieldDefinition) -> (r: Result<FieldStatement, GenError>)
    ensures
        match r {
            Ok(s) => role_of(*f) is Ok && s == statement_of(*f),
            Err(e) => role_of(*f) == Err::<FieldRole, GenError>(e),
        },
{
    match classify_field(f) {
        Ok(role) => Ok(FieldStatement { role, field: f.name.clone(), optional: type_is_optional(&f.ty) }),
        Err(e) => Err(e),
    }
}

/// Synthesizes the statements of all fields, in declaration order.
pub fn synthesize_body(fields: &Vec<FieldDefinition>) -> (r: Result<Vec<FieldStatement>, GenError>)
    ensures
        match r {
            Ok(body) => first_role_error(fields@) is None && body@ == body_of(fields@),
            Err(e) => first_role_error(fields@) == Some(e),
        },
{
    let mut body: Vec<FieldStatement> = Vec::new();
    let mut i: usize = 0;
    assert(fields@.subrange(0, fields@.len() as int) =~= fields@);
    while i < fields.len()
        invariant
            0 <= i <= fields@.len(),
            first_role_error(fields@) == first_role_error(fields@.subrange(i as int, fields@.len() as int)),
            body@ == body_of(fields@.subrange(0, i as int)),
        decreases fields@.len() - i,
    {
        let ghost rest = fields@.subrange(i as int, fields@.len() as int);
        assert(rest.drop_first() =~= fields@.subrange(i + 1, fields@.len() as int));
        assert(rest[0] == fields@[i as int]);
        match synthesize(&fields[i]) {
            Err(e) => {
                return Err(e);
            },
            Ok(s) => {
                body.push(s);
            },
        }
        assert(body_of(fields@.subrange(0, i + 1)) =~= body_of(fields@.subrange(0, i as int)).push(
            statement_of(fields@[i as int]),
        ));
        i = i + 1;
    }
    assert(fields@.subrange(i as int, fields@.len() as int) =~= Seq::<FieldDefinition>::empty());
    Ok(body)
}

/// Adds the metric bound to every type parameter, so that the generated code can
/// convert values of those types in turn. Lifetime and const parameters are kept as
/// they are.
pub fn add_trait_bounds(generics: Vec<GenericParam>) -> (r: Vec<GenericParam>)
    ensures
        bounds_propagated(generics@, r@),
{
    let ghost g = generics@;
    let mut rest = generics;
    let mut out: Vec<GenericParam> = Vec::new();
    while rest.len() > 0
        invariant
            out@.len() + rest@.len() == g.len(),
            rest@ == g.subrange(out@.len() as int, g.len() as int),
            bounds_propagated(g.subrange(0, out@.len() as int), out@),
        decreases rest@.len(),
    {
        let ghost k: int = out@.len() as int;
        let mut p = rest.remove(0);
        assert(p == g[k]);
        if p.kind == GenericKind::Type {
            p.bounds.push(Bound::Metric);
        }
        out.push(p);
        assert(rest@ =~= g.subrange(k + 1, g.len() as int));
        assert forall|i: int| 0 <= i < k + 1 implies {
            &&& (#[trigger] out@[i]).kind == g.subrange(0, k + 1)[i].kind
            &&& out@[i].name == g.subrange(0, k + 1)[i].name
        } by {
            if i < k {
                assert(g.subrange(0, k)[i] == g.subrange(0, k + 1)[i]);
            }
        }
        assert forall|i: int| 0 <= i < k + 1 implies (#[trigger] out@[i]).bounds@ == if g.subrange(0, k + 1)[i].kind
            == GenericKind::Type {
            g.subrange(0, k + 1)[i].bounds@.push(Bound::Metric)
        } else {
            g.subrange(0, k + 1)[i].bounds@
        } by {
            if i < k {
                assert(g.subrange(0, k)[i] == g.subrange(0, k + 1)[i]);
            }
        }
    }
    assert(g.subrange(0, g.len() as int) =~= g);
    out
}

/// Generates the conversion declaration for a record: its measurement name, its
/// generics with the metric bound added, and one statement per field in declaration
/// order. Enums, unions and structs without named fields are refused.
pub fn expand_metric(rec: RecordDefinition) -> (r: Result<MetricImpl, GenError>)
    ensures
        r is Err <==> generation_error(rec) is Some,
        !(rec.shape is Named) ==> r is Err,
        match r {
            Ok(m) => {
                &&& m.record_name == rec.name
                &&& measurement_name(rec) == Ok::<Seq<char>, GenError>(m.measurement@)
                &&& bounds_propagated(rec.generics@, m.generics@)
                &&& rec.shape matches RecordShape::Named(fs) && m.body@ == body_of(fs@)
            },
            Err(e) => generation_error(rec) == Some(e),
        },
{
    let measurement = match resolve_measurement_name(&rec) {
        Ok(s) => s,
        Err(e) => {
            return Err(e);
        },
    };
    let RecordDefinition { name, shape, generics, annotations: _ } = rec;
    let generics = add_trait_bounds(generics);
    match shape {
        RecordShape::Named(fields) => match synthesize_body(&fields) {
            Ok(body) => Ok(MetricImpl { record_name: name, measurement, generics, body }),
            Err(e) => Err(e),
        },
        RecordShape::Positional => Err(GenError::UnnamedFields),
        RecordShape::Unit => Err(GenError::UnnamedFields),
        RecordShape::Variants => Err(GenError::UnsupportedDataType),
        RecordShape::Union => Err(GenError::UnsupportedDataType),
    }
}

} // verus!
