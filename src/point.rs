//! What the generated conversion body puts into a metric point, and the laws it obeys.
use vstd::prelude::*;
use crate::classify::{is_optional, is_role_annotation, role_of};
use crate::generate::{body_of, first_role_error, generation_error, statement_of, FieldStatement};
use crate::measurement::{first_measurement, measurement_argument, measurement_name};
use crate::model::{FieldDefinition, FieldRole, GenError, RecordDefinition, Token};

verus! {

/// The entries that running a generated body produces, by the name of the field each
/// value came from: the tag keys and the field keys in order, and the field that set
/// the timestamp.
pub struct PointPlan {
    pub tags: Vec<String>,
    pub fields: Vec<String>,
    pub timestamp: Option<String>,
}

/// Whether a statement acts: a plain field always does, an optional one only when present.
pub open spec fn contributes(s: FieldStatement, present: bool) -> bool {
    !s.optional || present
}

/// The keys that a body pushes onto the sequence of the given role, in order.
pub open spec fn keys_for(body: Seq<FieldStatement>, present: Seq<bool>, role: FieldRole) -> Seq<String>
    decreases body.len(),
{
    if body.len() == 0 {
        seq![]
    } else {
        let rest = keys_for(body.drop_last(), present.drop_last(), role);
        let s = body.last();
        if s.role == role && contributes(s, present.last()) {
            rest.push(s.field)
        } else {
            rest
        }
    }
}

/// The field that sets the timestamp: the slot is only set while it is still empty.
pub open spec fn timestamp_key(body: Seq<FieldStatement>, present: Seq<bool>) -> Option<String>
    decreases body.len(),
{
    if body.len() == 0 {
        None
    } else {
        let prev = timestamp_key(body.drop_last(), present.drop_last());
        let s = body.last();
        if prev is Some {
            prev
        } else if s.role == FieldRole::Timestamp && contributes(s, present.last()) {
            Some(s.field)
        } else {
            None
        }
    }
}

/// How often `x` occurs in `s`.
pub open spec fn count(s: Seq<String>, x: String) -> nat
    decreases s.len(),
{
    if s.len() == 0 {
        0
    } else {
        count(s.drop_last(), x) + if s.last() == x {
            1nat
        } else {
            0nat
        }
    }
}

/// Runs a generated body over a record value, where `present[i]` tells whether the
/// value of the i-th statement's field is present (it is ignored for plain fields).
pub fn plan_point(body: &Vec<FieldStatement>, present: &Vec<bool>) -> (r: PointPlan)
    requires
        body@.len() == present@.len(),
    ensures
        r.tags@ == keys_for(body@, present@, FieldRole::Tag),
        r.fields@ == keys_for(body@, present@, FieldRole::Field),
        r.timestamp == timestamp_key(body@, present@),
{
    let mut tags: Vec<String> = Vec::new();
    let mut fields: Vec<String> = Vec::new();
    let mut timestamp: Option<String> = None;
    let mut i: usize = 0;
    while i < body.len()
        invariant
            body@.len() == present@.len(),
            0 <= i <= body@.len(),
            tags@ == keys_for(body@.subrange(0, i as int), present@.subrange(0, i as int), FieldRole::Tag),
            fields@ == keys_for(body@.subrange(0, i as int), present@.subrange(0, i as int), FieldRole::Field),
            timestamp == timestamp_key(body@.subrange(0, i as int), present@.subrange(0, i as int)),
        decreases body@.len() - i,
    {
        let ghost b = body@.subrange(0, i + 1);
        let ghost p = present@.subrange(0, i + 1);
        assert(b.drop_last() =~= body@.subrange(0, i as int));
        assert(p.drop_last() =~= present@.subrange(0, i as int));
        let s = &body[i];
        if !s.optional || present[i] {
            match s.role {
                FieldRole::Tag => {
                    tags.push(s.field.clone());
                },
                FieldRole::Field => {
                    fields.push(s.field.clone());
                },
                FieldRole::Timestamp => {
                    if timestamp.is_none() {
                        timestamp = Some(s.field.clone());
                    }
                },
            }
        }
        i = i + 1;
    }
    assert(body@.subrange(0, i as int) =~= body@);
    assert(present@.subrange(0, i as int) =~= present@);
    PointPlan { tags, fields, timestamp }
}

proof fn lemma_count_push(s: Seq<String>, a: String, x: String)
    ensures
        count(s.push(a), x) == count(s, x) + if a == x {
            1nat
        } else {
            0nat
        },
{
    assert(s.push(a).drop_last() =~= s);
}

proof fn lemma_count_absent(body: Seq<FieldStatement>, present: Seq<bool>, role: FieldRole, x: String)
    requires
        forall|j: int| 0 <= j < body.len() ==> (#[trigger] body[j]).field != x,
    ensures
        count(keys_for(body, present, role), x) == 0,
    decreases body.len(),
{
    if body.len() > 0 {
        lemma_count_absent(body.drop_last(), present.drop_last(), role, x);
        lemma_count_push(keys_for(body.drop_last(), present.drop_last(), role), body.last().field, x);
    }
}

proof fn lemma_count_unique(body: Seq<FieldStatement>, present: Seq<bool>, role: FieldRole, i: int)
    requires
        body.len() == present.len(),
        0 <= i < body.len(),
        forall|j: int| 0 <= j < body.len() && j != i ==> (#[trigger] body[j]).field != body[i].field,
    ensures
        count(keys_for(body, present, role), body[i].field) == if body[i].role == role && contributes(
            body[i],
            present[i],
        ) {
            1nat
        } else {
            0nat
        },
    decreases body.len(),
{
    let x = body[i].field;
    let b = body.drop_last();
    let p = present.drop_last();
    lemma_count_push(keys_for(b, p, role), body.last().field, x);
    if i == body.len() - 1 {
        lemma_count_absent(b, p, role, x);
    } else {
        assert(b[i] == body[i]);
        assert forall|j: int| 0 <= j < b.len() && j != i implies (#[trigger] b[j]).field != b[i].field by {
            assert(b[j] == body[j]);
        }
        lemma_count_unique(b, p, role, i);
    }
}

proof fn lemma_timestamp_none(body: Seq<FieldStatement>, present: Seq<bool>)
    requires
        body.len() == present.len(),
        forall|j: int|
            0 <= j < body.len() ==> !((#[trigger] body[j]).role == FieldRole::Timestamp && contributes(
                body[j],
                present[j],
            )),
    ensures
        timestamp_key(body, present) is None,
    decreases body.len(),
{
    if body.len() > 0 {
        let b = body.drop_last();
        let p = present.drop_last();
        assert forall|j: int|
            0 <= j < b.len() implies !((#[trigger] b[j]).role == FieldRole::Timestamp && contributes(
            b[j],
            p[j],
        )) by {
            assert(b[j] == body[j] && p[j] == present[j]);
        }
        lemma_timestamp_none(b, p);
        assert(!(body[body.len() - 1].role == FieldRole::Timestamp && contributes(body[body.len() - 1], present[body.len() - 1])));
    }
}

proof fn lemma_timestamp_first(body: Seq<FieldStatement>, present: Seq<bool>, i: int)
    requires
        body.len() == present.len(),
        0 <= i < body.len(),
        body[i].role == FieldRole::Timestamp && contributes(body[i], present[i]),
        forall|j: int|
            0 <= j < i ==> !((#[trigger] body[j]).role == FieldRole::Timestamp && contributes(
                body[j],
                present[j],
            )),
    ensures
        timestamp_key(body, present) == Some(body[i].field),
    decreases body.len(),
{
    let b = body.drop_last();
    let p = present.drop_last();
    if i == body.len() - 1 {
        assert forall|j: int|
            0 <= j < b.len() implies !((#[trigger] b[j]).role == FieldRole::Timestamp && contributes(
            b[j],
            p[j],
        )) by {
            assert(b[j] == body[j] && p[j] == present[j]);
        }
        lemma_timestamp_none(b, p);
    } else {
        assert(b[i] == body[i] && p[i] == present[i]);
        assert forall|j: int|
            0 <= j < i implies !((#[trigger] b[j]).role == FieldRole::Timestamp && contributes(
            b[j],
            p[j],
        )) by {
            assert(b[j] == body[j] && p[j] == present[j]);
        }
        lemma_timestamp_first(b, p, i);
    }
}

proof fn lemma_no_role_error(fs: Seq<FieldDefinition>)
    requires
        forall|i: int| 0 <= i < fs.len() ==> role_of(#[trigger] fs[i]) is Ok,
    ensures
        first_role_error(fs) is None,
    decreases fs.len(),
{
    if fs.len() > 0 {
        assert(role_of(fs[0]) is Ok);
        assert forall|i: int| 0 <= i < fs.drop_first().len() implies role_of(#[trigger] fs.drop_first()[i]) is Ok by {
            assert(fs.drop_first()[i] == fs[i + 1]);
        }
        lemma_no_role_error(fs.drop_first());
    }
}

proof fn lemma_plain_keys(body: Seq<FieldStatement>, present: Seq<bool>)
    requires
        body.len() == present.len(),
        forall|i: int| 0 <= i < body.len() ==> (#[trigger] body[i]).role == FieldRole::Field && !body[i].optional,
    ensures
        keys_for(body, present, FieldRole::Field) == body.map_values(|s: FieldStatement| s.field),
        keys_for(body, present, FieldRole::Tag) == Seq::<String>::empty(),
    decreases body.len(),
{
    if body.len() > 0 {
        let b = body.drop_last();
        assert forall|i: int| 0 <= i < b.len() implies (#[trigger] b[i]).role == FieldRole::Field && !b[i].optional by {
            assert(b[i] == body[i]);
        }
        lemma_plain_keys(b, present.drop_last());
        assert(body.map_values(|s: FieldStatement| s.field) =~= b.map_values(|s: FieldStatement| s.field).push(
            body.last().field,
        ));
    }
}

/// The names of a record's fields are pairwise distinct, as in any well-formed record.
pub open spec fn names_distinct(fs: Seq<FieldDefinition>) -> bool {
    forall|j: int, k: int| 0 <= j < fs.len() && 0 <= k < fs.len() && j != k ==> fs[j].name != fs[k].name
}

/// The fields of a record with named fields.
pub open spec fn named_fields(rec: RecordDefinition) -> Seq<FieldDefinition> {
    rec.shape->Named_0@
}

/// A record whose fields are all plain (none is optional) and carry no role annotation
/// is generated, and the point of any of its values holds every field once, as a field
/// entry, in declaration order; its tag sequence is empty and its timestamp unset.
pub proof fn plain_record_law(rec: RecordDefinition, present: Seq<bool>)
    requires
        rec.shape is Named,
        measurement_name(rec) is Ok,
        forall|i: int| 0 <= i < named_fields(rec).len() ==> !is_optional(#[trigger] named_fields(rec)[i].ty),
        forall|i: int, j: int|
            0 <= i < named_fields(rec).len() && 0 <= j < named_fields(rec)[i].annotations@.len()
                ==> !is_role_annotation(#[trigger] named_fields(rec)[i].annotations@[j]),
        present.len() == named_fields(rec).len(),
    ensures
        generation_error(rec) is None,
        keys_for(body_of(named_fields(rec)), present, FieldRole::Field) == named_fields(rec).map_values(
            |f: FieldDefinition| f.name,
        ),
        keys_for(body_of(named_fields(rec)), present, FieldRole::Tag) == Seq::<String>::empty(),
        timestamp_key(body_of(named_fields(rec)), present) is None,
{
    let fs = named_fields(rec);
    let body = body_of(fs);
    assert forall|i: int| 0 <= i < fs.len() implies role_of(#[trigger] fs[i]) == Ok::<FieldRole, GenError>(FieldRole::Field) by {
        let anns = fs[i].annotations@;
        assert forall|j: int| 0 <= j < anns.len() implies !is_role_annotation(#[trigger] anns[j]) by {
            assert(!is_role_annotation(named_fields(rec)[i].annotations@[j]));
        }
    }
    lemma_no_role_error(fs);
    assert forall|i: int| 0 <= i < body.len() implies (#[trigger] body[i]).role == FieldRole::Field && !body[i].optional by {
        assert(body[i] == statement_of(fs[i]));
        assert(role_of(fs[i]) == Ok::<FieldRole, GenError>(FieldRole::Field));
        assert(!is_optional(named_fields(rec)[i].ty));
    }
    lemma_plain_keys(body, present);
    assert(body.map_values(|s: FieldStatement| s.field) =~= fs.map_values(|f: FieldDefinition| f.name));
    lemma_timestamp_none(body, present);
}

/// A field marked as a tag never yields a field entry, and yields exactly one tag
/// entry (its value formatted as a string) where it is plain or its value is present,
/// none where its optional value is absent.
pub proof fn tag_law(fs: Seq<FieldDefinition>, present: Seq<bool>, i: int)
    requires
        names_distinct(fs),
        present.len() == fs.len(),
        0 <= i < fs.len(),
        role_of(fs[i]) == Ok::<FieldRole, GenError>(FieldRole::Tag),
    ensures
        count(keys_for(body_of(fs), present, FieldRole::Field), fs[i].name) == 0,
        count(keys_for(body_of(fs), present, FieldRole::Tag), fs[i].name) == if !is_optional(fs[i].ty)
            || present[i] {
            1nat
        } else {
            0nat
        },
{
    let body = body_of(fs);
    assert forall|j: int| 0 <= j < body.len() && j != i implies (#[trigger] body[j]).field != body[i].field by {
        assert(body[j] == statement_of(fs[j]));
    }
    lemma_count_unique(body, present, FieldRole::Field, i);
    lemma_count_unique(body, present, FieldRole::Tag, i);
}

/// Of the fields marked as timestamps, the first in declaration order that holds a
/// value sets the timestamp; every later one is ignored.
pub proof fn first_timestamp_law(fs: Seq<FieldDefinition>, present: Seq<bool>, i: int)
    requires
        present.len() == fs.len(),
        0 <= i < fs.len(),
        role_of(fs[i]) == Ok::<FieldRole, GenError>(FieldRole::Timestamp),
        !is_optional(fs[i].ty) || present[i],
        forall|j: int|
            0 <= j < i ==> !(role_of(#[trigger] fs[j]) == Ok::<FieldRole, GenError>(
                FieldRole::Timestamp,
            ) && (!is_optional(fs[j].ty) || present[j])),
    ensures
        timestamp_key(body_of(fs), present) == Some(fs[i].name),
{
    let body = body_of(fs);
    assert forall|j: int|
        0 <= j < i implies !((#[trigger] body[j]).role == FieldRole::Timestamp && contributes(
        body[j],
        present[j],
    )) by {
        assert(body[j] == statement_of(fs[j]));
        assert(!(role_of(fs[j]) == Ok::<FieldRole, GenError>(FieldRole::Timestamp) && (
        !is_optional(fs[j].ty) || present[j])));
    }
    lemma_timestamp_first(body, present, i);
}

/// An optional tag or field contributes nothing to its sequence when its value is
/// absent, and exactly one entry when it is present.
pub proof fn optional_round_trip_law(fs: Seq<FieldDefinition>, present: Seq<bool>, i: int, role: FieldRole)
    requires
        names_distinct(fs),
        present.len() == fs.len(),
        0 <= i < fs.len(),
        is_optional(fs[i].ty),
        role != FieldRole::Timestamp,
        role_of(fs[i]) == Ok::<FieldRole, GenError>(role),
    ensures
        count(keys_for(body_of(fs), present, role), fs[i].name) == if present[i] {
            1nat
        } else {
            0nat
        },
{
    let body = body_of(fs);
    assert forall|j: int| 0 <= j < body.len() && j != i implies (#[trigger] body[j]).field != body[i].field by {
        assert(body[j] == statement_of(fs[j]));
    }
    lemma_count_unique(body, present, role, i);
}

/// A record without a measurement annotation is measured under its own name.
pub proof fn default_measurement_law(rec: RecordDefinition)
    requires
        first_measurement(rec.annotations@) is None,
    ensures
        measurement_name(rec) == Ok::<Seq<char>, GenError>(rec.name@),
{
}

/// A record whose first measurement annotation holds the string literal `s` is measured
/// under `s`, whatever the record's own name.
pub proof fn explicit_measurement_law(rec: RecordDefinition, s: String)
    requires
        first_measurement(rec.annotations@) matches Some(a) && measurement_argument(a) == Some(
            Token::Str(s),
        ),
    ensures
        measurement_name(rec) == Ok::<Seq<char>, GenError>(s@),
{
}

} // verus!
