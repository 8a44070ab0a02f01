use tokio_telegraf_derive::classify::{classify_field, has_role_namespace, type_is_optional};
use tokio_telegraf_derive::generate::{add_trait_bounds, expand_metric, synthesize, synthesize_body};
use tokio_telegraf_derive::measurement::{is_measurement, resolve_measurement_name};
use tokio_telegraf_derive::model::{
    Annotation, Bound, FieldDefinition, FieldRole, GenError, GenericKind, GenericParam,
    RecordDefinition, RecordShape, Token, TypeRef,
};
use tokio_telegraf_derive::point::plan_point;

fn s(x: &str) -> String {
    x.to_string()
}

fn path_type(segments: &[&str]) -> TypeRef {
    TypeRef::Path {
        qualified_self: false,
        leading_colon: false,
        segments: segments.iter().map(|x| s(x)).collect(),
    }
}

fn role(marker: &str) -> Annotation {
    Annotation {
        path: vec![s("telegraf")],
        tokens: vec![Token::Group(vec![Token::Ident(s(marker))])],
    }
}

fn field(name: &str, ty: TypeRef, annotations: Vec<Annotation>) -> FieldDefinition {
    FieldDefinition { name: s(name), ty, annotations }
}

fn plain(name: &str) -> FieldDefinition {
    field(name, path_type(&["u64"]), vec![])
}

fn optional(name: &str, annotations: Vec<Annotation>) -> FieldDefinition {
    field(name, path_type(&["Option"]), annotations)
}

fn record(name: &str, fields: Vec<FieldDefinition>) -> RecordDefinition {
    RecordDefinition {
        name: s(name),
        shape: RecordShape::Named(fields),
        generics: vec![],
        annotations: vec![],
    }
}

fn measurement_eq(value: &str) -> Annotation {
    Annotation {
        path: vec![s("measurement")],
        tokens: vec![Token::Punct('='), Token::Str(s(value))],
    }
}

fn strings(v: &[&str]) -> Vec<String> {
    v.iter().map(|x| s(x)).collect()
}

#[test]
fn classify_tag_timestamp_and_default() {
    assert_eq!(classify_field(&field("a", path_type(&["String"]), vec![role("tag")])), Ok(FieldRole::Tag));
    assert_eq!(classify_field(&field("b", path_type(&["u64"]), vec![role("timestamp")])), Ok(FieldRole::Timestamp));
    assert_eq!(classify_field(&plain("c")), Ok(FieldRole::Field));
    assert_eq!(classify_field(&field("d", path_type(&["u64"]), vec![role("other")])), Ok(FieldRole::Field));
}

#[test]
fn classify_prefers_tag_over_timestamp() {
    let f = field("a", path_type(&["u64"]), vec![role("timestamp"), role("tag")]);
    assert_eq!(classify_field(&f), Ok(FieldRole::Tag));
}

#[test]
fn classify_reads_last_path_segment() {
    let a = Annotation {
        path: vec![s("tokio_telegraf"), s("telegraf")],
        tokens: vec![Token::Group(vec![Token::Ident(s("tag"))])],
    };
    assert!(has_role_namespace(&a));
    assert_eq!(classify_field(&field("a", path_type(&["u64"]), vec![a])), Ok(FieldRole::Tag));
    let other = Annotation { path: vec![s("serde")], tokens: vec![Token::Group(vec![Token::Ident(s("tag"))])] };
    assert!(!has_role_namespace(&other));
    assert_eq!(classify_field(&field("b", path_type(&["u64"]), vec![other])), Ok(FieldRole::Field));
}

#[test]
fn classify_ignores_non_group_or_non_ident_markers() {
    let eq = Annotation { path: vec![s("telegraf")], tokens: vec![Token::Punct('='), Token::Str(s("tag"))] };
    assert_eq!(classify_field(&field("a", path_type(&["u64"]), vec![eq])), Ok(FieldRole::Field));
    let lit = Annotation { path: vec![s("telegraf")], tokens: vec![Token::Group(vec![Token::Str(s("tag"))])] };
    assert_eq!(classify_field(&field("b", path_type(&["u64"]), vec![lit])), Ok(FieldRole::Field));
}

#[test]
fn classify_refuses_role_annotation_without_marker() {
    let bare = Annotation { path: vec![s("telegraf")], tokens: vec![] };
    assert_eq!(
        classify_field(&field("a", path_type(&["u64"]), vec![bare])),
        Err(GenError::MalformedRole(s("a")))
    );
    let empty = Annotation { path: vec![s("telegraf")], tokens: vec![Token::Group(vec![])] };
    assert_eq!(
        classify_field(&field("b", path_type(&["u64"]), vec![role("tag"), empty])),
        Err(GenError::MalformedRole(s("b")))
    );
}

#[test]
fn optional_is_detected_by_name() {
    assert!(type_is_optional(&path_type(&["Option"])));
    assert!(!type_is_optional(&path_type(&["std", "option", "Option"])));
    assert!(!type_is_optional(&path_type(&["Opt"])));
    assert!(!type_is_optional(&TypeRef::Path {
        qualified_self: false,
        leading_colon: true,
        segments: strings(&["Option"]),
    }));
    assert!(!type_is_optional(&TypeRef::Path {
        qualified_self: true,
        leading_colon: false,
        segments: strings(&["Option"]),
    }));
    assert!(!type_is_optional(&TypeRef::Other));
}

#[test]
fn measurement_defaults_to_type_name() {
    assert_eq!(resolve_measurement_name(&record("Foo", vec![])), Ok(s("Foo")));
}

#[test]
fn measurement_from_annotation() {
    let mut rec = record("Foo", vec![]);
    rec.annotations = vec![measurement_eq("bar")];
    assert_eq!(resolve_measurement_name(&rec), Ok(s("bar")));
    let mut grouped = record("Foo", vec![]);
    grouped.annotations = vec![Annotation {
        path: vec![s("measurement")],
        tokens: vec![Token::Group(vec![Token::Str(s("bar"))])],
    }];
    assert_eq!(resolve_measurement_name(&grouped), Ok(s("bar")));
}

#[test]
fn measurement_from_char_literal() {
    let mut rec = record("Foo", vec![]);
    rec.annotations = vec![Annotation { path: vec![s("measurement")], tokens: vec![Token::Punct('='), Token::Char('m')] }];
    assert_eq!(resolve_measurement_name(&rec), Ok(s("m")));
}

#[test]
fn first_measurement_annotation_wins() {
    let mut rec = record("Foo", vec![]);
    rec.annotations = vec![
        Annotation { path: vec![s("doc")], tokens: vec![] },
        measurement_eq("first"),
        measurement_eq("second"),
    ];
    assert_eq!(resolve_measurement_name(&rec), Ok(s("first")));
    assert!(is_measurement(&rec.annotations[1]));
    assert!(!is_measurement(&rec.annotations[0]));
}

#[test]
fn measurement_without_literal_is_refused() {
    let mut number = record("Foo", vec![]);
    number.annotations = vec![Annotation { path: vec![s("measurement")], tokens: vec![Token::Punct('='), Token::Literal(s("5"))] }];
    assert_eq!(resolve_measurement_name(&number), Err(GenError::MalformedMeasurement));
    let mut missing = record("Foo", vec![]);
    missing.annotations = vec![Annotation { path: vec![s("measurement")], tokens: vec![] }];
    assert_eq!(resolve_measurement_name(&missing), Err(GenError::MalformedMeasurement));
    let mut ident = record("Foo", vec![]);
    ident.annotations = vec![Annotation { path: vec![s("measurement")], tokens: vec![Token::Group(vec![Token::Ident(s("bar"))])] }];
    assert_eq!(resolve_measurement_name(&ident), Err(GenError::MalformedMeasurement));
    let mut empty_group = record("Foo", vec![]);
    empty_group.annotations = vec![Annotation { path: vec![s("measurement")], tokens: vec![Token::Group(vec![])] }];
    assert_eq!(resolve_measurement_name(&empty_group), Err(GenError::MalformedMeasurement));
    assert_eq!(expand_metric(number).err(), Some(GenError::MalformedMeasurement));
}

#[test]
fn synthesize_six_shapes() {
    let cases = vec![
        (field("a", path_type(&["String"]), vec![role("tag")]), FieldRole::Tag, false),
        (optional("b", vec![role("tag")]), FieldRole::Tag, true),
        (field("c", path_type(&["u64"]), vec![role("timestamp")]), FieldRole::Timestamp, false),
        (optional("d", vec![role("timestamp")]), FieldRole::Timestamp, true),
        (plain("e"), FieldRole::Field, false),
        (optional("f", vec![]), FieldRole::Field, true),
    ];
    for (f, r, opt) in cases {
        let st = synthesize(&f).ok().unwrap();
        assert_eq!(st.role, r);
        assert_eq!(st.optional, opt);
        assert_eq!(st.field, f.name);
    }
}

#[test]
fn body_keeps_declaration_order_and_stops_at_first_error() {
    let fields = vec![plain("z"), field("a", path_type(&["String"]), vec![role("tag")]), plain("m")];
    let body = synthesize_body(&fields).ok().unwrap();
    let names: Vec<String> = body.iter().map(|b| b.field.clone()).collect();
    assert_eq!(names, strings(&["z", "a", "m"]));
    let bad = Annotation { path: vec![s("telegraf")], tokens: vec![] };
    let fields = vec![
        plain("x"),
        field("y", path_type(&["u64"]), vec![bad]),
        field("w", path_type(&["u64"]), vec![Annotation { path: vec![s("telegraf")], tokens: vec![] }]),
    ];
    assert_eq!(synthesize_body(&fields).err(), Some(GenError::MalformedRole(s("y"))));
}

#[test]
fn plain_record_yields_every_field_in_order() {
    let m = expand_metric(record("Cpu", vec![plain("user"), plain("system"), plain("idle")])).ok().unwrap();
    assert_eq!(m.record_name, s("Cpu"));
    assert_eq!(m.measurement, s("Cpu"));
    let p = plan_point(&m.body, &vec![false, false, false]);
    assert_eq!(p.fields, strings(&["user", "system", "idle"]));
    assert!(p.tags.is_empty());
    assert_eq!(p.timestamp, None);
}

#[test]
fn tag_goes_to_tags_only() {
    let rec = record("Disk", vec![field("host", path_type(&["String"]), vec![role("tag")]), plain("used")]);
    let m = expand_metric(rec).ok().unwrap();
    let p = plan_point(&m.body, &vec![true, true]);
    assert_eq!(p.tags, strings(&["host"]));
    assert_eq!(p.fields, strings(&["used"]));
}

#[test]
fn first_timestamp_wins() {
    let rec = record(
        "Ev",
        vec![
            plain("v"),
            field("t1", path_type(&["u64"]), vec![role("timestamp")]),
            field("t2", path_type(&["u64"]), vec![role("timestamp")]),
        ],
    );
    let m = expand_metric(rec).ok().unwrap();
    let p = plan_point(&m.body, &vec![true, true, true]);
    assert_eq!(p.timestamp, Some(s("t1")));
    assert_eq!(p.fields, strings(&["v"]));
}

#[test]
fn absent_optional_timestamp_lets_next_one_set_slot() {
    let rec = record(
        "Ev",
        vec![optional("t1", vec![role("timestamp")]), field("t2", path_type(&["u64"]), vec![role("timestamp")])],
    );
    let m = expand_metric(rec).ok().unwrap();
    assert_eq!(plan_point(&m.body, &vec![false, true]).timestamp, Some(s("t2")));
    assert_eq!(plan_point(&m.body, &vec![true, true]).timestamp, Some(s("t1")));
}

#[test]
fn optional_values_round_trip() {
    let rec = record("Net", vec![optional("iface", vec![role("tag")]), optional("bytes", vec![]), plain("errs")]);
    let m = expand_metric(rec).ok().unwrap();
    let absent = plan_point(&m.body, &vec![false, false, false]);
    assert!(absent.tags.is_empty());
    assert_eq!(absent.fields, strings(&["errs"]));
    let present = plan_point(&m.body, &vec![true, true, false]);
    assert_eq!(present.tags, strings(&["iface"]));
    assert_eq!(present.fields, strings(&["bytes", "errs"]));
}

#[test]
fn explicit_measurement_overrides_name() {
    let mut rec = record("Foo", vec![plain("x")]);
    rec.annotations = vec![measurement_eq("bar")];
    let m = expand_metric(rec).ok().unwrap();
    assert_eq!(m.measurement, s("bar"));
    assert_eq!(m.record_name, s("Foo"));
}

#[test]
fn generic_type_parameter_gets_metric_bound() {
    let mut rec = record("Wrap", vec![plain("inner")]);
    rec.generics = vec![
        GenericParam { kind: GenericKind::Lifetime, name: s("a"), bounds: vec![] },
        GenericParam { kind: GenericKind::Type, name: s("T"), bounds: vec![Bound::Written(s("Clone"))] },
        GenericParam { kind: GenericKind::Const, name: s("N"), bounds: vec![] },
    ];
    let m = expand_metric(rec).ok().unwrap();
    assert_eq!(m.generics.len(), 3);
    assert!(m.generics[0].bounds.is_empty());
    assert_eq!(m.generics[1].name, s("T"));
    assert_eq!(m.generics[1].bounds.len(), 2);
    assert!(matches!(&m.generics[1].bounds[0], Bound::Written(b) if b == "Clone"));
    assert!(matches!(m.generics[1].bounds[1], Bound::Metric));
    assert!(m.generics[2].bounds.is_empty());
}

#[test]
fn add_trait_bounds_on_single_parameter() {
    let g = add_trait_bounds(vec![GenericParam { kind: GenericKind::Type, name: s("T"), bounds: vec![] }]);
    assert_eq!(g.len(), 1);
    assert_eq!(g[0].kind, GenericKind::Type);
    assert!(matches!(g[0].bounds[..], [Bound::Metric]));
    assert!(add_trait_bounds(vec![]).is_empty());
}

#[test]
fn non_record_shapes_are_refused() {
    for (shape, err) in vec![
        (RecordShape::Variants, GenError::UnsupportedDataType),
        (RecordShape::Union, GenError::UnsupportedDataType),
        (RecordShape::Positional, GenError::UnnamedFields),
        (RecordShape::Unit, GenError::UnnamedFields),
    ] {
        let rec = RecordDefinition { name: s("E"), shape, generics: vec![], annotations: vec![] };
        assert_eq!(expand_metric(rec).err(), Some(err));
    }
}

#[test]
fn malformed_role_aborts_generation() {
    let bad = Annotation { path: vec![s("telegraf")], tokens: vec![] };
    let rec = record("R", vec![plain("ok"), field("broken", path_type(&["u64"]), vec![bad])]);
    assert_eq!(expand_metric(rec).err(), Some(GenError::MalformedRole(s("broken"))));
}

#[test]
fn empty_record_generates_empty_body() {
    let m = expand_metric(record("Empty", vec![])).ok().unwrap();
    assert!(m.body.is_empty());
    let p = plan_point(&m.body, &vec![]);
    assert!(p.tags.is_empty() && p.fields.is_empty() && p.timestamp.is_none());
}
