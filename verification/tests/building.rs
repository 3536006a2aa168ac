use derive_builder::descriptor::{
    AnnotationShape, AnnotationToken, FieldDescriptor, SourceLocation, TypeDesc,
};
use derive_builder::fragments::CodeFragmentBundle;
use derive_builder::generate::generate;
use derive_builder::runtime::{apply_setter, init_builder, run_build, BuiltValue};

#[derive(Debug, PartialEq, Clone)]
enum Val {
    S(String),
    L(Vec<String>),
}

fn s(text: &str) -> Val {
    Val::S(text.to_string())
}

fn loc(marker: usize) -> SourceLocation {
    SourceLocation { marker }
}

fn plain(repr: &str) -> TypeDesc {
    TypeDesc::Plain { repr: repr.to_string() }
}

fn optional(inner: TypeDesc) -> TypeDesc {
    TypeDesc::Optional { inner: Box::new(inner) }
}

fn collection(inner: TypeDesc) -> TypeDesc {
    TypeDesc::Collection { inner: Box::new(inner) }
}

fn each_annotation(value: &str, marker: usize) -> AnnotationToken {
    AnnotationToken {
        shape: AnnotationShape::StrAssign { key: "each".to_string(), value: value.to_string() },
        loc: loc(marker),
    }
}

fn field(name: &str, ty: TypeDesc, annotations: Vec<AnnotationToken>, marker: usize)
    -> FieldDescriptor {
    FieldDescriptor { name: name.to_string(), ty, annotations, loc: loc(marker) }
}

fn command_bundle() -> CodeFragmentBundle {
    let fields = vec![
        field("executable", plain("String"), vec![], 0),
        field("args", collection(plain("String")), vec![each_annotation("arg", 10)], 1),
        field("env", collection(plain("String")), vec![], 2),
        field("current_dir", optional(plain("String")), vec![], 3),
    ];
    generate(&"Command".to_string(), &fields).unwrap()
}

#[test]
fn command_scenario_builds_the_expected_record() {
    let b = command_bundle();
    let mut st = init_builder::<Val>(&b);
    apply_setter(&mut st, &b, 0, s("ls"));
    apply_setter(&mut st, &b, 1, s("-l"));
    apply_setter(&mut st, &b, 1, s("-a"));
    apply_setter(&mut st, &b, 2, Val::L(vec!["X=1".to_string()]));
    let rec = run_build(&mut st, &b).unwrap();
    assert_eq!(
        rec.fields,
        vec![
            BuiltValue::One { value: s("ls") },
            BuiltValue::Sequence { values: vec![s("-l"), s("-a")] },
            BuiltValue::One { value: Val::L(vec!["X=1".to_string()]) },
            BuiltValue::Maybe { value: None },
        ]
    );
}

#[test]
fn command_scenario_without_executable_fails_identifying_it() {
    let b = command_bundle();
    let mut st = init_builder::<Val>(&b);
    apply_setter(&mut st, &b, 1, s("-l"));
    apply_setter(&mut st, &b, 2, Val::L(vec!["X=1".to_string()]));
    let e = run_build(&mut st, &b).unwrap_err();
    assert_eq!(e.field, "executable");
    assert_eq!(e.message(), "field `executable` was not set");
}

#[test]
fn every_setter_once_builds_the_direct_record() {
    let fields = vec![
        field("host", plain("String"), vec![], 0),
        field("port", optional(plain("u16")), vec![], 1),
    ];
    let b = generate(&"Endpoint".to_string(), &fields).unwrap();
    let mut st = init_builder::<Val>(&b);
    apply_setter(&mut st, &b, 0, s("localhost"));
    apply_setter(&mut st, &b, 1, s("8080"));
    let rec = run_build(&mut st, &b).unwrap();
    assert_eq!(
        rec.fields,
        vec![
            BuiltValue::One { value: s("localhost") },
            BuiltValue::Maybe { value: Some(s("8080")) },
        ]
    );
}

#[test]
fn appended_elements_come_out_in_order() {
    let fields = vec![field(
        "args",
        collection(plain("String")),
        vec![each_annotation("arg", 1)],
        0,
    )];
    let b = generate(&"Cmd".to_string(), &fields).unwrap();
    let mut st = init_builder::<Val>(&b);
    apply_setter(&mut st, &b, 0, s("one"));
    apply_setter(&mut st, &b, 0, s("two"));
    apply_setter(&mut st, &b, 0, s("three"));
    let rec = run_build(&mut st, &b).unwrap();
    assert_eq!(
        rec.fields,
        vec![BuiltValue::Sequence { values: vec![s("one"), s("two"), s("three")] }]
    );
}

#[test]
fn zero_appends_yield_an_empty_sequence_not_a_failure() {
    let fields = vec![field(
        "args",
        collection(plain("String")),
        vec![each_annotation("arg", 1)],
        0,
    )];
    let b = generate(&"Cmd".to_string(), &fields).unwrap();
    let mut st = init_builder::<Val>(&b);
    let rec = run_build(&mut st, &b).unwrap();
    assert_eq!(rec.fields, vec![BuiltValue::Sequence { values: vec![] }]);
}

#[test]
fn omitted_required_field_fails_and_yields_no_record() {
    let fields = vec![
        field("first", plain("String"), vec![], 0),
        field("second", plain("String"), vec![], 1),
    ];
    let b = generate(&"Pair".to_string(), &fields).unwrap();
    let mut st = init_builder::<Val>(&b);
    apply_setter(&mut st, &b, 0, s("present"));
    let r = run_build(&mut st, &b);
    let e = r.unwrap_err();
    assert_eq!(e.field, "second");
}

#[test]
fn omitted_optional_field_builds_with_it_empty() {
    let fields = vec![
        field("host", plain("String"), vec![], 0),
        field("port", optional(plain("u16")), vec![], 1),
    ];
    let b = generate(&"Endpoint".to_string(), &fields).unwrap();
    let mut st = init_builder::<Val>(&b);
    apply_setter(&mut st, &b, 0, s("localhost"));
    let rec = run_build(&mut st, &b).unwrap();
    assert_eq!(
        rec.fields,
        vec![
            BuiltValue::One { value: s("localhost") },
            BuiltValue::Maybe { value: None },
        ]
    );
}

#[test]
fn overwriting_a_setter_keeps_only_the_second_value() {
    let fields = vec![
        field("host", plain("String"), vec![], 0),
        field("port", optional(plain("u16")), vec![], 1),
    ];
    let b = generate(&"Endpoint".to_string(), &fields).unwrap();
    let mut st = init_builder::<Val>(&b);
    apply_setter(&mut st, &b, 0, s("first"));
    apply_setter(&mut st, &b, 0, s("second"));
    apply_setter(&mut st, &b, 1, s("1"));
    apply_setter(&mut st, &b, 1, s("2"));
    let rec = run_build(&mut st, &b).unwrap();
    assert_eq!(
        rec.fields,
        vec![
            BuiltValue::One { value: s("second") },
            BuiltValue::Maybe { value: Some(s("2")) },
        ]
    );
}

#[test]
fn build_drains_the_builder_state() {
    let b = command_bundle();
    let mut st = init_builder::<Val>(&b);
    apply_setter(&mut st, &b, 0, s("ls"));
    apply_setter(&mut st, &b, 1, s("-l"));
    apply_setter(&mut st, &b, 2, Val::L(vec![]));
    assert!(run_build(&mut st, &b).is_ok());
    let e = run_build(&mut st, &b).unwrap_err();
    assert_eq!(e.field, "executable");
}

#[test]
fn failed_build_keeps_later_slots() {
    let b = command_bundle();
    let mut st = init_builder::<Val>(&b);
    apply_setter(&mut st, &b, 1, s("-l"));
    apply_setter(&mut st, &b, 2, Val::L(vec![]));
    assert!(run_build(&mut st, &b).is_err());
    apply_setter(&mut st, &b, 0, s("ls"));
    apply_setter(&mut st, &b, 2, Val::L(vec![]));
    let rec = run_build(&mut st, &b).unwrap();
    assert_eq!(
        rec.fields,
        vec![
            BuiltValue::One { value: s("ls") },
            BuiltValue::Sequence { values: vec![s("-l")] },
            BuiltValue::One { value: Val::L(vec![]) },
            BuiltValue::Maybe { value: None },
        ]
    );
}
