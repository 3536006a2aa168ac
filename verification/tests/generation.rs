use derive_builder::classify::{classify_field, plan_field};
use derive_builder::descriptor::{
    AnnotationShape, AnnotationState, AnnotationToken, Diagnostic, DiagnosticKind,
    FieldDescriptor, FieldStrategy, SourceLocation, TypeDesc,
};
use derive_builder::fragments::{FinalizeAction, InitValue, SetterKind};
use derive_builder::generate::generate;
use derive_builder::validate::validate_annotations;

fn loc(marker: usize) -> SourceLocation {
    SourceLocation { marker }
}

fn plain(repr: &str) -> TypeDesc {
    TypeDesc::Plain { repr: repr.to_string() }
}

fn optional(inner: TypeDesc) -> TypeDesc {
    TypeDesc::Optional { inner: Box::new(inner) }
}

fn collection(inner: TypeDesc) -> TypeDesc {
    TypeDesc::Collection { inner: Box::new(inner) }
}

fn each_annotation(value: &str, marker: usize) -> AnnotationToken {
    AnnotationToken {
        shape: AnnotationShape::StrAssign { key: "each".to_string(), value: value.to_string() },
        loc: loc(marker),
    }
}

fn field(name: &str, ty: TypeDesc, annotations: Vec<AnnotationToken>, marker: usize)
    -> FieldDescriptor {
    FieldDescriptor { name: name.to_string(), ty, annotations, loc: loc(marker) }
}

#[test]
fn no_annotation_is_absent() {
    assert_eq!(validate_annotations(&vec![]), Ok(AnnotationState::Absent));
}

#[test]
fn each_assignment_is_recognized() {
    let tokens = vec![each_annotation("arg", 7)];
    assert_eq!(
        validate_annotations(&tokens),
        Ok(AnnotationState::Each { name: "arg".to_string() })
    );
}

#[test]
fn wrong_key_is_malformed() {
    let tokens = vec![AnnotationToken {
        shape: AnnotationShape::StrAssign { key: "eac".to_string(), value: "arg".to_string() },
        loc: loc(3),
    }];
    assert_eq!(
        validate_annotations(&tokens),
        Err(Diagnostic { kind: DiagnosticKind::MalformedAnnotation, loc: loc(3) })
    );
}

#[test]
fn bare_word_is_malformed() {
    let tokens = vec![AnnotationToken {
        shape: AnnotationShape::Bare { word: "eac".to_string() },
        loc: loc(4),
    }];
    assert_eq!(
        validate_annotations(&tokens),
        Err(Diagnostic { kind: DiagnosticKind::MalformedAnnotation, loc: loc(4) })
    );
}

#[test]
fn list_shape_is_malformed() {
    let tokens = vec![AnnotationToken { shape: AnnotationShape::List, loc: loc(5) }];
    assert_eq!(
        validate_annotations(&tokens),
        Err(Diagnostic { kind: DiagnosticKind::MalformedAnnotation, loc: loc(5) })
    );
}

#[test]
fn non_string_each_assignment_is_passed_over() {
    let tokens = vec![AnnotationToken {
        shape: AnnotationShape::OtherAssign { key: "each".to_string() },
        loc: loc(6),
    }];
    assert_eq!(validate_annotations(&tokens), Ok(AnnotationState::Absent));
}

#[test]
fn non_string_other_assignment_is_malformed() {
    let tokens = vec![AnnotationToken {
        shape: AnnotationShape::OtherAssign { key: "env".to_string() },
        loc: loc(8),
    }];
    assert_eq!(
        validate_annotations(&tokens),
        Err(Diagnostic { kind: DiagnosticKind::MalformedAnnotation, loc: loc(8) })
    );
}

#[test]
fn malformed_message_text() {
    let d = Diagnostic { kind: DiagnosticKind::MalformedAnnotation, loc: loc(0) };
    assert_eq!(d.message(), "expected `builder(each = \"...\")`");
}

#[test]
fn plain_field_is_required() {
    let r = classify_field(&plain("String"), &AnnotationState::Absent, loc(1));
    assert_eq!(r, Ok(FieldStrategy::Required { ty: plain("String") }));
}

#[test]
fn optional_field_is_already_optional() {
    let r = classify_field(&optional(plain("String")), &AnnotationState::Absent, loc(1));
    assert_eq!(r, Ok(FieldStrategy::AlreadyOptional { inner: plain("String") }));
}

#[test]
fn collection_without_each_is_required() {
    let r = classify_field(&collection(plain("String")), &AnnotationState::Absent, loc(1));
    assert_eq!(r, Ok(FieldStrategy::Required { ty: collection(plain("String")) }));
}

#[test]
fn each_on_collection_is_accumulating() {
    let ann = AnnotationState::Each { name: "arg".to_string() };
    let r = classify_field(&collection(plain("String")), &ann, loc(1));
    assert_eq!(
        r,
        Ok(FieldStrategy::Accumulating { appender: "arg".to_string(), inner: plain("String") })
    );
}

#[test]
fn each_on_non_collection_is_a_diagnostic() {
    let ann = AnnotationState::Each { name: "arg".to_string() };
    let r = classify_field(&plain("String"), &ann, loc(9));
    assert_eq!(
        r,
        Err(Diagnostic { kind: DiagnosticKind::EachRequiresCollection, loc: loc(9) })
    );
    let d = r.unwrap_err();
    assert_eq!(d.message(), "`each` requires a collection-typed field");
}

#[test]
fn each_on_optional_is_a_diagnostic_through_plan() {
    let f = field(
        "names",
        optional(plain("String")),
        vec![each_annotation("name", 12)],
        11,
    );
    assert_eq!(
        plan_field(&f),
        Err(Diagnostic { kind: DiagnosticKind::EachRequiresCollection, loc: loc(11) })
    );
}

#[test]
fn generated_bundle_for_command_record() {
    let fields = vec![
        field("executable", plain("String"), vec![], 0),
        field("args", collection(plain("String")), vec![each_annotation("arg", 10)], 1),
        field("env", collection(plain("String")), vec![], 2),
        field("current_dir", optional(plain("String")), vec![], 3),
    ];
    let b = generate(&"Command".to_string(), &fields).unwrap();

    assert_eq!(b.builder_type.name, "CommandBuilder");
    assert_eq!(b.builder_initializer.builder_name, "CommandBuilder");
    assert_eq!(b.finalizer.record_name, "Command");

    let names: Vec<&str> = b.builder_type.fields.iter().map(|f| f.name.as_str()).collect();
    assert_eq!(names, vec!["executable", "args", "env", "current_dir"]);

    assert_eq!(b.builder_type.fields[0].ty, optional(plain("String")));
    assert_eq!(b.builder_type.fields[1].ty, collection(plain("String")));
    assert_eq!(b.builder_type.fields[2].ty, optional(collection(plain("String"))));
    assert_eq!(b.builder_type.fields[3].ty, optional(plain("String")));

    let inits: Vec<InitValue> = b.builder_initializer.fields.iter().map(|f| f.value).collect();
    assert_eq!(
        inits,
        vec![
            InitValue::EmptyOptional,
            InitValue::EmptySequence,
            InitValue::EmptyOptional,
            InitValue::EmptyOptional,
        ]
    );

    let setter_names: Vec<&str> =
        b.field_setters.iter().map(|s| s.method_name.as_str()).collect();
    assert_eq!(setter_names, vec!["executable", "arg", "env", "current_dir"]);
    assert_eq!(b.field_setters[1].field_name, "args");
    assert_eq!(b.field_setters[1].kind, SetterKind::Append);
    assert_eq!(b.field_setters[1].param_type, plain("String"));
    assert_eq!(b.field_setters[2].kind, SetterKind::Assign);
    assert_eq!(b.field_setters[2].param_type, collection(plain("String")));
    assert_eq!(b.field_setters[3].param_type, plain("String"));

    let actions: Vec<FinalizeAction> = b.finalizer.fields.iter().map(|f| f.action).collect();
    assert_eq!(
        actions,
        vec![
            FinalizeAction::TakeRequired,
            FinalizeAction::DrainSequence,
            FinalizeAction::TakeRequired,
            FinalizeAction::TakeOptional,
        ]
    );
}

#[test]
fn generation_of_empty_record() {
    let b = generate(&"Unit".to_string(), &vec![]).unwrap();
    assert_eq!(b.builder_type.name, "UnitBuilder");
    assert!(b.builder_type.fields.is_empty());
    assert!(b.field_setters.is_empty());
}

#[test]
fn malformed_annotation_fails_generation_despite_valid_fields() {
    let fields = vec![
        field("alpha", plain("String"), vec![], 0),
        field(
            "beta",
            collection(plain("String")),
            vec![AnnotationToken {
                shape: AnnotationShape::Bare { word: "eac".to_string() },
                loc: loc(21),
            }],
            1,
        ),
        field("gamma", optional(plain("String")), vec![], 2),
    ];
    let r = generate(&"Conf".to_string(), &fields);
    assert_eq!(
        r,
        Err(Diagnostic { kind: DiagnosticKind::MalformedAnnotation, loc: loc(21) })
    );
}

#[test]
fn first_diagnostic_wins() {
    let fields = vec![
        field("first", plain("u64"), vec![each_annotation("one", 31)], 30),
        field(
            "second",
            plain("u64"),
            vec![AnnotationToken {
                shape: AnnotationShape::Bare { word: "x".to_string() },
                loc: loc(33),
            }],
            32,
        ),
    ];
    let r = generate(&"Pair".to_string(), &fields);
    assert_eq!(
        r,
        Err(Diagnostic { kind: DiagnosticKind::EachRequiresCollection, loc: loc(30) })
    );
}

#[test]
fn shape_queries() {
    assert!(optional(plain("u8")).is_option_wrapper());
    assert!(!optional(plain("u8")).is_collection_wrapper());
    assert!(collection(plain("u8")).is_collection_wrapper());
    assert!(!plain("u8").is_option_wrapper());
    let copy = collection(plain("u8")).clone();
    assert_eq!(copy, collection(plain("u8")));
}

#[test]
fn inner_type_extraction() {
    let o = optional(plain("u8"));
    assert_eq!(o.option_inner(), Some(&plain("u8")));
    assert_eq!(o.collection_inner(), None);
    let c = collection(optional(plain("u8")));
    assert_eq!(c.collection_inner(), Some(&optional(plain("u8"))));
    assert_eq!(c.option_inner(), None);
    assert_eq!(plain("u8").option_inner(), None);
}
