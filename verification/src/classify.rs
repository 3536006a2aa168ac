//! The field classifier: chooses a construction strategy for one field from
//! its declared type shape and its validated annotation state, and nothing
//! else.
//!
//! The annotation is consulted first: an `each` annotation demands the
//! collection wrapper and yields `Accumulating`; on any other type shape it
//! is a diagnostic, not a silent fallback. Without an annotation, the
//! optional wrapper yields `AlreadyOptional` and every other type yields
//! `Required` — in particular, a collection-typed field without `each` is
//! `Required`, so its whole value must be supplied at build time.

use vstd::prelude::*;
use crate::descriptor::{
    AnnotationState, Diagnostic, DiagnosticKind, FieldDescriptor, FieldStrategy, SourceLocation,
    TypeDesc,
};
use crate::validate::{spec_validate, validate_annotations};

verus! {

/// The mathematical account of classification: the strategy (or diagnostic)
/// for any type shape and annotation state. `field_loc` locates the
/// diagnostic raised when `each` is used on a non-collection field.
pub open spec fn spec_classify(
    ty: TypeDesc,
    ann: AnnotationState,
    field_loc: SourceLocation,
) -> Result<FieldStrategy, Diagnostic> {
    match ann {
        AnnotationState::Each { name } => match ty {
            TypeDesc::Collection { inner } => Ok(
                FieldStrategy::Accumulating { appender: name, inner: *inner },
            ),
            _ => Err(Diagnostic { kind: DiagnosticKind::EachRequiresCollection, loc: field_loc }),
        },
        AnnotationState::Absent => match ty {
            TypeDesc::Optional { inner } => Ok(FieldStrategy::AlreadyOptional { inner: *inner }),
            _ => Ok(FieldStrategy::Required { ty }),
        },
    }
}

/// Classify one field from its declared type shape and validated annotation
/// state.
pub fn classify_field(ty: &TypeDesc, ann: &AnnotationState, field_loc: SourceLocation) -> (r:
    Result<FieldStrategy, Diagnostic>)
    ensures
        r == spec_classify(*ty, *ann, field_loc),
{
    match ann {
        AnnotationState::Each { name } => match ty {
            TypeDesc::Collection { inner } => Ok(
                FieldStrategy::Accumulating { appender: name.clone(), inner: (**inner).clone() },
            ),
            _ => Err(Diagnostic { kind: DiagnosticKind::EachRequiresCollection, loc: field_loc }),
        },
        AnnotationState::Absent => match ty {
            TypeDesc::Optional { inner } => Ok(
                FieldStrategy::AlreadyOptional { inner: (**inner).clone() },
            ),
            _ => Ok(FieldStrategy::Required { ty: ty.clone() }),
        },
    }
}

/// The full per-field pipeline, validation then classification: the strategy
/// a well-formed field gets, or the first diagnostic its description raises.
pub open spec fn spec_plan(f: FieldDescriptor) -> Result<FieldStrategy, Diagnostic> {
    match spec_validate(f.annotations@) {
        Ok(ann) => spec_classify(f.ty, ann, f.loc),
        Err(d) => Err(d),
    }
}

/// Validate one field's annotations and classify it.
pub fn plan_field(f: &FieldDescriptor) -> (r: Result<FieldStrategy, Diagnostic>)
    ensures
        r == spec_plan(*f),
{
    match validate_annotations(&f.annotations) {
        Ok(ann) => classify_field(&f.ty, &ann, f.loc),
        Err(d) => Err(d),
    }
}

/// One field with its chosen strategy: what the synthesizers work from.
#[derive(Debug, PartialEq, Eq)]
pub struct FieldPlan {
    pub name: String,
    pub loc: SourceLocation,
    pub strategy: FieldStrategy,
}

/// The plan a well-formed field gets: its name and position together with
/// its strategy. Meaningful only where `spec_plan` succeeds on the field.
pub open spec fn plan_of(f: FieldDescriptor) -> FieldPlan {
    FieldPlan { name: f.name, loc: f.loc, strategy: spec_plan(f)->Ok_0 }
}

/// Plan every field, in declaration order, stopping at the first field whose
/// description raises a diagnostic.
pub fn plan_fields(fields: &Vec<FieldDescriptor>) -> (r: Result<Vec<FieldPlan>, Diagnostic>)
    ensures
        (match r {
            Ok(plans) => {
                &&& plans@.len() == fields@.len()
                &&& forall|i: int|
                    0 <= i < fields@.len() ==> #[trigger] spec_plan(fields@[i]) is Ok
                &&& forall|i: int|
                    0 <= i < fields@.len() ==> #[trigger] plans@[i] == plan_of(fields@[i])
            },
            Err(d) => exists|j: int|
                {
                    &&& 0 <= j < fields@.len()
                    &&& #[trigger] spec_plan(fields@[j]) == Err::<FieldStrategy, Diagnostic>(d)
                    &&& forall|i: int| 0 <= i < j ==> spec_plan(fields@[i]) is Ok
                },
        }),
{
    let mut plans: Vec<FieldPlan> = Vec::new();
    let mut i: usize = 0;
    while i < fields.len()
        invariant
            0 <= i <= fields@.len(),
            plans@.len() == i,
            forall|k: int| 0 <= k < i ==> #[trigger] spec_plan(fields@[k]) is Ok,
            forall|k: int| 0 <= k < i ==> #[trigger] plans@[k] == plan_of(fields@[k]),
        decreases fields@.len() - i,
    {
        match plan_field(&fields[i]) {
            Ok(s) => {
                plans.push(
                    FieldPlan { name: fields[i].name.clone(), loc: fields[i].loc, strategy: s },
                );
            },
            Err(d) => {
                proof {
                    assert(spec_plan(fields@[i as int]) == Err::<FieldStrategy, Diagnostic>(d));
                }
                return Err(d);
            },
        }
        i = i + 1;
    }
    Ok(plans)
}

} // verus!
