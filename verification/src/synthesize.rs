//! The four fragment synthesizers. Each one maps the planned fields, in
//! declaration order, to one artifact of the bundle: the builder type's
//! field list, the zero-argument initializer, the per-field setters and
//! appenders, and the finalizer steps.

use vstd::prelude::*;
use crate::classify::FieldPlan;
use crate::descriptor::{FieldStrategy, TypeDesc};
use crate::fragments::{
    BuilderField, BuilderTypeDef, FinalizeAction, FinalizeField, FinalizerDef, InitField,
    InitializerDef, InitValue, SetterDef, SetterKind,
};

verus! {

/// The builder field one planned record field gets: a required field is
/// stored behind a fresh optional wrapper, an already-optional field keeps
/// its declared type unchanged (no double wrapping), and an accumulating
/// field is stored as the collection it was declared as.
pub open spec fn storage_of(p: FieldPlan) -> BuilderField {
    match p.strategy {
        FieldStrategy::Required { ty } => BuilderField {
            name: p.name,
            ty: TypeDesc::Optional { inner: Box::new(ty) },
            loc: p.loc,
        },
        FieldStrategy::AlreadyOptional { inner } => BuilderField {
            name: p.name,
            ty: TypeDesc::Optional { inner: Box::new(inner) },
            loc: p.loc,
        },
        FieldStrategy::Accumulating { appender, inner } => BuilderField {
            name: p.name,
            ty: TypeDesc::Collection { inner: Box::new(inner) },
            loc: p.loc,
        },
    }
}

/// The starting value one planned field gets: an empty optional for both
/// single-value strategies, an empty sequence for an accumulating field.
pub open spec fn init_of(p: FieldPlan) -> InitField {
    match p.strategy {
        FieldStrategy::Accumulating { appender, inner } => InitField {
            name: p.name,
            value: InitValue::EmptySequence,
            loc: p.loc,
        },
        _ => InitField { name: p.name, value: InitValue::EmptyOptional, loc: p.loc },
    }
}

/// The accessor one planned field gets: single-value fields get an
/// overwriting setter named after the field, taking the unwrapped value
/// type; accumulating fields get an appender named by the annotation, taking
/// one element of the inner type.
pub open spec fn setter_of(p: FieldPlan) -> SetterDef {
    match p.strategy {
        FieldStrategy::Required { ty } => SetterDef {
            method_name: p.name,
            field_name: p.name,
            param_type: ty,
            kind: SetterKind::Assign,
            loc: p.loc,
        },
        FieldStrategy::AlreadyOptional { inner } => SetterDef {
            method_name: p.name,
            field_name: p.name,
            param_type: inner,
            kind: SetterKind::Assign,
            loc: p.loc,
        },
        FieldStrategy::Accumulating { appender, inner } => SetterDef {
            method_name: appender,
            field_name: p.name,
            param_type: inner,
            kind: SetterKind::Append,
            loc: p.loc,
        },
    }
}

/// The finalizer step one planned field gets: a required field's value is
/// taken and must be present, an already-optional field's stored optional is
/// taken as-is, and an accumulating field's sequence is drained.
pub open spec fn finalize_of(p: FieldPlan) -> FinalizeField {
    match p.strategy {
        FieldStrategy::Required { ty } => FinalizeField {
            name: p.name,
            action: FinalizeAction::TakeRequired,
            loc: p.loc,
        },
        FieldStrategy::AlreadyOptional { inner } => FinalizeField {
            name: p.name,
            action: FinalizeAction::TakeOptional,
            loc: p.loc,
        },
        FieldStrategy::Accumulating { appender, inner } => FinalizeField {
            name: p.name,
            action: FinalizeAction::DrainSequence,
            loc: p.loc,
        },
    }
}

/// Emit the auxiliary type definition under the given derived name.
pub fn synth_builder_type(builder_name: String, plans: &Vec<FieldPlan>) -> (r: BuilderTypeDef)
    ensures
        r.name == builder_name,
        r.fields@.len() == plans@.len(),
        forall|i: int| 0 <= i < plans@.len() ==> #[trigger] r.fields@[i] == storage_of(plans@[i]),
{
    let mut out: Vec<BuilderField> = Vec::new();
    let mut i: usize = 0;
    while i < plans.len()
        invariant
            0 <= i <= plans@.len(),
            out@.len() == i,
            forall|k: int| 0 <= k < i ==> #[trigger] out@[k] == storage_of(plans@[k]),
        decreases plans@.len() - i,
    {
        let p = &plans[i];
        let ty = match &p.strategy {
            FieldStrategy::Required { ty } => TypeDesc::Optional { inner: Box::new(ty.clone()) },
            FieldStrategy::AlreadyOptional { inner } => TypeDesc::Optional {
                inner: Box::new(inner.clone()),
            },
            FieldStrategy::Accumulating { appender, inner } => TypeDesc::Collection {
                inner: Box::new(inner.clone()),
            },
        };
        out.push(BuilderField { name: p.name.clone(), ty, loc: p.loc });
        i = i + 1;
    }
    BuilderTypeDef { name: builder_name, fields: out }
}

/// Emit the zero-argument constructor for the auxiliary type.
pub fn synth_initializer(builder_name: String, plans: &Vec<FieldPlan>) -> (r: InitializerDef)
    ensures
        r.builder_name == builder_name,
        r.fields@.len() == plans@.len(),
        forall|i: int| 0 <= i < plans@.len() ==> #[trigger] r.fields@[i] == init_of(plans@[i]),
{
    let mut out: Vec<InitField> = Vec::new();
    let mut i: usize = 0;
    while i < plans.len()
        invariant
            0 <= i <= plans@.len(),
            out@.len() == i,
            forall|k: int| 0 <= k < i ==> #[trigger] out@[k] == init_of(plans@[k]),
        decreases plans@.len() - i,
    {
        let p = &plans[i];
        let value = match &p.strategy {
            FieldStrategy::Accumulating { .. } => InitValue::EmptySequence,
            _ => InitValue::EmptyOptional,
        };
        out.push(InitField { name: p.name.clone(), value, loc: p.loc });
        i = i + 1;
    }
    InitializerDef { builder_name, fields: out }
}

/// Emit one accessor per field, in declaration order.
pub fn synth_setters(plans: &Vec<FieldPlan>) -> (r: Vec<SetterDef>)
    ensures
        r@.len() == plans@.len(),
        forall|i: int| 0 <= i < plans@.len() ==> #[trigger] r@[i] == setter_of(plans@[i]),
{
    let mut out: Vec<SetterDef> = Vec::new();
    let mut i: usize = 0;
    while i < plans.len()
        invariant
            0 <= i <= plans@.len(),
            out@.len() == i,
            forall|k: int| 0 <= k < i ==> #[trigger] out@[k] == setter_of(plans@[k]),
        decreases plans@.len() - i,
    {
        let p = &plans[i];
        let setter = match &p.strategy {
            FieldStrategy::Required { ty } => SetterDef {
                method_name: p.name.clone(),
                field_name: p.name.clone(),
                param_type: ty.clone(),
                kind: SetterKind::Assign,
                loc: p.loc,
            },
            FieldStrategy::AlreadyOptional { inner } => SetterDef {
                method_name: p.name.clone(),
                field_name: p.name.clone(),
                param_type: inner.clone(),
                kind: SetterKind::Assign,
                loc: p.loc,
            },
            FieldStrategy::Accumulating { appender, inner } => SetterDef {
                method_name: appender.clone(),
                field_name: p.name.clone(),
                param_type: inner.clone(),
                kind: SetterKind::Append,
                loc: p.loc,
            },
        };
        out.push(setter);
        i = i + 1;
    }
    out
}

/// Emit the finalizer that assembles the given record type.
pub fn synth_finalizer(record_name: String, plans: &Vec<FieldPlan>) -> (r: FinalizerDef)
    ensures
        r.record_name == record_name,
        r.fields@.len() == plans@.len(),
        forall|i: int| 0 <= i < plans@.len() ==> #[trigger] r.fields@[i] == finalize_of(plans@[i]),
{
    let mut out: Vec<FinalizeField> = Vec::new();
    let mut i: usize = 0;
    while i < plans.len()
        invariant
            0 <= i <= plans@.len(),
            out@.len() == i,
            forall|k: int| 0 <= k < i ==> #[trigger] out@[k] == finalize_of(plans@[k]),
        decreases plans@.len() - i,
    {
        let p = &plans[i];
        let action = match &p.strategy {
            FieldStrategy::Required { .. } => FinalizeAction::TakeRequired,
            FieldStrategy::AlreadyOptional { .. } => FinalizeAction::TakeOptional,
            FieldStrategy::Accumulating { .. } => FinalizeAction::DrainSequence,
        };
        out.push(FinalizeField { name: p.name.clone(), action, loc: p.loc });
        i = i + 1;
    }
    FinalizerDef { record_name, fields: out }
}

} // verus!
