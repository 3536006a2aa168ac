//! The output side of the engine: the abstract code fragments it emits. A
//! host renderer turns these into compilable source text; the engine itself
//! never produces text.

use vstd::prelude::*;
use crate::descriptor::{SourceLocation, TypeDesc};

verus! {

/// One field of the auxiliary builder type: the record field's name and the
/// storage type chosen for it.
#[derive(Debug, PartialEq, Eq)]
pub struct BuilderField {
    pub name: String,
    pub ty: TypeDesc,
    pub loc: SourceLocation,
}

/// The auxiliary type definition: its derived name and its fields, in the
/// record's declaration order.
#[derive(Debug, PartialEq, Eq)]
pub struct BuilderTypeDef {
    pub name: String,
    pub fields: Vec<BuilderField>,
}

/// The starting value of one builder field.
#[derive(Clone, Copy, PartialEq, Eq, Structural, Debug)]
pub enum InitValue {
    EmptyOptional,
    EmptySequence,
}

/// One field's starting assignment in the builder's zero-argument
/// constructor.
#[derive(Debug, PartialEq, Eq)]
pub struct InitField {
    pub name: String,
    pub value: InitValue,
    pub loc: SourceLocation,
}

/// The builder's zero-argument constructor: one starting value per field, in
/// declaration order.
#[derive(Debug, PartialEq, Eq)]
pub struct InitializerDef {
    pub builder_name: String,
    pub fields: Vec<InitField>,
}

/// How a setter stores its argument: overwriting the whole slot, or
/// appending one element to the accumulated sequence.
#[derive(Clone, Copy, PartialEq, Eq, Structural, Debug)]
pub enum SetterKind {
    Assign,
    Append,
}

/// One accessor of the builder type. For `Assign` setters the method is
/// named after the field; for `Append` setters it carries the
/// annotation-supplied name, which need not coincide with the field's.
#[derive(Debug, PartialEq, Eq)]
pub struct SetterDef {
    pub method_name: String,
    pub field_name: String,
    pub param_type: TypeDesc,
    pub kind: SetterKind,
    pub loc: SourceLocation,
}

/// What the finalizer does with one field's storage: take a value that must
/// be present, take the stored optional as-is, or drain the accumulated
/// sequence.
#[derive(Clone, Copy, PartialEq, Eq, Structural, Debug)]
pub enum FinalizeAction {
    TakeRequired,
    TakeOptional,
    DrainSequence,
}

/// One field's step in the finalizer, in declaration order.
#[derive(Debug, PartialEq, Eq)]
pub struct FinalizeField {
    pub name: String,
    pub action: FinalizeAction,
    pub loc: SourceLocation,
}

/// The finalizer: the `build` operation that converts builder storage into
/// the target record, field by field, or fails on the first required field
/// that was never set.
#[derive(Debug, PartialEq, Eq)]
pub struct FinalizerDef {
    pub record_name: String,
    pub fields: Vec<FinalizeField>,
}

/// The engine's sole output: the four coordinated artifacts that together
/// implement the builder pattern for one record type.
#[derive(Debug, PartialEq, Eq)]
pub struct CodeFragmentBundle {
    pub builder_type: BuilderTypeDef,
    pub builder_initializer: InitializerDef,
    pub field_setters: Vec<SetterDef>,
    pub finalizer: FinalizerDef,
}

/// The four artifacts agree at field position `i`: they name the same field
/// and their storage-handling kinds belong to the same strategy.
pub open spec fn fragments_agree_at(b: CodeFragmentBundle, i: int) -> bool {
    let storage = b.builder_type.fields@[i];
    let init = b.builder_initializer.fields@[i];
    let setter = b.field_setters@[i];
    let fin = b.finalizer.fields@[i];
    &&& init.name@ == storage.name@
    &&& setter.field_name@ == storage.name@
    &&& fin.name@ == storage.name@
    &&& (setter.kind is Assign <==> init.value is EmptyOptional)
    &&& (setter.kind is Append <==> fin.action is DrainSequence)
}

/// A coherent bundle: the four artifacts list the same fields, in the same
/// order, and agree at every position.
pub open spec fn bundle_wf(b: CodeFragmentBundle) -> bool {
    let n = b.builder_type.fields@.len();
    &&& b.builder_initializer.fields@.len() == n
    &&& b.field_setters@.len() == n
    &&& b.finalizer.fields@.len() == n
    &&& forall|i: int| 0 <= i < n ==> #[trigger] fragments_agree_at(b, i)
}

} // verus!
