//! The orchestrator: one generation pass for one record type. It plans every
//! field (validation, then classification), stops at the first diagnostic,
//! and otherwise composes the four synthesizers into the final fragment
//! bundle. The auxiliary type's name is the record's name with a fixed
//! suffix.

use vstd::prelude::*;
use vstd::string::StringExecFns;
use crate::classify::{plan_fields, plan_of, spec_plan};
use crate::descriptor::{Diagnostic, FieldDescriptor, FieldStrategy};
use crate::fragments::{bundle_wf, fragments_agree_at, CodeFragmentBundle};
use crate::synthesize::{
    finalize_of, init_of, setter_of, storage_of, synth_builder_type, synth_finalizer,
    synth_initializer, synth_setters,
};

verus! {

/// Generate the builder fragment bundle for one record, or the first
/// diagnostic its field descriptions raise. Fields are examined in
/// declaration order, each validated and then classified; on success every
/// artifact lists the fields in that same order.
pub fn generate(record_name: &String, fields: &Vec<FieldDescriptor>) -> (r: Result<
    CodeFragmentBundle,
    Diagnostic,
>)
    ensures
        (match r {
            Ok(b) => {
                &&& forall|i: int|
                    0 <= i < fields@.len() ==> #[trigger] spec_plan(fields@[i]) is Ok
                &&& bundle_wf(b)
                &&& b.builder_type.name@ == record_name@ + "Builder"@
                &&& b.builder_initializer.builder_name@ == record_name@ + "Builder"@
                &&& b.finalizer.record_name == *record_name
                &&& b.builder_type.fields@.len() == fields@.len()
                &&& b.builder_initializer.fields@.len() == fields@.len()
                &&& b.field_setters@.len() == fields@.len()
                &&& b.finalizer.fields@.len() == fields@.len()
                &&& forall|i: int|
                    0 <= i < fields@.len() ==> #[trigger] b.builder_type.fields@[i]
                        == storage_of(plan_of(fields@[i]))
                &&& forall|i: int|
                    0 <= i < fields@.len() ==> #[trigger] b.builder_initializer.fields@[i]
                        == init_of(plan_of(fields@[i]))
                &&& forall|i: int|
                    0 <= i < fields@.len() ==> #[trigger] b.field_setters@[i] == setter_of(
                        plan_of(fields@[i]),
                    )
                &&& forall|i: int|
                    0 <= i < fields@.len() ==> #[trigger] b.finalizer.fields@[i] == finalize_of(
                        plan_of(fields@[i]),
                    )
            },
            Err(d) => exists|j: int|
                {
                    &&& 0 <= j < fields@.len()
                    &&& #[trigger] spec_plan(fields@[j]) == Err::<FieldStrategy, Diagnostic>(d)
                    &&& forall|i: int| 0 <= i < j ==> spec_plan(fields@[i]) is Ok
                },
        }),
{
    let plans = match plan_fields(fields) {
        Ok(p) => p,
        Err(d) => {
            return Err(d);
        },
    };
    let builder_name = record_name.clone().concat("Builder");
    let builder_type = synth_builder_type(builder_name.clone(), &plans);
    let builder_initializer = synth_initializer(builder_name, &plans);
    let field_setters = synth_setters(&plans);
    let finalizer = synth_finalizer(record_name.clone(), &plans);
    let b = CodeFragmentBundle { builder_type, builder_initializer, field_setters, finalizer };
    proof {
        assert forall|i: int| 0 <= i < b.builder_type.fields@.len() implies #[trigger]
        fragments_agree_at(b, i) by {
            assert(b.builder_type.fields@[i] == storage_of(plans@[i]));
            assert(b.builder_initializer.fields@[i] == init_of(plans@[i]));
            assert(b.field_setters@[i] == setter_of(plans@[i]));
            assert(b.finalizer.fields@[i] == finalize_of(plans@[i]));
        }
    }
    Ok(b)
}

} // verus!
