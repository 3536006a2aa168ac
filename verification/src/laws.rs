//! The laws of the builder pattern the engine emits, proved once for every
//! coherent bundle and every element type: what chains of setter and
//! appender calls leave in the slots, and what the finalizer then returns.

use vstd::prelude::*;
use crate::classify::spec_plan;
use crate::descriptor::FieldDescriptor;
use crate::fragments::{bundle_wf, fragments_agree_at, CodeFragmentBundle};
use crate::validate::ann_malformed;
use crate::runtime::{
    append_model, built_model, built_of, first_missing, first_missing_from,
    lemma_first_missing_from_props, many_values, missing_at, one_value, set_model, state_wf,
    BuiltModel, SlotModel,
};

verus! {

/// The slots after calling the setter of every field among the first `k`
/// exactly once, in declaration order, with the values `vals`.
pub open spec fn set_prefix<V>(s: Seq<SlotModel<V>>, vals: Seq<V>, k: int) -> Seq<SlotModel<V>>
    decreases k,
{
    if k <= 0 {
        s
    } else {
        set_model(set_prefix(s, vals, k - 1), k - 1, vals[k - 1])
    }
}

/// The slots after appending the first `k` of the elements `es`, in order,
/// through the appender of field `i`.
pub open spec fn append_prefix<V>(
    s: Seq<SlotModel<V>>,
    i: int,
    es: Seq<V>,
    k: int,
) -> Seq<SlotModel<V>>
    decreases k,
{
    if k <= 0 {
        s
    } else {
        append_model(append_prefix(s, i, es, k - 1), i, es[k - 1])
    }
}

/// After setting the first `k` fields once each, those slots hold exactly
/// their values and the later slots are untouched.
pub proof fn lemma_set_prefix_slots<V>(s: Seq<SlotModel<V>>, vals: Seq<V>, k: int)
    requires
        0 <= k <= s.len(),
        k <= vals.len(),
    ensures
        set_prefix(s, vals, k).len() == s.len(),
        forall|j: int|
            0 <= j < k ==> set_prefix(s, vals, k)[j] == (SlotModel::One {
                value: Some(vals[j]),
            }),
        forall|j: int| k <= j < s.len() ==> set_prefix(s, vals, k)[j] == s[j],
    decreases k,
{
    if k > 0 {
        lemma_set_prefix_slots(s, vals, k - 1);
    }
}

/// Appending elements one at a time joins them, in order, onto what the
/// slot has accumulated so far, and touches no other slot.
pub proof fn lemma_append_prefix_slots<V>(s: Seq<SlotModel<V>>, i: int, es: Seq<V>, k: int)
    requires
        0 <= i < s.len(),
        0 <= k <= es.len(),
        (s[i] is Many),
    ensures
        append_prefix(s, i, es, k).len() == s.len(),
        append_prefix(s, i, es, k)[i] == (SlotModel::Many {
            values: many_values(s[i]) + es.take(k),
        }),
        forall|j: int| 0 <= j < s.len() && j != i ==> append_prefix(s, i, es, k)[j] == s[j],
    decreases k,
{
    if k == 0 {
        match s[i] {
            SlotModel::Many { values } => {
                assert(values + es.take(0) =~= values);
                assert(s[i] == SlotModel::Many { values: many_values(s[i]) + es.take(0) });
            },
            SlotModel::One { value } => {
                assert(false);
            },
        }
    } else {
        lemma_append_prefix_slots(s, i, es, k - 1);
        assert(es.take(k) =~= es.take(k - 1).push(es[k - 1]));
        assert(many_values(s[i]) + es.take(k) =~= (many_values(s[i]) + es.take(k - 1)).push(
            es[k - 1],
        ));
    }
}

/// Two states that block finalization at exactly the same positions have
/// the same first blocking position.
pub proof fn lemma_first_missing_same<V>(
    s1: Seq<SlotModel<V>>,
    s2: Seq<SlotModel<V>>,
    b: CodeFragmentBundle,
    lo: int,
)
    requires
        s1.len() == s2.len(),
        forall|j: int|
            0 <= j < s1.len() ==> (missing_at(s1, b, j) <==> #[trigger] missing_at(s2, b, j)),
    ensures
        first_missing_from(s1, b, lo) == first_missing_from(s2, b, lo),
    decreases s1.len() - lo,
{
    if 0 <= lo < s1.len() {
        if !missing_at(s1, b, lo) {
            lemma_first_missing_same(s1, s2, b, lo + 1);
        }
    }
}

/// The record built directly from one value per field: required fields hold
/// the value itself, the others hold it as a present optional.
pub open spec fn direct_record<V>(b: CodeFragmentBundle, vals: Seq<V>) -> Seq<BuiltModel<V>> {
    Seq::new(
        vals.len(),
        |i: int|
            if b.finalizer.fields@[i].action is TakeRequired {
                BuiltModel::One { value: vals[i] }
            } else {
                BuiltModel::Maybe { value: Some(vals[i]) }
            },
    )
}

/// For a record whose fields are all single-valued (no accumulating field):
/// calling every setter exactly once, in declaration order, and then
/// building cannot fail and yields exactly the record built directly from
/// the same field values.
pub proof fn lemma_every_setter_once_builds_direct<V>(
    b: CodeFragmentBundle,
    s0: Seq<SlotModel<V>>,
    vals: Seq<V>,
)
    requires
        bundle_wf(b),
        state_wf(s0, b),
        vals.len() == s0.len(),
        forall|i: int|
            0 <= i < b.field_setters@.len() ==> ((#[trigger] b.field_setters@[i].kind) is Assign),
    ensures
        first_missing(set_prefix(s0, vals, s0.len() as int), b) is None,
        built_model(set_prefix(s0, vals, s0.len() as int), b) == direct_record(b, vals),
{
    let s1 = set_prefix(s0, vals, s0.len() as int);
    lemma_set_prefix_slots(s0, vals, s0.len() as int);
    lemma_first_missing_from_props(s1, b, 0);
    assert forall|j: int| 0 <= j < s1.len() implies built_model(s1, b)[j] == direct_record(
        b,
        vals,
    )[j] by {
        assert(fragments_agree_at(b, j));
        assert(s1[j] == (SlotModel::One { value: Some(vals[j]) }));
    }
    assert(built_model(s1, b) =~= direct_record(b, vals));
}

/// For an accumulating field: appending elements in order and then building
/// yields that field as exactly that element sequence — with zero appends,
/// the empty sequence. The appends touch no other field, and never decide
/// between success and failure of the build.
pub proof fn lemma_appends_accumulate_in_order<V>(
    b: CodeFragmentBundle,
    s0: Seq<SlotModel<V>>,
    i: int,
    es: Seq<V>,
)
    requires
        bundle_wf(b),
        state_wf(s0, b),
        0 <= i < s0.len(),
        (b.field_setters@[i].kind is Append),
        s0[i] == (SlotModel::Many { values: Seq::<V>::empty() }),
    ensures
        append_prefix(s0, i, es, es.len() as int)[i] == (SlotModel::Many { values: es }),
        forall|j: int|
            0 <= j < s0.len() && j != i ==> append_prefix(s0, i, es, es.len() as int)[j] == s0[j],
        first_missing(append_prefix(s0, i, es, es.len() as int), b) == first_missing(s0, b),
        built_model(append_prefix(s0, i, es, es.len() as int), b)[i] == (BuiltModel::Sequence {
            values: es,
        }),
{
    let s1 = append_prefix(s0, i, es, es.len() as int);
    lemma_append_prefix_slots(s0, i, es, es.len() as int);
    assert(many_values(s0[i]) + es.take(es.len() as int) =~= es);
    assert forall|j: int| 0 <= j < s0.len() implies (missing_at(s0, b, j)
        <==> #[trigger] missing_at(s1, b, j)) by {
        assert(fragments_agree_at(b, j));
        if j == i {
            assert(!(b.finalizer.fields@[i].action is TakeRequired));
        }
    }
    lemma_first_missing_same(s1, s0, b, 0);
    assert(fragments_agree_at(b, i));
    assert(built_of(s1[i], b.finalizer.fields@[i].action) == (BuiltModel::Sequence {
        values: es,
    }));
}

/// Omitting the setter of exactly one required field and then building
/// fails, identifying that field: its position is the one the finalizer
/// reports, so the failure carries that field's name — and no record is
/// produced at all.
pub proof fn lemma_omitted_required_fails<V>(
    b: CodeFragmentBundle,
    s: Seq<SlotModel<V>>,
    j: int,
)
    requires
        bundle_wf(b),
        state_wf(s, b),
        0 <= j < s.len(),
        (b.finalizer.fields@[j].action is TakeRequired),
        (one_value(s[j]) is None),
        forall|i: int|
            0 <= i < s.len() && i != j && ((#[trigger] b.finalizer.fields@[i].action)
                is TakeRequired) ==> (one_value(s[i]) is Some),
    ensures
        first_missing(s, b) == Some(j),
{
    lemma_first_missing_from_props(s, b, 0);
    assert(missing_at(s, b, j));
}

/// Omitting the setter of an already-optional field never blocks the build:
/// if every required field was supplied, the build succeeds and that field
/// comes out empty.
pub proof fn lemma_omitted_optional_succeeds<V>(
    b: CodeFragmentBundle,
    s: Seq<SlotModel<V>>,
    j: int,
)
    requires
        bundle_wf(b),
        state_wf(s, b),
        0 <= j < s.len(),
        (b.finalizer.fields@[j].action is TakeOptional),
        (one_value(s[j]) is None),
        forall|i: int|
            0 <= i < s.len() && ((#[trigger] b.finalizer.fields@[i].action) is TakeRequired)
                ==> (one_value(s[i]) is Some),
    ensures
        first_missing(s, b) is None,
        built_model(s, b)[j] == (BuiltModel::Maybe { value: None::<V> }),
{
    lemma_first_missing_from_props(s, b, 0);
}

/// A field with malformed annotations never gets a plan, so generation of
/// its record fails — whatever the other fields look like, since a
/// successful generation plans every field.
pub proof fn lemma_malformed_annotation_rejects(f: FieldDescriptor)
    requires
        ann_malformed(f.annotations@),
    ensures
        (spec_plan(f) is Err),
{
}

/// Overwriting a single-value field twice retains only the second value:
/// the intermediate assignment leaves no trace in the state.
pub proof fn lemma_setter_overwrites<V>(s: Seq<SlotModel<V>>, i: int, v1: V, v2: V)
    requires
        0 <= i < s.len(),
    ensures
        set_model(set_model(s, i, v1), i, v2) == set_model(s, i, v2),
{
    let twice = set_model(set_model(s, i, v1), i, v2);
    let once = set_model(s, i, v2);
    assert forall|k: int| 0 <= k < twice.len() implies twice[k] == once[k] by {
        if k != i {
            assert(twice[k] == s[k]);
        }
    }
    assert(twice =~= once);
}

} // verus!
