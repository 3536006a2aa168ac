//! The run-time meaning of a generated builder: an interpreter for the
//! fragment bundle, generic over the element values the builder stores.
//!
//! A `BuilderState` holds one storage slot per field, in declaration order.
//! `init_builder` gives each slot its starting value from the initializer
//! fragment, `apply_setter` performs one setter or appender call, and
//! `run_build` performs the finalizer: it drains the slots field by field
//! and either assembles the record or fails on the first required field
//! whose slot is still empty.

use vstd::prelude::*;
use vstd::string::StringExecFns;
use crate::fragments::{
    bundle_wf, fragments_agree_at, CodeFragmentBundle, FinalizeAction, InitValue, SetterKind,
};

verus! {

/// The storage slot of one field at run time: a single optional value for
/// required and already-optional fields, a growable sequence for
/// accumulating fields.
#[derive(Debug, PartialEq, Eq)]
pub enum Slot<V> {
    One { value: Option<V> },
    Many { values: Vec<V> },
}

/// The mathematical model of a slot.
pub enum SlotModel<V> {
    One { value: Option<V> },
    Many { values: Seq<V> },
}

impl<V> View for Slot<V> {
    type V = SlotModel<V>;

    open spec fn view(&self) -> SlotModel<V> {
        match self {
            Slot::One { value } => SlotModel::One { value: *value },
            Slot::Many { values } => SlotModel::Many { values: values@ },
        }
    }
}

/// The auxiliary builder value: exclusive owner of one slot per field.
#[derive(Debug, PartialEq, Eq)]
pub struct BuilderState<V> {
    pub slots: Vec<Slot<V>>,
}

impl<V> View for BuilderState<V> {
    type V = Seq<SlotModel<V>>;

    open spec fn view(&self) -> Seq<SlotModel<V>> {
        Seq::new(self.slots@.len(), |i: int| self.slots@[i]@)
    }
}

/// The single value a one-value slot holds, if any.
pub open spec fn one_value<V>(s: SlotModel<V>) -> Option<V> {
    match s {
        SlotModel::One { value } => value,
        SlotModel::Many { .. } => None,
    }
}

/// The sequence an accumulating slot holds.
pub open spec fn many_values<V>(s: SlotModel<V>) -> Seq<V> {
    match s {
        SlotModel::Many { values } => values,
        SlotModel::One { .. } => Seq::empty(),
    }
}

/// A slot with its contents taken out, keeping its kind.
pub open spec fn cleared_of<V>(s: SlotModel<V>) -> SlotModel<V> {
    match s {
        SlotModel::One { .. } => SlotModel::One { value: None },
        SlotModel::Many { .. } => SlotModel::Many { values: Seq::empty() },
    }
}

/// The state fits the bundle: one slot per field, and each slot's kind
/// matches the field's setter kind.
pub open spec fn state_wf<V>(s: Seq<SlotModel<V>>, b: CodeFragmentBundle) -> bool {
    &&& s.len() == b.field_setters@.len()
    &&& forall|i: int|
        0 <= i < s.len() ==> ((#[trigger] s[i]) is Many <==> b.field_setters@[i].kind is Append)
}

/// The starting slot for one initializer value.
pub open spec fn init_slot<V>(v: InitValue) -> SlotModel<V> {
    match v {
        InitValue::EmptyOptional => SlotModel::One { value: None },
        InitValue::EmptySequence => SlotModel::Many { values: Seq::empty() },
    }
}

/// One overwriting setter call on slot `i`.
pub open spec fn set_model<V>(s: Seq<SlotModel<V>>, i: int, v: V) -> Seq<SlotModel<V>> {
    s.update(i, SlotModel::One { value: Some(v) })
}

/// One appender call on slot `i`: the element joins the end of the sequence
/// accumulated so far.
pub open spec fn append_model<V>(s: Seq<SlotModel<V>>, i: int, v: V) -> Seq<SlotModel<V>> {
    s.update(i, SlotModel::Many { values: many_values(s[i]).push(v) })
}

/// Field `i` blocks finalization: it must be present but its slot is empty.
pub open spec fn missing_at<V>(s: Seq<SlotModel<V>>, b: CodeFragmentBundle, i: int) -> bool {
    b.finalizer.fields@[i].action is TakeRequired && one_value(s[i]) is None
}

/// The first field at or after `lo` that blocks finalization.
pub open spec fn first_missing_from<V>(
    s: Seq<SlotModel<V>>,
    b: CodeFragmentBundle,
    lo: int,
) -> Option<int>
    decreases s.len() - lo,
{
    if lo < 0 || lo >= s.len() {
        None
    } else if missing_at(s, b, lo) {
        Some(lo)
    } else {
        first_missing_from(s, b, lo + 1)
    }
}

/// The first field, in declaration order, that blocks finalization.
pub open spec fn first_missing<V>(s: Seq<SlotModel<V>>, b: CodeFragmentBundle) -> Option<int> {
    first_missing_from(s, b, 0)
}

/// What `first_missing_from` finds: the position it returns is the least
/// blocking one at or after `lo`, and it returns nothing exactly when no
/// position at or after `lo` blocks.
pub proof fn lemma_first_missing_from_props<V>(
    s: Seq<SlotModel<V>>,
    b: CodeFragmentBundle,
    lo: int,
)
    requires
        0 <= lo,
    ensures
        (match first_missing_from(s, b, lo) {
            Some(j) => lo <= j < s.len() && missing_at(s, b, j) && (forall|i: int|
                lo <= i < j ==> !(#[trigger] missing_at(s, b, i))),
            None => forall|i: int|
                lo <= i < s.len() ==> !(#[trigger] missing_at(s, b, i)),
        }),
    decreases s.len() - lo,
{
    if 0 <= lo < s.len() {
        if !missing_at(s, b, lo) {
            lemma_first_missing_from_props(s, b, lo + 1);
        }
    }
}

/// The record value the finalizer assembles from one slot.
pub open spec fn built_of<V>(s: SlotModel<V>, a: FinalizeAction) -> BuiltModel<V> {
    match a {
        FinalizeAction::TakeRequired => BuiltModel::One { value: one_value(s).unwrap() },
        FinalizeAction::TakeOptional => BuiltModel::Maybe { value: one_value(s) },
        FinalizeAction::DrainSequence => BuiltModel::Sequence { values: many_values(s) },
    }
}

/// The whole record the finalizer assembles, field by field in declaration
/// order. Meaningful only where no field blocks finalization.
pub open spec fn built_model<V>(s: Seq<SlotModel<V>>, b: CodeFragmentBundle) -> Seq<
    BuiltModel<V>,
> {
    Seq::new(s.len(), |i: int| built_of(s[i], b.finalizer.fields@[i].action))
}

/// Every slot cleared: the state finalization leaves behind on success.
pub open spec fn drained_model<V>(s: Seq<SlotModel<V>>) -> Seq<SlotModel<V>> {
    Seq::new(s.len(), |i: int| cleared_of(s[i]))
}

/// Slots before `j` cleared, the rest untouched: the state finalization
/// leaves behind when field `j` blocks it.
pub open spec fn partial_drained_model<V>(s: Seq<SlotModel<V>>, j: int) -> Seq<SlotModel<V>> {
    Seq::new(s.len(), |i: int| if i < j { cleared_of(s[i]) } else { s[i] })
}

/// One field value of the finished record.
#[derive(Debug, PartialEq, Eq)]
#[allow(inconsistent_fields)]
pub enum BuiltValue<V> {
    One { value: V },
    Maybe { value: Option<V> },
    Sequence { values: Vec<V> },
}

/// The mathematical model of one finished field value.
#[allow(inconsistent_fields)]
pub enum BuiltModel<V> {
    One { value: V },
    Maybe { value: Option<V> },
    Sequence { values: Seq<V> },
}

impl<V> View for BuiltValue<V> {
    type V = BuiltModel<V>;

    open spec fn view(&self) -> BuiltModel<V> {
        match self {
            BuiltValue::One { value } => BuiltModel::One { value: *value },
            BuiltValue::Maybe { value } => BuiltModel::Maybe { value: *value },
            BuiltValue::Sequence { values } => BuiltModel::Sequence { values: values@ },
        }
    }
}

/// The finished record: one value per field, in declaration order.
#[derive(Debug, PartialEq, Eq)]
pub struct RecordValue<V> {
    pub fields: Vec<BuiltValue<V>>,
}

impl<V> View for RecordValue<V> {
    type V = Seq<BuiltModel<V>>;

    open spec fn view(&self) -> Seq<BuiltModel<V>> {
        Seq::new(self.fields@.len(), |i: int| self.fields@[i]@)
    }
}

/// The recoverable failure `run_build` returns: the first required field
/// whose slot was still empty.
#[derive(Debug, PartialEq, Eq)]
pub struct BuildError {
    pub field: String,
}

impl BuildError {
    /// The human-readable failure message, identifying the field.
    pub fn message(&self) -> (r: String)
        ensures
            r@ == "field `"@ + self.field@ + "` was not set"@,
    {
        String::from_str("field `").concat(self.field.as_str()).concat("` was not set")
    }
}

/// Start a builder: one slot per field, each holding its starting value
/// from the initializer fragment.
pub fn init_builder<V>(b: &CodeFragmentBundle) -> (r: BuilderState<V>)
    requires
        bundle_wf(*b),
    ensures
        r@.len() == b.builder_initializer.fields@.len(),
        forall|i: int|
            0 <= i < b.builder_initializer.fields@.len() ==> #[trigger] r@[i] == init_slot::<V>(
                b.builder_initializer.fields@[i].value,
            ),
        state_wf(r@, *b),
{
    let mut slots: Vec<Slot<V>> = Vec::new();
    let mut i: usize = 0;
    while i < b.builder_initializer.fields.len()
        invariant
            0 <= i <= b.builder_initializer.fields@.len(),
            slots@.len() == i,
            forall|k: int|
                0 <= k < i ==> #[trigger] slots@[k]@ == init_slot::<V>(
                    b.builder_initializer.fields@[k].value,
                ),
        decreases b.builder_initializer.fields@.len() - i,
    {
        match b.builder_initializer.fields[i].value {
            InitValue::EmptyOptional => slots.push(Slot::One { value: None }),
            InitValue::EmptySequence => slots.push(Slot::Many { values: Vec::new() }),
        }
        i = i + 1;
    }
    let r = BuilderState { slots };
    proof {
        assert forall|k: int| 0 <= k < r@.len() implies ((#[trigger] r@[k]) is Many
            <==> b.field_setters@[k].kind is Append) by {
            assert(fragments_agree_at(*b, k));
        }
    }
    r
}

/// Perform one call of the setter at position `index` with argument `v`: an
/// overwriting setter replaces the slot's value, an appender pushes onto
/// the sequence accumulated so far. Slots of other fields are untouched.
pub fn apply_setter<V>(state: &mut BuilderState<V>, b: &CodeFragmentBundle, index: usize, v: V)
    requires
        bundle_wf(*b),
        state_wf(old(state)@, *b),
        index < b.field_setters@.len(),
    ensures
        state_wf(final(state)@, *b),
        b.field_setters@[index as int].kind is Assign ==> final(state)@ == set_model(
            old(state)@,
            index as int,
            v,
        ),
        b.field_setters@[index as int].kind is Append ==> final(state)@ == append_model(
            old(state)@,
            index as int,
            v,
        ),
{
    proof {
        assert(old(state)@[index as int] == old(state).slots@[index as int]@);
    }
    let kind = b.field_setters[index].kind;
    match kind {
        SetterKind::Assign => {
            state.slots[index] = Slot::One { value: Some(v) };
            proof {
                assert(state@ =~= set_model(old(state)@, index as int, v));
            }
        },
        SetterKind::Append => {
            let slot = state.slots.remove(index);
            match slot {
                Slot::Many { mut values } => {
                    values.push(v);
                    state.slots.insert(index, Slot::Many { values });
                },
                Slot::One { value } => {
                    proof {
                        assert(false);
                    }
                    state.slots.insert(index, Slot::One { value });
                },
            }
            proof {
                assert(state@ =~= append_model(old(state)@, index as int, v));
            }
        },
    }
}

/// Perform the finalizer: drain the slots field by field, in declaration
/// order, and assemble the record. The first required field whose slot is
/// still empty stops the pass: the failure identifies it, no record is
/// produced, and the slots from that field on keep their contents.
pub fn run_build<V>(state: &mut BuilderState<V>, b: &CodeFragmentBundle) -> (r: Result<
    RecordValue<V>,
    BuildError,
>)
    requires
        bundle_wf(*b),
        state_wf(old(state)@, *b),
    ensures
        state_wf(final(state)@, *b),
        (match r {
            Ok(rec) => {
                &&& first_missing(old(state)@, *b) is None
                &&& rec@ == built_model(old(state)@, *b)
                &&& final(state)@ == drained_model(old(state)@)
            },
            Err(e) => {
                &&& first_missing(old(state)@, *b) matches Some(j) && e.field
                    == b.finalizer.fields@[j].name && final(state)@ == partial_drained_model(
                    old(state)@,
                    j,
                )
            },
        }),
{
    let n = state.slots.len();
    let mut out: Vec<BuiltValue<V>> = Vec::new();
    let mut i: usize = 0;
    while i < n
        invariant
            bundle_wf(*b),
            state_wf(old(state)@, *b),
            n == old(state)@.len(),
            0 <= i <= n,
            state@.len() == n,
            out@.len() == i,
            forall|k: int| 0 <= k < i ==> #[trigger] state@[k] == cleared_of(old(state)@[k]),
            forall|k: int| i <= k < n ==> #[trigger] state@[k] == old(state)@[k],
            forall|k: int| 0 <= k < i ==> !(#[trigger] missing_at(old(state)@, *b, k)),
            forall|k: int|
                0 <= k < i ==> (#[trigger] out@[k])@ == built_of(
                    old(state)@[k],
                    b.finalizer.fields@[k].action,
                ),
        decreases n - i,
    {
        let ghost prev = state@;
        proof {
            assert(fragments_agree_at(*b, i as int));
            assert(prev[i as int] == state.slots@[i as int]@);
        }
        let action = b.finalizer.fields[i].action;
        let slot = state.slots.remove(i);
        match slot {
            Slot::One { value } => {
                state.slots.insert(i, Slot::One { value: None });
                match action {
                    FinalizeAction::TakeRequired => {
                        match value {
                            Some(v) => {
                                out.push(BuiltValue::One { value: v });
                            },
                            None => {
                                let e = BuildError { field: b.finalizer.fields[i].name.clone() };
                                proof {
                                    lemma_first_missing_from_props(old(state)@, *b, 0);
                                    assert(missing_at(old(state)@, *b, i as int));
                                    assert(first_missing(old(state)@, *b) == Some(i as int));
                                    assert(state@ =~= prev.update(
                                        i as int,
                                        cleared_of(prev[i as int]),
                                    ));
                                    assert(cleared_of(prev[i as int]) == prev[i as int]);
                                    assert(state@ =~= partial_drained_model(
                                        old(state)@,
                                        i as int,
                                    ));
                                }
                                return Err(e);
                            },
                        }
                    },
                    FinalizeAction::TakeOptional => {
                        out.push(BuiltValue::Maybe { value });
                    },
                    FinalizeAction::DrainSequence => {
                        proof {
                            assert(false);
                        }
                    },
                }
            },
            Slot::Many { values } => {
                state.slots.insert(i, Slot::Many { values: Vec::new() });
                match action {
                    FinalizeAction::DrainSequence => {
                        out.push(BuiltValue::Sequence { values });
                    },
                    _ => {
                        proof {
                            assert(false);
                        }
                    },
                }
            },
        }
        proof {
            assert(state@ =~= prev.update(i as int, cleared_of(prev[i as int])));
        }
        i = i + 1;
    }
    let rec = RecordValue { fields: out };
    proof {
        lemma_first_missing_from_props(old(state)@, *b, 0);
        assert(rec@ =~= built_model(old(state)@, *b));
        assert(state@ =~= drained_model(old(state)@));
    }
    Ok(rec)
}

} // verus!
