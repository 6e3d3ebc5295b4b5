//! Runtime semantics of the synthesized staging type: the slot state, the
//! behaviour of the generated setters, and the validating build operation.
//!
//! The values flowing through setters are opaque tokens: the staging
//! machinery stores, groups and returns them but never inspects them.

use vstd::prelude::*;
use crate::synth::{Artifact, ArtifactModel, SetterKind, SetterModel, SetterSpec, SlotModel};

verus! {

/// What a touched slot holds: a single value (plain setter), or the items
/// accumulated so far (accumulator setter), in the order they were given.
#[derive(PartialEq, Eq, Debug)]
pub enum Payload {
    One(u64),
    Many(Vec<u64>),
}

/// Mathematical image of a [`Payload`].
#[verifier::ext_equal]
pub enum PayloadModel {
    One(u64),
    Many(Seq<u64>),
}

impl View for Payload {
    type V = PayloadModel;

    open spec fn view(&self) -> PayloadModel {
        match *self {
            Payload::One(v) => PayloadModel::One(v),
            Payload::Many(items) => PayloadModel::Many(items@),
        }
    }
}

impl Payload {
    /// Structural copy: the copy has the same model.
    pub fn duplicate(&self) -> (r: Payload)
        ensures
            r@ == self@,
    {
        match self {
            Payload::One(v) => Payload::One(*v),
            Payload::Many(items) => {
                let mut copy: Vec<u64> = Vec::new();
                let mut i: usize = 0;
                while i < items.len()
                    invariant
                        i <= items@.len(),
                        copy@ == items@.take(i as int),
                    decreases items@.len() - i,
                {
                    copy.push(items[i]);
                    proof {
                        assert(copy@ =~= items@.take(i as int + 1));
                    }
                    i += 1;
                }
                proof {
                    assert(items@.take(items@.len() as int) =~= items@);
                }
                Payload::Many(copy)
            },
        }
    }
}

/// The model of one slot: `None` while untouched.
pub open spec fn slot_model(s: Option<Payload>) -> Option<PayloadModel> {
    match s {
        Option::Some(p) => Option::Some(p@),
        Option::None => Option::None,
    }
}

/// A staging instance: one slot per field of the record, in declaration
/// order, each `None` until a setter touches it.
pub struct Staging {
    pub slots: Vec<Option<Payload>>,
}

impl View for Staging {
    type V = Seq<Option<PayloadModel>>;

    open spec fn view(&self) -> Seq<Option<PayloadModel>> {
        Seq::new(self.slots@.len(), |i: int| slot_model(self.slots@[i]))
    }
}

/// Every setter of the artifact writes a slot that exists.
pub open spec fn artifact_wf(a: ArtifactModel) -> bool {
    forall|k: int| 0 <= k < a.setters.len() ==> 0 <= (#[trigger] a.setters[k]).field_index
        < a.slots.len()
}

/// The first setter of the given kind with the given method name, at or
/// after position `i`.
pub open spec fn spec_find_setter(
    setters: Seq<SetterModel>,
    name: Seq<char>,
    kind: SetterKind,
    i: int,
) -> Option<SetterModel>
    decreases setters.len() - i,
{
    if i < 0 || i >= setters.len() {
        Option::None
    } else if setters[i].method == name && setters[i].kind == kind {
        Option::Some(setters[i])
    } else {
        spec_find_setter(setters, name, kind, i + 1)
    }
}

/// The setter a method name resolves to. When generated setter names
/// collide, they collapse onto one setter with the accumulator behaviour: an
/// accumulator setter always wins over a plain one of the same name, and
/// among several of the same kind the first in declaration order wins.
pub open spec fn spec_lookup_setter(setters: Seq<SetterModel>, name: Seq<char>) -> Option<
    SetterModel,
> {
    match spec_find_setter(setters, name, SetterKind::Accumulator, 0) {
        Option::Some(s) => Option::Some(s),
        Option::None => spec_find_setter(setters, name, SetterKind::Plain, 0),
    }
}

/// The effect of one setter invocation on the slot it writes: a plain setter
/// overwrites the slot with the value; an accumulator setter appends the
/// value to the accumulated items, starting a fresh one-item collection when
/// the slot does not hold a collection yet.
pub open spec fn spec_apply_setter(
    slot: Option<PayloadModel>,
    kind: SetterKind,
    value: u64,
) -> Option<PayloadModel> {
    match kind {
        SetterKind::Plain => Option::Some(PayloadModel::One(value)),
        SetterKind::Accumulator => match slot {
            Option::Some(PayloadModel::Many(items)) => Option::Some(
                PayloadModel::Many(items.push(value)),
            ),
            _ => Option::Some(PayloadModel::Many(seq![value])),
        },
    }
}

/// The whole-staging effect of invoking method `name` with `value`: the
/// resolved setter's slot is rewritten; an unknown name changes nothing.
pub open spec fn spec_invoke(
    a: ArtifactModel,
    slots: Seq<Option<PayloadModel>>,
    name: Seq<char>,
    value: u64,
) -> Seq<Option<PayloadModel>> {
    match spec_lookup_setter(a.setters, name) {
        Option::None => slots,
        Option::Some(st) => slots.update(
            st.field_index,
            spec_apply_setter(slots[st.field_index], st.kind, value),
        ),
    }
}

/// Decides [`artifact_wf`] on a concrete artifact.
pub fn artifact_is_wf(a: &Artifact) -> (r: bool)
    ensures
        r == artifact_wf(a@),
{
    let mut k: usize = 0;
    while k < a.setters.len()
        invariant
            k <= a.setters@.len(),
            forall|j: int| 0 <= j < k ==> 0 <= (#[trigger] a@.setters[j]).field_index
                < a@.slots.len(),
        decreases a.setters@.len() - k,
    {
        if a.setters[k].field_index >= a.slots.len() {
            proof {
                assert(a@.setters[k as int].field_index >= a@.slots.len());
            }
            return false;
        }
        k += 1;
    }
    true
}

/// The staging state after a sequence of setter invocations, each a method
/// name paired with the value handed to it, applied in order.
pub open spec fn spec_run(
    a: ArtifactModel,
    slots: Seq<Option<PayloadModel>>,
    calls: Seq<(Seq<char>, u64)>,
) -> Seq<Option<PayloadModel>>
    decreases calls.len(),
{
    if calls.len() == 0 {
        slots
    } else {
        spec_run(a, spec_invoke(a, slots, calls[0].0, calls[0].1), calls.drop_first())
    }
}

fn find_setter<'a>(setters: &'a Vec<SetterSpec>, name: &String, accumulator: bool) -> (r: Option<
    &'a SetterSpec,
>)
    ensures
        ({
            let kind = if accumulator {
                SetterKind::Accumulator
            } else {
                SetterKind::Plain
            };
            match r {
                Option::Some(s) => spec_find_setter(
                    crate::synth::setters_model(setters@),
                    name@,
                    kind,
                    0,
                ) == Option::Some(s@),
                Option::None => spec_find_setter(
                    crate::synth::setters_model(setters@),
                    name@,
                    kind,
                    0,
                ) is None,
            }
        }),
{
    let ghost sm = crate::synth::setters_model(setters@);
    let ghost kind = if accumulator {
        SetterKind::Accumulator
    } else {
        SetterKind::Plain
    };
    let mut i: usize = 0;
    while i < setters.len()
        invariant
            i <= sm.len(),
            sm.len() == setters@.len(),
            sm == crate::synth::setters_model(setters@),
            kind == if accumulator {
                SetterKind::Accumulator
            } else {
                SetterKind::Plain
            },
            spec_find_setter(sm, name@, kind, 0) == spec_find_setter(sm, name@, kind, i as int),
        decreases sm.len() - i,
    {
        let s = &setters[i];
        let kind_matches = match s.kind {
            SetterKind::Accumulator => accumulator,
            SetterKind::Plain => !accumulator,
        };
        if kind_matches && s.method == *name {
            return Option::Some(s);
        }
        i += 1;
    }
    Option::None
}

/// Resolves a method name to the setter it invokes, per
/// [`spec_lookup_setter`].
pub fn lookup_setter<'a>(a: &'a Artifact, name: &String) -> (r: Option<&'a SetterSpec>)
    ensures
        match r {
            Option::Some(s) => spec_lookup_setter(a@.setters, name@) == Option::Some(s@),
            Option::None => spec_lookup_setter(a@.setters, name@) is None,
        },
{
    match find_setter(&a.setters, name, true) {
        Option::Some(s) => Option::Some(s),
        Option::None => find_setter(&a.setters, name, false),
    }
}

impl Staging {
    /// The staging instance the builder factory returns: one untouched slot
    /// per field.
    pub fn for_artifact(a: &Artifact) -> (s: Staging)
        ensures
            s@.len() == a@.slots.len(),
            forall|i: int| 0 <= i < s@.len() ==> s@[i] is None,
    {
        let mut slots: Vec<Option<Payload>> = Vec::new();
        let n = a.slots.len();
        let mut i: usize = 0;
        while i < n
            invariant
                i <= n,
                slots@.len() == i as int,
                forall|k: int| 0 <= k < i ==> (#[trigger] slots@[k]) is None,
            decreases n - i,
        {
            slots.push(Option::None);
            i += 1;
        }
        Staging { slots }
    }

    /// Invokes the setter `name` resolves to, per [`spec_invoke`]; reports
    /// whether any setter has that name.
    pub fn invoke_setter(&mut self, a: &Artifact, name: &String, value: u64) -> (found: bool)
        requires
            artifact_wf(a@),
            old(self)@.len() == a@.slots.len(),
        ensures
            final(self)@ == spec_invoke(a@, old(self)@, name@, value),
            found == (spec_lookup_setter(a@.setters, name@) is Some),
    {
        match lookup_setter(a, name) {
            Option::None => {
                proof {
                    assert(final(self)@ =~= spec_invoke(a@, old(self)@, name@, value));
                }
                false
            },
            Option::Some(st) => {
                let idx = st.field_index;
                proof {
                    assert(a@.setters.contains(st@)) by {
                        lemma_lookup_in_setters(a@.setters, name@);
                    }
                }
                let slot = &mut self.slots[idx];
                match st.kind {
                    SetterKind::Plain => {
                        *slot = Option::Some(Payload::One(value));
                    },
                    SetterKind::Accumulator => {
                        match slot {
                            Option::Some(Payload::Many(items)) => {
                                items.push(value);
                            },
                            _ => {
                                let mut items: Vec<u64> = Vec::new();
                                items.push(value);
                                *slot = Option::Some(Payload::Many(items));
                            },
                        }
                    },
                }
                proof {
                    assert(final(self)@ =~= spec_invoke(a@, old(self)@, name@, value));
                }
                true
            },
        }
    }
}

/// A looked-up setter is one of the artifact's setters.
pub proof fn lemma_lookup_in_setters(setters: Seq<SetterModel>, name: Seq<char>)
    ensures
        spec_lookup_setter(setters, name) matches Option::Some(st) ==> setters.contains(st),
{
    lemma_find_in_setters(setters, name, SetterKind::Accumulator, 0);
    lemma_find_in_setters(setters, name, SetterKind::Plain, 0);
}

proof fn lemma_find_in_setters(setters: Seq<SetterModel>, name: Seq<char>, kind: SetterKind, i: int)
    ensures
        spec_find_setter(setters, name, kind, i) matches Option::Some(st) ==> setters.contains(st),
    decreases setters.len() - i,
{
    if 0 <= i < setters.len() {
        lemma_find_in_setters(setters, name, kind, i + 1);
    }
}

/// The resolved value of one field after a successful build.
#[derive(PartialEq, Eq, Debug)]
pub enum FieldValue {
    /// The payload of a required (non-optional) field.
    Given(Payload),
    /// An optional field whose slot was never touched: the absent value.
    Absent,
    /// An optional field that was set: the present value wrapping exactly the
    /// payload that was given.
    Present(Payload),
}

/// Mathematical image of a [`FieldValue`].
#[verifier::ext_equal]
pub enum FieldValueModel {
    Given(PayloadModel),
    Absent,
    Present(PayloadModel),
}

impl View for FieldValue {
    type V = FieldValueModel;

    open spec fn view(&self) -> FieldValueModel {
        match self {
            FieldValue::Given(p) => FieldValueModel::Given(p@),
            FieldValue::Absent => FieldValueModel::Absent,
            FieldValue::Present(p) => FieldValueModel::Present(p@),
        }
    }
}

/// The record value a successful build returns: one resolved value per
/// field, in declaration order.
#[derive(PartialEq, Eq, Debug)]
pub struct BuiltRecord {
    pub values: Vec<FieldValue>,
}

/// The models of a sequence of resolved values, in order.
pub open spec fn values_model(s: Seq<FieldValue>) -> Seq<FieldValueModel> {
    Seq::new(s.len(), |i: int| s[i]@)
}

impl View for BuiltRecord {
    type V = Seq<FieldValueModel>;

    open spec fn view(&self) -> Seq<FieldValueModel> {
        values_model(self.values@)
    }
}

/// The failure of a build: the first required field, in declaration order,
/// whose slot was never set.
#[derive(PartialEq, Eq, Debug)]
pub struct BuildError {
    pub field: String,
}

/// Mathematical image of a [`BuildError`].
#[verifier::ext_equal]
pub struct BuildErrorModel {
    pub field: Seq<char>,
}

impl View for BuildError {
    type V = BuildErrorModel;

    open spec fn view(&self) -> BuildErrorModel {
        BuildErrorModel { field: self.field@ }
    }
}

impl BuildError {
    /// The failure rendered as text: the missing field's name followed by
    /// ` is required`, and nothing else.
    pub fn message(&self) -> (r: String)
        ensures
            r@ == self.field@ + " is required"@,
    {
        let mut m = self.field.clone();
        m.append(" is required");
        m
    }
}

/// How one slot resolves to a field value. An optional field resolves
/// whatever its slot holds: an untouched slot to the absent value, a touched
/// one to the present value wrapping the payload. A required field resolves
/// to its payload; its untouched case never resolves — the build fails
/// instead — and is mapped to the absent value only to keep this function
/// total.
pub open spec fn spec_resolved(optional: bool, slot: Option<PayloadModel>) -> FieldValueModel {
    if optional {
        match slot {
            Option::None => FieldValueModel::Absent,
            Option::Some(p) => FieldValueModel::Present(p),
        }
    } else {
        match slot {
            Option::Some(p) => FieldValueModel::Given(p),
            Option::None => FieldValueModel::Absent,
        }
    }
}

/// The first field at or after position `i` that blocks the build: required
/// (not optional) with an untouched slot.
pub open spec fn spec_first_missing(
    slots: Seq<SlotModel>,
    st: Seq<Option<PayloadModel>>,
    i: int,
) -> Option<int>
    decreases slots.len() - i,
{
    if i < 0 || i >= slots.len() {
        Option::None
    } else if !slots[i].optional && st[i] is None {
        Option::Some(i)
    } else {
        spec_first_missing(slots, st, i + 1)
    }
}

/// What [`spec_first_missing`] finds: the first blocking field, with nothing
/// blocking before it; or a guarantee that nothing blocks at all.
pub proof fn lemma_first_missing(slots: Seq<SlotModel>, st: Seq<Option<PayloadModel>>, i: int)
    requires
        0 <= i,
    ensures
        match spec_first_missing(slots, st, i) {
            Option::None => forall|k: int| i <= k < slots.len() ==> (#[trigger] slots[k]).optional
                || st[k] is Some,
            Option::Some(m) => i <= m < slots.len() && !slots[m].optional && st[m] is None
                && forall|k: int| i <= k < m ==> (#[trigger] slots[k]).optional || st[k] is Some,
        },
    decreases slots.len() - i,
{
    if 0 <= i < slots.len() {
        lemma_first_missing(slots, st, i + 1);
    }
}

/// What the validating build operation yields from a staging state: the
/// error naming the first missing required field, when one exists; the
/// resolved field values, in declaration order, otherwise.
pub open spec fn spec_build(slots: Seq<SlotModel>, st: Seq<Option<PayloadModel>>) -> Result<
    Seq<FieldValueModel>,
    BuildErrorModel,
> {
    match spec_first_missing(slots, st, 0) {
        Option::Some(m) => Err(BuildErrorModel { field: slots[m].field }),
        Option::None => Ok(Seq::new(slots.len(), |i: int| spec_resolved(slots[i].optional, st[i]))),
    }
}

/// The model of a build result.
pub open spec fn build_result_model(r: Result<BuiltRecord, BuildError>) -> Result<
    Seq<FieldValueModel>,
    BuildErrorModel,
> {
    match r {
        Ok(rec) => Ok(rec@),
        Err(e) => Err(e@),
    }
}

impl Staging {
    /// The validating build operation, per [`spec_build`]. It borrows the
    /// staging instance without consuming it: after a failed build the
    /// missing field can still be set and the build retried.
    pub fn build(&self, a: &Artifact) -> (r: Result<BuiltRecord, BuildError>)
        requires
            self@.len() == a@.slots.len(),
        ensures
            build_result_model(r) == spec_build(a@.slots, self@),
    {
        let ghost slots_m = a@.slots;
        let ghost st = self@;
        let mut values: Vec<FieldValue> = Vec::new();
        let mut i: usize = 0;
        while i < a.slots.len()
            invariant
                i <= slots_m.len(),
                slots_m == a@.slots,
                st == self@,
                st.len() == slots_m.len(),
                a.slots@.len() == slots_m.len(),
                self.slots@.len() == st.len(),
                spec_first_missing(slots_m, st, 0) == spec_first_missing(slots_m, st, i as int),
                values@.len() == i as int,
                forall|k: int| 0 <= k < i ==> (#[trigger] values@[k])@ == spec_resolved(
                    slots_m[k].optional,
                    st[k],
                ),
            decreases slots_m.len() - i,
        {
            let slot_spec = &a.slots[i];
            let value = match &self.slots[i] {
                Option::None => {
                    if !slot_spec.optional {
                        proof {
                            assert(spec_first_missing(slots_m, st, i as int) == Option::Some(
                                i as int,
                            ));
                        }
                        return Err(BuildError { field: slot_spec.field.clone() });
                    }
                    FieldValue::Absent
                },
                Option::Some(p) => if slot_spec.optional {
                    FieldValue::Present(p.duplicate())
                } else {
                    FieldValue::Given(p.duplicate())
                },
            };
            values.push(value);
            i += 1;
        }
        proof {
            assert(values_model(values@) =~= Seq::new(
                slots_m.len(),
                |k: int| spec_resolved(slots_m[k].optional, st[k]),
            ));
        }
        Ok(BuiltRecord { values })
    }
}

} // verus!
