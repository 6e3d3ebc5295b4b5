//! Laws of the synthesized builders, stated over the models and proved once
//! for every input the generator accepts.

use vstd::prelude::*;
use crate::attr::BlockModel;
use crate::field::{FieldDefModel, FieldSpecModel, spec_field_spec, spec_first_builder_block};
use crate::shape::{spec_is_optional, spec_strip_optional};
use crate::staging::{
    BuildErrorModel, FieldValueModel, PayloadModel, artifact_wf, lemma_first_missing,
    lemma_lookup_in_setters, spec_apply_setter, spec_build, spec_find_setter, spec_first_missing,
    spec_invoke, spec_lookup_setter, spec_resolved, spec_run,
};
use crate::synth::{
    ArtifactModel, SetterKind, SetterModel, TypeDefModel, TypeDataModel, spec_artifact,
    spec_field_specs, spec_generate, spec_setters,
};

verus! {

proof fn lemma_find_setter_found(
    setters: Seq<SetterModel>,
    name: Seq<char>,
    kind: SetterKind,
    i: int,
)
    ensures
        spec_find_setter(setters, name, kind, i) matches Option::Some(s) ==> s.method == name
            && s.kind == kind,
    decreases setters.len() - i,
{
    if 0 <= i < setters.len() {
        lemma_find_setter_found(setters, name, kind, i + 1);
    }
}

proof fn lemma_find_setter_none(
    setters: Seq<SetterModel>,
    name: Seq<char>,
    kind: SetterKind,
    i: int,
)
    requires
        0 <= i,
        forall|k: int| i <= k < setters.len() ==> !((#[trigger] setters[k]).method == name
            && setters[k].kind == kind),
    ensures
        spec_find_setter(setters, name, kind, i) is None,
    decreases setters.len() - i,
{
    if i < setters.len() {
        lemma_find_setter_none(setters, name, kind, i + 1);
    }
}

proof fn lemma_find_setter_some(
    setters: Seq<SetterModel>,
    name: Seq<char>,
    kind: SetterKind,
    i: int,
    w: int,
)
    requires
        0 <= i <= w < setters.len(),
        setters[w].method == name,
        setters[w].kind == kind,
    ensures
        spec_find_setter(setters, name, kind, i) is Some,
    decreases w - i,
{
    if i < w && !(setters[i].method == name && setters[i].kind == kind) {
        lemma_find_setter_some(setters, name, kind, i + 1, w);
    }
}

proof fn lemma_find_setter_exact(
    setters: Seq<SetterModel>,
    name: Seq<char>,
    kind: SetterKind,
    i: int,
    m: int,
)
    requires
        0 <= i <= m < setters.len(),
        setters[m].method == name,
        setters[m].kind == kind,
        forall|k: int| i <= k < m ==> !((#[trigger] setters[k]).method == name
            && setters[k].kind == kind),
    ensures
        spec_find_setter(setters, name, kind, i) == Option::Some(setters[m]),
    decreases m - i,
{
    if i < m {
        lemma_find_setter_exact(setters, name, kind, i + 1, m);
    }
}

proof fn lemma_setters_indexes(fs: Seq<FieldSpecModel>)
    ensures
        forall|k: int| 0 <= k < spec_setters(fs).len() ==> 0 <= (#[trigger] spec_setters(
            fs,
        )[k]).field_index < fs.len(),
    decreases fs.len(),
{
    if fs.len() > 0 {
        lemma_setters_indexes(fs.drop_last());
    }
}

/// Every artifact the generator yields is well-formed: each setter writes a
/// slot that exists.
pub proof fn lemma_generate_wf(t: TypeDefModel)
    ensures
        spec_generate(t) matches Ok(a) ==> artifact_wf(a),
{
    match t.data {
        TypeDataModel::Record(fields) => {
            lemma_setters_indexes(spec_field_specs(fields));
        },
        _ => {},
    }
}

/// In a record of only unattributed fields, the generated setters are
/// exactly one plain setter per field, named after it, in declaration order.
pub proof fn lemma_setters_all_plain(fs: Seq<FieldSpecModel>)
    requires
        forall|i: int| 0 <= i < fs.len() ==> (#[trigger] fs[i]).attr is Unattributed,
    ensures
        spec_setters(fs).len() == fs.len(),
        forall|i: int| 0 <= i < fs.len() ==> (#[trigger] spec_setters(fs)[i]) == (SetterModel {
            method: fs[i].name,
            field_index: i,
            param_ty: spec_strip_optional(fs[i].ty),
            kind: SetterKind::Plain,
        }),
    decreases fs.len(),
{
    if fs.len() > 0 {
        assert(forall|i: int| 0 <= i < fs.drop_last().len() ==> (#[trigger] fs.drop_last()[i]).attr
            is Unattributed);
        lemma_setters_all_plain(fs.drop_last());
    }
}

proof fn lemma_no_builder_block(attrs: Seq<BlockModel>, i: int)
    requires
        0 <= i,
        forall|k: int| i <= k < attrs.len() ==> (#[trigger] attrs[k]).name != "builder"@,
    ensures
        spec_first_builder_block(attrs, i) is None,
    decreases attrs.len() - i,
{
    if i < attrs.len() {
        lemma_no_builder_block(attrs, i + 1);
    }
}

/// A field that carries no `builder` attribute block extracts as
/// unattributed, so it gets the plain setter named after it.
pub proof fn lemma_no_attrs_unattributed(f: FieldDefModel)
    requires
        forall|k: int| 0 <= k < f.attrs.len() ==> (#[trigger] f.attrs[k]).name != "builder"@,
    ensures
        spec_field_spec(f).attr is Unattributed,
{
    lemma_no_builder_block(f.attrs, 0);
}

/// Law: the build operation succeeds exactly when every required
/// (non-optional) field's slot was set; optional fields never block it.
pub proof fn law_build_success_iff(
    name: Seq<char>,
    fs: Seq<FieldSpecModel>,
    st: Seq<Option<PayloadModel>>,
)
    requires
        st.len() == fs.len(),
    ensures
        spec_build(spec_artifact(name, fs).slots, st) is Ok <==> (forall|k: int|
            0 <= k < fs.len() ==> spec_is_optional((#[trigger] fs[k]).ty) || st[k] is Some),
{
    let slots = spec_artifact(name, fs).slots;
    lemma_first_missing(slots, st, 0);
    assert(forall|k: int| 0 <= k < fs.len() ==> (#[trigger] slots[k]).optional == spec_is_optional(
        fs[k].ty,
    ));
    match spec_first_missing(slots, st, 0) {
        Option::Some(m) => {
            assert(!spec_is_optional(fs[m].ty) && st[m] is None);
        },
        Option::None => {
            assert forall|k: int| 0 <= k < fs.len() implies spec_is_optional((#[trigger] fs[k]).ty)
                || st[k] is Some by {
                assert(slots[k].optional || st[k] is Some);
            }
        },
    }
}

/// Law: when exactly one required field was never set, the build fails and
/// the failure carries that field's name — and no other's.
pub proof fn law_missing_field_reported(
    name: Seq<char>,
    fs: Seq<FieldSpecModel>,
    st: Seq<Option<PayloadModel>>,
    m: int,
)
    requires
        st.len() == fs.len(),
        0 <= m < fs.len(),
        !spec_is_optional(fs[m].ty),
        st[m] is None,
        forall|k: int| 0 <= k < fs.len() && k != m ==> spec_is_optional((#[trigger] fs[k]).ty)
            || st[k] is Some,
    ensures
        spec_build(spec_artifact(name, fs).slots, st) == Err::<Seq<FieldValueModel>, _>(
            BuildErrorModel { field: fs[m].name },
        ),
{
    let slots = spec_artifact(name, fs).slots;
    lemma_first_missing(slots, st, 0);
    match spec_first_missing(slots, st, 0) {
        Option::None => {
            assert(slots[m].optional || st[m] is Some);
        },
        Option::Some(mm) => {
            if mm != m {
                if mm < m {
                    assert(spec_is_optional(fs[mm].ty) || st[mm] is Some);
                } else {
                    assert(slots[m].optional || st[m] is Some);
                }
            }
        },
    }
}

/// Law: an optional field never affects whether the build succeeds — the
/// outcome is the same as with the field untouched — and on success it
/// resolves to the absent value when untouched, and to the present value
/// wrapping exactly the payload that was set.
pub proof fn law_optional_field(
    name: Seq<char>,
    fs: Seq<FieldSpecModel>,
    st: Seq<Option<PayloadModel>>,
    i: int,
)
    requires
        st.len() == fs.len(),
        0 <= i < fs.len(),
        spec_is_optional(fs[i].ty),
    ensures
        spec_build(spec_artifact(name, fs).slots, st) is Ok <==> spec_build(
            spec_artifact(name, fs).slots,
            st.update(i, Option::None),
        ) is Ok,
        spec_build(spec_artifact(name, fs).slots, st) matches Ok(vals) ==> vals[i]
            == spec_resolved(true, st[i]),
        spec_build(spec_artifact(name, fs).slots, st) matches Ok(vals) ==> (st[i] is None
            ==> vals[i] is Absent) && (st[i] matches Option::Some(p) ==> vals[i]
            == FieldValueModel::Present(p)),
{
    let slots = spec_artifact(name, fs).slots;
    law_build_success_iff(name, fs, st);
    law_build_success_iff(name, fs, st.update(i, Option::None));
    assert forall|k: int| 0 <= k < fs.len() implies ((spec_is_optional((#[trigger] fs[k]).ty)
        || st[k] is Some) <==> (spec_is_optional(fs[k].ty) || st.update(i, Option::None)[k]
        is Some)) by {
        if k != i {
            assert(st.update(i, Option::None)[k] == st[k]);
        }
    }
    lemma_first_missing(slots, st, 0);
}

/// Law: whenever some accumulator setter bears a method name, the name
/// resolves to accumulator behaviour, even when a plain setter — another
/// field's setter named after it — bears the same name; the first such
/// accumulator in declaration order wins.
pub proof fn law_collision_prefers_accumulator(
    setters: Seq<SetterModel>,
    name: Seq<char>,
    w: int,
)
    requires
        0 <= w < setters.len(),
        setters[w].method == name,
        setters[w].kind == SetterKind::Accumulator,
    ensures
        spec_lookup_setter(setters, name) matches Option::Some(s) && s.kind
            == SetterKind::Accumulator && s.method == name,
{
    lemma_find_setter_some(setters, name, SetterKind::Accumulator, 0, w);
    lemma_find_setter_found(setters, name, SetterKind::Accumulator, 0);
}

/// Law: a staging state whose build failed for its one missing field is
/// completed by invoking any setter that writes that field; the retried
/// build then succeeds. (The failed build does not consume the staging
/// state: [`crate::staging::Staging::build`] only borrows it.)
pub proof fn law_retry_after_missing(
    name: Seq<char>,
    fs: Seq<FieldSpecModel>,
    st: Seq<Option<PayloadModel>>,
    setter_name: Seq<char>,
    value: u64,
    m: int,
)
    requires
        st.len() == fs.len(),
        0 <= m < fs.len(),
        !spec_is_optional(fs[m].ty),
        st[m] is None,
        forall|k: int| 0 <= k < fs.len() && k != m ==> spec_is_optional((#[trigger] fs[k]).ty)
            || st[k] is Some,
        spec_lookup_setter(spec_artifact(name, fs).setters, setter_name) matches Option::Some(s)
            && s.field_index == m,
    ensures
        spec_build(spec_artifact(name, fs).slots, st) == Err::<Seq<FieldValueModel>, _>(
            BuildErrorModel { field: fs[m].name },
        ),
        spec_build(
            spec_artifact(name, fs).slots,
            spec_invoke(spec_artifact(name, fs), st, setter_name, value),
        ) is Ok,
{
    law_missing_field_reported(name, fs, st, m);
    let a = spec_artifact(name, fs);
    let st2 = spec_invoke(a, st, setter_name, value);
    let s = spec_lookup_setter(a.setters, setter_name)->Some_0;
    assert(st2 == st.update(m, spec_apply_setter(st[m], s.kind, value)));
    assert(st2[m] is Some);
    law_build_success_iff(name, fs, st2);
    assert forall|k: int| 0 <= k < fs.len() implies spec_is_optional((#[trigger] fs[k]).ty)
        || st2[k] is Some by {
        if k != m {
            assert(st2[k] == st[k]);
        }
    }
}

proof fn lemma_accumulate_more(
    a: ArtifactModel,
    st: Seq<Option<PayloadModel>>,
    alias: Seq<char>,
    items: Seq<u64>,
    m: int,
    acc: Seq<u64>,
)
    requires
        artifact_wf(a),
        st.len() == a.slots.len(),
        spec_lookup_setter(a.setters, alias) matches Option::Some(s) && s.kind
            == SetterKind::Accumulator && s.field_index == m,
        0 <= m < st.len(),
        st[m] == Option::Some(PayloadModel::Many(acc)),
    ensures
        ({
            let end = spec_run(a, st, Seq::new(items.len(), |j: int| (alias, items[j])));
            &&& end.len() == st.len()
            &&& end[m] == Option::Some(PayloadModel::Many(acc + items))
            &&& forall|k: int| 0 <= k < st.len() && k != m ==> end[k] == st[k]
        }),
    decreases items.len(),
{
    let calls = Seq::new(items.len(), |j: int| (alias, items[j]));
    if items.len() == 0 {
        assert(acc + items =~= acc);
    } else {
        let st1 = spec_invoke(a, st, alias, items[0]);
        let s = spec_lookup_setter(a.setters, alias)->Some_0;
        assert(st1 == st.update(m, spec_apply_setter(st[m], s.kind, items[0])));
        assert(st1[m] == Option::Some(PayloadModel::Many(acc.push(items[0]))));
        lemma_accumulate_more(a, st1, alias, items.drop_first(), m, acc.push(items[0]));
        let calls1 = Seq::new(items.drop_first().len(), |j: int| (alias, items.drop_first()[j]));
        assert(calls.drop_first() =~= calls1);
        assert(acc.push(items[0]) + items.drop_first() =~= acc + items);
    }
}

/// Law: invoking an accumulator setter with a sequence of items, in order,
/// starting from an untouched slot, leaves exactly that ordered sequence in
/// the slot and touches no other slot; invoking it zero times leaves every
/// slot as it was — so a later build still fails for that field when its
/// declared type is not optional.
pub proof fn law_accumulator_collects(
    a: ArtifactModel,
    st: Seq<Option<PayloadModel>>,
    alias: Seq<char>,
    items: Seq<u64>,
    m: int,
)
    requires
        artifact_wf(a),
        st.len() == a.slots.len(),
        spec_lookup_setter(a.setters, alias) matches Option::Some(s) && s.kind
            == SetterKind::Accumulator && s.field_index == m,
        st[m] is None,
    ensures
        ({
            let end = spec_run(a, st, Seq::new(items.len(), |j: int| (alias, items[j])));
            &&& end.len() == st.len()
            &&& items.len() > 0 ==> end[m] == Option::Some(PayloadModel::Many(items))
            &&& items.len() == 0 ==> end == st
            &&& forall|k: int| 0 <= k < st.len() && k != m ==> end[k] == st[k]
        }),
{
    let calls = Seq::new(items.len(), |j: int| (alias, items[j]));
    let s = spec_lookup_setter(a.setters, alias)->Some_0;
    lemma_lookup_in_setters(a.setters, alias);
    assert(0 <= m < st.len());
    if items.len() == 0 {
    } else {
        let st1 = spec_invoke(a, st, alias, items[0]);
        assert(st1 == st.update(m, spec_apply_setter(st[m], s.kind, items[0])));
        assert(st1[m] == Option::Some(PayloadModel::Many(seq![items[0]])));
        lemma_accumulate_more(a, st1, alias, items.drop_first(), m, seq![items[0]]);
        let calls1 = Seq::new(items.drop_first().len(), |j: int| (alias, items.drop_first()[j]));
        assert(calls.drop_first() =~= calls1);
        assert(seq![items[0]] + items.drop_first() =~= items);
    }
}

proof fn lemma_run_plain_fields(
    name: Seq<char>,
    fs: Seq<FieldSpecModel>,
    vals: Seq<u64>,
    st: Seq<Option<PayloadModel>>,
    k: int,
)
    requires
        vals.len() == fs.len(),
        st.len() == fs.len(),
        0 <= k <= fs.len(),
        forall|i: int| 0 <= i < fs.len() ==> (#[trigger] fs[i]).attr is Unattributed,
        forall|i: int, j: int| #![trigger fs[i].name, fs[j].name]
            0 <= i < j < fs.len() ==> fs[i].name != fs[j].name,
    ensures
        ({
            let a = spec_artifact(name, fs);
            let calls = Seq::new((fs.len() - k) as nat, |j: int| (fs[k + j].name, vals[k + j]));
            let end = spec_run(a, st, calls);
            &&& end.len() == st.len()
            &&& forall|i: int| 0 <= i < k ==> end[i] == st[i]
            &&& forall|i: int| k <= i < fs.len() ==> end[i] == Option::Some(
                PayloadModel::One(vals[i]),
            )
        }),
    decreases fs.len() - k,
{
    let a = spec_artifact(name, fs);
    let setters = spec_setters(fs);
    lemma_setters_all_plain(fs);
    let calls = Seq::new((fs.len() - k) as nat, |j: int| (fs[k + j].name, vals[k + j]));
    if k < fs.len() {
        assert(forall|i: int| 0 <= i < setters.len() ==> !((#[trigger] setters[i]).method
            == fs[k].name && setters[i].kind == SetterKind::Accumulator));
        lemma_find_setter_none(setters, fs[k].name, SetterKind::Accumulator, 0);
        assert(forall|i: int| 0 <= i < k ==> !((#[trigger] setters[i]).method == fs[k].name
            && setters[i].kind == SetterKind::Plain));
        lemma_find_setter_exact(setters, fs[k].name, SetterKind::Plain, 0, k);
        assert(spec_lookup_setter(setters, fs[k].name) == Option::Some(setters[k]));
        let st1 = spec_invoke(a, st, fs[k].name, vals[k]);
        assert(st1 == st.update(k, Option::Some(PayloadModel::One(vals[k]))));
        lemma_run_plain_fields(name, fs, vals, st1, k + 1);
        let calls1 = Seq::new((fs.len() - k - 1) as nat, |j: int| (fs[k + 1 + j].name, vals[k + 1 + j]));
        assert(calls.drop_first() =~= calls1);
        assert(calls[0] == (fs[k].name, vals[k]));
    }
}

/// Law: for a record of only plain (unattributed), required (non-optional)
/// fields with distinct names, setting every field once through its
/// generated setter, in any one pass over the fields, and then building,
/// succeeds and returns exactly the values that were set, in declaration
/// order.
pub proof fn law_plain_record_build(name: Seq<char>, fs: Seq<FieldSpecModel>, vals: Seq<u64>)
    requires
        vals.len() == fs.len(),
        forall|i: int| 0 <= i < fs.len() ==> (#[trigger] fs[i]).attr is Unattributed,
        forall|i: int| 0 <= i < fs.len() ==> !spec_is_optional((#[trigger] fs[i]).ty),
        forall|i: int, j: int| #![trigger fs[i].name, fs[j].name]
            0 <= i < j < fs.len() ==> fs[i].name != fs[j].name,
    ensures
        ({
            let a = spec_artifact(name, fs);
            let start = Seq::new(fs.len(), |i: int| Option::<PayloadModel>::None);
            let end = spec_run(a, start, Seq::new(fs.len(), |i: int| (fs[i].name, vals[i])));
            spec_build(a.slots, end) == Ok::<_, BuildErrorModel>(
                Seq::new(fs.len(), |i: int| FieldValueModel::Given(PayloadModel::One(vals[i]))),
            )
        }),
{
    let a = spec_artifact(name, fs);
    let start = Seq::new(fs.len(), |i: int| Option::<PayloadModel>::None);
    lemma_run_plain_fields(name, fs, vals, start, 0);
    let calls0 = Seq::new((fs.len() - 0) as nat, |j: int| (fs[0 + j].name, vals[0 + j]));
    let calls = Seq::new(fs.len(), |i: int| (fs[i].name, vals[i]));
    assert(calls0 =~= calls);
    let end = spec_run(a, start, calls);
    lemma_first_missing(a.slots, end, 0);
    match spec_first_missing(a.slots, end, 0) {
        Option::Some(mm) => {
            assert(end[mm] is Some);
        },
        Option::None => {
            assert(spec_build(a.slots, end) matches Ok(vals2) && vals2 =~= Seq::new(
                fs.len(),
                |i: int| FieldValueModel::Given(PayloadModel::One(vals[i])),
            ));
        },
    }
}

} // verus!
