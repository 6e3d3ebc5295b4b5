//! Code synthesis: from a type description to the staging-type artifacts —
//! the slot list, the setter method set and the data that drives the
//! validating build operation.

use vstd::prelude::*;
use crate::attr::{Diagnostic, DiagnosticModel, msg_expected_each, msg_text_expected_each};
use crate::field::{
    FieldAttr, FieldAttrModel, FieldDef, FieldDefModel, FieldSpec, FieldSpecModel, blocks_model,
    extract_field_specs, spec_field_spec,
};
use crate::shape::{
    ShapeModel, TypeShape, is_optional, item_type, spec_is_optional, spec_item_type,
    spec_strip_optional, strip_optional,
};

verus! {

/// The caller's description of the annotated type: its name and its data
/// shape.
pub struct TypeDef {
    pub name: String,
    pub data: TypeData,
}

/// The data shape of the annotated type. Only a record with named fields is
/// supported; the other shapes are rejected as a whole.
pub enum TypeData {
    Record(Vec<FieldDef>),
    Tuple,
    Enumeration,
    Unit,
}

/// Mathematical image of a [`TypeDef`].
#[verifier::ext_equal]
pub struct TypeDefModel {
    pub name: Seq<char>,
    pub data: TypeDataModel,
}

/// Mathematical image of a [`TypeData`].
#[verifier::ext_equal]
pub enum TypeDataModel {
    Record(Seq<FieldDefModel>),
    Tuple,
    Enumeration,
    Unit,
}

/// The models of a sequence of field definitions, in order.
pub open spec fn fields_model(s: Seq<FieldDef>) -> Seq<FieldDefModel> {
    Seq::new(s.len(), |i: int| s[i]@)
}

impl View for TypeData {
    type V = TypeDataModel;

    open spec fn view(&self) -> TypeDataModel {
        match *self {
            TypeData::Record(fields) => TypeDataModel::Record(fields_model(fields@)),
            TypeData::Tuple => TypeDataModel::Tuple,
            TypeData::Enumeration => TypeDataModel::Enumeration,
            TypeData::Unit => TypeDataModel::Unit,
        }
    }
}

impl View for TypeDef {
    type V = TypeDefModel;

    open spec fn view(&self) -> TypeDefModel {
        TypeDefModel { name: self.name@, data: self.data@ }
    }
}

/// How a generated setter treats its slot.
#[derive(Clone, Copy, PartialEq, Eq, Debug)]
pub enum SetterKind {
    /// Overwrites the slot with the given value.
    Plain,
    /// Appends the given item to the slot's collection, starting one when the
    /// slot is untouched.
    Accumulator,
}

/// One generated setter method: its name, the slot it writes (by field
/// index), its parameter type and its behaviour.
#[derive(PartialEq, Eq, Debug)]
pub struct SetterSpec {
    pub method: String,
    pub field_index: usize,
    pub param_ty: TypeShape,
    pub kind: SetterKind,
}

/// Mathematical image of a [`SetterSpec`].
#[verifier::ext_equal]
pub struct SetterModel {
    pub method: Seq<char>,
    pub field_index: int,
    pub param_ty: ShapeModel,
    pub kind: SetterKind,
}

impl View for SetterSpec {
    type V = SetterModel;

    open spec fn view(&self) -> SetterModel {
        SetterModel {
            method: self.method@,
            field_index: self.field_index as int,
            param_ty: self.param_ty@,
            kind: self.kind,
        }
    }
}

/// One slot of the staging type: the field it stages, the field's declared
/// type, and whether that type is an optional wrapper (an optional field
/// never blocks the build operation).
#[derive(PartialEq, Eq, Debug)]
pub struct SlotSpec {
    pub field: String,
    pub declared_ty: TypeShape,
    pub optional: bool,
}

/// Mathematical image of a [`SlotSpec`].
#[verifier::ext_equal]
pub struct SlotModel {
    pub field: Seq<char>,
    pub declared_ty: ShapeModel,
    pub optional: bool,
}

impl View for SlotSpec {
    type V = SlotModel;

    open spec fn view(&self) -> SlotModel {
        SlotModel { field: self.field@, declared_ty: self.declared_ty@, optional: self.optional }
    }
}

/// The synthesized artifacts for one annotated type: the staging type (one
/// slot per field, all initially untouched), the setter set, and the
/// diagnostics that replace the setters of fields whose attribute was
/// malformed. The build operation resolves slots in declaration order, per
/// the slots' `optional` flags.
#[derive(PartialEq, Eq, Debug)]
pub struct Artifact {
    pub target: String,
    pub builder_name: String,
    pub slots: Vec<SlotSpec>,
    pub setters: Vec<SetterSpec>,
    pub diagnostics: Vec<Diagnostic>,
}

/// Mathematical image of an [`Artifact`].
#[verifier::ext_equal]
pub struct ArtifactModel {
    pub target: Seq<char>,
    pub builder_name: Seq<char>,
    pub slots: Seq<SlotModel>,
    pub setters: Seq<SetterModel>,
    pub diagnostics: Seq<DiagnosticModel>,
}

/// The models of a sequence of slots, in order.
pub open spec fn slots_model(s: Seq<SlotSpec>) -> Seq<SlotModel> {
    Seq::new(s.len(), |i: int| s[i]@)
}

/// The models of a sequence of setters, in order.
pub open spec fn setters_model(s: Seq<SetterSpec>) -> Seq<SetterModel> {
    Seq::new(s.len(), |i: int| s[i]@)
}

/// The models of a sequence of diagnostics, in order.
pub open spec fn diagnostics_model(s: Seq<Diagnostic>) -> Seq<DiagnosticModel> {
    Seq::new(s.len(), |i: int| s[i]@)
}

impl View for Artifact {
    type V = ArtifactModel;

    open spec fn view(&self) -> ArtifactModel {
        ArtifactModel {
            target: self.target@,
            builder_name: self.builder_name@,
            slots: slots_model(self.slots@),
            setters: setters_model(self.setters@),
            diagnostics: diagnostics_model(self.diagnostics@),
        }
    }
}

/// Failure of a whole invocation: the input is not a record with named
/// fields.
#[derive(Clone, Copy, PartialEq, Eq, Debug)]
pub enum GenError {
    UnsupportedShape,
}

/// Message of the invocation-level failure for a non-record input.
pub open spec fn msg_unsupported_shape() -> Seq<char> {
    "expected a record type with named fields"@
}

impl GenError {
    /// The failure rendered as text.
    pub fn message(&self) -> (r: String)
        ensures
            r@ == msg_unsupported_shape(),
    {
        String::from_str("expected a record type with named fields")
    }
}

/// What synthesis yields for the field at index `i`: its setter, or the
/// diagnostic that replaces it.
///
/// - No attribute: a plain setter named after the field whose parameter type
///   is the declared type with an optional wrapper stripped.
/// - A parsed `each` alias: an accumulator setter named after the alias whose
///   parameter type is the item type of the (optionally unwrapped) declared
///   collection type.
/// - A parsed attribute that names no alias: a diagnostic at the block,
///   showing the expected grammar.
/// - A malformed attribute: its diagnostic, unchanged.
pub open spec fn spec_field_outcome(i: int, f: FieldSpecModel) -> Result<
    SetterModel,
    DiagnosticModel,
> {
    match f.attr {
        FieldAttrModel::Unattributed => Ok(
            SetterModel {
                method: f.name,
                field_index: i,
                param_ty: spec_strip_optional(f.ty),
                kind: SetterKind::Plain,
            },
        ),
        FieldAttrModel::Parsed(o, loc) => match o.each {
            Option::Some(alias) => Ok(
                SetterModel {
                    method: alias,
                    field_index: i,
                    param_ty: spec_item_type(spec_strip_optional(f.ty)),
                    kind: SetterKind::Accumulator,
                },
            ),
            Option::None => Err(DiagnosticModel { loc, message: msg_expected_each() }),
        },
        FieldAttrModel::Malformed(d) => Err(d),
    }
}

/// The staging type's slots: one per field, in declaration order.
pub open spec fn spec_slots(fs: Seq<FieldSpecModel>) -> Seq<SlotModel> {
    Seq::new(
        fs.len(),
        |i: int| SlotModel {
            field: fs[i].name,
            declared_ty: fs[i].ty,
            optional: spec_is_optional(fs[i].ty),
        },
    )
}

/// The generated setters, in declaration order of the fields that got one.
pub open spec fn spec_setters(fs: Seq<FieldSpecModel>) -> Seq<SetterModel>
    decreases fs.len(),
{
    if fs.len() == 0 {
        Seq::empty()
    } else {
        spec_setters(fs.drop_last()) + match spec_field_outcome(fs.len() - 1, fs.last()) {
            Ok(s) => seq![s],
            Err(_) => Seq::empty(),
        }
    }
}

/// The emitted diagnostics, in declaration order of the fields whose setter
/// they replace.
pub open spec fn spec_diagnostics(fs: Seq<FieldSpecModel>) -> Seq<DiagnosticModel>
    decreases fs.len(),
{
    if fs.len() == 0 {
        Seq::empty()
    } else {
        spec_diagnostics(fs.drop_last()) + match spec_field_outcome(fs.len() - 1, fs.last()) {
            Ok(_) => Seq::empty(),
            Err(d) => seq![d],
        }
    }
}

/// The extracted field models of a record's fields, in order.
pub open spec fn spec_field_specs(fs: Seq<FieldDefModel>) -> Seq<FieldSpecModel> {
    Seq::new(fs.len(), |i: int| spec_field_spec(fs[i]))
}

/// The whole artifact for a record named `name` with extracted fields `fs`.
/// The staging type's name is the record's with `Builder` appended.
pub open spec fn spec_artifact(name: Seq<char>, fs: Seq<FieldSpecModel>) -> ArtifactModel {
    ArtifactModel {
        target: name,
        builder_name: name + "Builder"@,
        slots: spec_slots(fs),
        setters: spec_setters(fs),
        diagnostics: spec_diagnostics(fs),
    }
}

/// What generation yields for a whole type description: the artifact for a
/// named-field record, or the invocation-level failure for any other shape.
pub open spec fn spec_generate(t: TypeDefModel) -> Result<ArtifactModel, GenError> {
    match t.data {
        TypeDataModel::Record(fields) => Ok(spec_artifact(t.name, spec_field_specs(fields))),
        _ => Err(GenError::UnsupportedShape),
    }
}

/// The model of a generation result.
pub open spec fn gen_result_model(r: Result<Artifact, GenError>) -> Result<
    ArtifactModel,
    GenError,
> {
    match r {
        Ok(a) => Ok(a@),
        Err(e) => Err(e),
    }
}

/// Synthesizes the staging artifacts for one type description, per
/// [`spec_generate`]. Diagnostics of independent fields do not block each
/// other: every field with a well-formed (or no) attribute still gets its
/// setter.
pub fn generate(input: &TypeDef) -> (r: Result<Artifact, GenError>)
    ensures
        gen_result_model(r) == spec_generate(input@),
{
    match &input.data {
        TypeData::Record(fields) => {
            let ghost fm = fields_model(fields@);
            let ghost sm = spec_field_specs(fm);
            proof {
                assert(input.data@ == TypeDataModel::Record(fm));
            }
            let specs = extract_field_specs(fields);
            proof {
                assert forall|k: int| 0 <= k < specs@.len() implies (#[trigger] specs@[k])@
                    == sm[k] by {
                    assert(specs@[k]@ == spec_field_spec(fields@[k]@));
                }
            }
            let mut slots: Vec<SlotSpec> = Vec::new();
            let mut setters: Vec<SetterSpec> = Vec::new();
            let mut diagnostics: Vec<Diagnostic> = Vec::new();
            let mut i: usize = 0;
            while i < specs.len()
                invariant
                    i <= specs@.len(),
                    specs@.len() == sm.len(),
                    forall|k: int| 0 <= k < specs@.len() ==> (#[trigger] specs@[k])@ == sm[k],
                    slots@.len() == i as int,
                    forall|k: int| 0 <= k < i ==> (#[trigger] slots@[k])@ == spec_slots(sm)[k],
                    setters_model(setters@) == spec_setters(sm.take(i as int)),
                    diagnostics_model(diagnostics@) == spec_diagnostics(sm.take(i as int)),
                decreases specs@.len() - i,
            {
                let ghost prefix = sm.take(i as int);
                let ghost next = sm.take(i as int + 1);
                proof {
                    assert(next.drop_last() =~= prefix);
                    assert(next.last() == sm[i as int]);
                }
                let f = &specs[i];
                slots.push(
                    SlotSpec {
                        field: f.name.clone(),
                        declared_ty: f.ty.duplicate(),
                        optional: is_optional(&f.ty),
                    },
                );
                match &f.attr {
                    FieldAttr::Unattributed => {
                        setters.push(
                            SetterSpec {
                                method: f.name.clone(),
                                field_index: i,
                                param_ty: strip_optional(&f.ty).duplicate(),
                                kind: SetterKind::Plain,
                            },
                        );
                    },
                    FieldAttr::Parsed(opts, loc) => {
                        match &opts.each {
                            Option::Some(alias) => {
                                setters.push(
                                    SetterSpec {
                                        method: alias.clone(),
                                        field_index: i,
                                        param_ty: item_type(strip_optional(&f.ty)).duplicate(),
                                        kind: SetterKind::Accumulator,
                                    },
                                );
                            },
                            Option::None => {
                                diagnostics.push(
                                    Diagnostic { loc: *loc, message: msg_text_expected_each() },
                                );
                            },
                        }
                    },
                    FieldAttr::Malformed(d) => {
                        diagnostics.push(Diagnostic { loc: d.loc, message: d.message.clone() });
                    },
                }
                proof {
                    assert(setters_model(setters@) =~= spec_setters(next));
                    assert(diagnostics_model(diagnostics@) =~= spec_diagnostics(next));
                }
                i += 1;
            }
            let mut builder_name = input.name.clone();
            builder_name.append("Builder");
            let artifact = Artifact {
                target: input.name.clone(),
                builder_name,
                slots,
                setters,
                diagnostics,
            };
            proof {
                assert(sm.take(sm.len() as int) =~= sm);
                assert(slots_model(artifact.slots@) =~= spec_slots(sm));
                assert(artifact@ =~= spec_artifact(input.name@, sm));
            }
            Ok(artifact)
        },
        TypeData::Tuple => Err(GenError::UnsupportedShape),
        TypeData::Enumeration => Err(GenError::UnsupportedShape),
        TypeData::Unit => Err(GenError::UnsupportedShape),
    }
}

} // verus!
