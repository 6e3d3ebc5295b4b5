//! Field model extraction: pairing each field's name and declared type with
//! its parsed attribute options.

use vstd::prelude::*;
use crate::attr::{
    AttrBlock, BlockModel, BuilderOptions, Diagnostic, DiagnosticModel, OptionsModel,
    parse_builder_options, spec_parse_block,
};
use crate::shape::{ShapeModel, TypeShape};

verus! {

/// One source field as described by the caller: its name, its declared type
/// shape, and its attribute blocks in source order.
pub struct FieldDef {
    pub name: String,
    pub ty: TypeShape,
    pub attrs: Vec<AttrBlock>,
}

/// Mathematical image of a [`FieldDef`].
#[verifier::ext_equal]
pub struct FieldDefModel {
    pub name: Seq<char>,
    pub ty: ShapeModel,
    pub attrs: Seq<BlockModel>,
}

/// The models of a sequence of attribute blocks, in order.
pub open spec fn blocks_model(s: Seq<AttrBlock>) -> Seq<BlockModel> {
    Seq::new(s.len(), |i: int| s[i]@)
}

impl View for FieldDef {
    type V = FieldDefModel;

    open spec fn view(&self) -> FieldDefModel {
        FieldDefModel { name: self.name@, ty: self.ty@, attrs: blocks_model(self.attrs@) }
    }
}

/// What the attribute lookup yields for one field.
#[derive(PartialEq, Eq, Debug)]
pub enum FieldAttr {
    /// The field carries no recognized attribute block.
    Unattributed,
    /// The first recognized block parsed successfully, with the block's own
    /// source location.
    Parsed(BuilderOptions, u64),
    /// The first recognized block violated the grammar.
    Malformed(Diagnostic),
}

/// Mathematical image of a [`FieldAttr`].
#[verifier::ext_equal]
pub enum FieldAttrModel {
    Unattributed,
    Parsed(OptionsModel, u64),
    Malformed(DiagnosticModel),
}

impl View for FieldAttr {
    type V = FieldAttrModel;

    open spec fn view(&self) -> FieldAttrModel {
        match *self {
            FieldAttr::Unattributed => FieldAttrModel::Unattributed,
            FieldAttr::Parsed(o, loc) => FieldAttrModel::Parsed(o@, loc),
            FieldAttr::Malformed(d) => FieldAttrModel::Malformed(d@),
        }
    }
}

/// The extracted model of one field, which drives all code synthesis.
#[derive(PartialEq, Eq, Debug)]
pub struct FieldSpec {
    pub name: String,
    pub ty: TypeShape,
    pub attr: FieldAttr,
}

/// Mathematical image of a [`FieldSpec`].
#[verifier::ext_equal]
pub struct FieldSpecModel {
    pub name: Seq<char>,
    pub ty: ShapeModel,
    pub attr: FieldAttrModel,
}

impl View for FieldSpec {
    type V = FieldSpecModel;

    open spec fn view(&self) -> FieldSpecModel {
        FieldSpecModel { name: self.name@, ty: self.ty@, attr: self.attr@ }
    }
}

/// The first attribute block named `builder` at or after position `i`, if
/// any. Later recognized blocks on the same field are ignored.
pub open spec fn spec_first_builder_block(attrs: Seq<BlockModel>, i: int) -> Option<BlockModel>
    decreases attrs.len() - i,
{
    if i < 0 || i >= attrs.len() {
        Option::None
    } else if attrs[i].name == "builder"@ {
        Option::Some(attrs[i])
    } else {
        spec_first_builder_block(attrs, i + 1)
    }
}

/// The attribute outcome of a field: absent when no `builder` block exists;
/// otherwise the parse of the first such block.
pub open spec fn spec_field_attr(f: FieldDefModel) -> FieldAttrModel {
    match spec_first_builder_block(f.attrs, 0) {
        Option::None => FieldAttrModel::Unattributed,
        Option::Some(b) => match spec_parse_block(b) {
            Ok(o) => FieldAttrModel::Parsed(o, b.loc),
            Err(d) => FieldAttrModel::Malformed(d),
        },
    }
}

/// The extracted model of a field: name and declared type unchanged, paired
/// with its attribute outcome.
pub open spec fn spec_field_spec(f: FieldDefModel) -> FieldSpecModel {
    FieldSpecModel { name: f.name, ty: f.ty, attr: spec_field_attr(f) }
}

/// Extracts the model of one field per [`spec_field_spec`].
pub fn extract_field_spec(f: &FieldDef) -> (r: FieldSpec)
    ensures
        r@ == spec_field_spec(f@),
{
    let builder_name = String::from_str("builder");
    let mut i: usize = 0;
    let mut found: Option<&AttrBlock> = Option::None;
    while i < f.attrs.len()
        invariant
            i <= f.attrs@.len(),
            found matches Option::None ==> spec_first_builder_block(blocks_model(f.attrs@), 0)
                == spec_first_builder_block(blocks_model(f.attrs@), i as int),
            found matches Option::Some(b) ==> spec_first_builder_block(blocks_model(f.attrs@), 0)
                == Option::Some(b@),
            builder_name@ == "builder"@,
        decreases f.attrs@.len() - i,
    {
        if matches!(found, Option::None) {
            let block = &f.attrs[i];
            if block.name == builder_name {
                found = Option::Some(block);
            }
        }
        i += 1;
    }
    let attr = match found {
        Option::None => FieldAttr::Unattributed,
        Option::Some(block) => match parse_builder_options(block) {
            Ok(o) => FieldAttr::Parsed(o, block.loc),
            Err(d) => FieldAttr::Malformed(d),
        },
    };
    FieldSpec { name: f.name.clone(), ty: f.ty.duplicate(), attr }
}

/// Extracts one [`FieldSpec`] per field, in declaration order.
pub fn extract_field_specs(fields: &Vec<FieldDef>) -> (r: Vec<FieldSpec>)
    ensures
        r@.len() == fields@.len(),
        forall|i: int| 0 <= i < fields@.len() ==> (#[trigger] r@[i])@ == spec_field_spec(
            fields@[i]@,
        ),
{
    let mut out: Vec<FieldSpec> = Vec::new();
    let mut i: usize = 0;
    while i < fields.len()
        invariant
            i <= fields@.len(),
            out@.len() == i as int,
            forall|k: int| 0 <= k < i ==> (#[trigger] out@[k])@ == spec_field_spec(fields@[k]@),
        decreases fields@.len() - i,
    {
        out.push(extract_field_spec(&fields[i]));
        i += 1;
    }
    out
}

} // verus!
