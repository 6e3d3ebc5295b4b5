//! Tests of the staging semantics: setter behaviour, the validating build
//! operation, and the documented edge cases.

use builder::attr::AttrBlock;
use builder::attr::AttrToken;
use builder::field::FieldDef;
use builder::shape::TypeShape;
use builder::staging::{FieldValue, Payload, Staging, artifact_is_wf, lookup_setter};
use builder::synth::{Artifact, SetterKind, TypeData, TypeDef, generate};

fn named(segments: &[&str], args: Vec<TypeShape>) -> TypeShape {
    TypeShape::Named {
        segments: segments.iter().map(|s| s.to_string()).collect(),
        args,
    }
}

fn plain(name: &str) -> TypeShape {
    named(&[name], vec![])
}

fn each_attr(alias: &str, loc: u64) -> AttrBlock {
    AttrBlock {
        name: "builder".to_string(),
        loc,
        tokens: vec![
            AttrToken::Ident { text: "each".to_string(), loc: loc + 1 },
            AttrToken::Equals { loc: loc + 2 },
            AttrToken::StrLit { value: alias.to_string(), loc: loc + 3 },
        ],
    }
}

fn field(name: &str, ty: TypeShape, attrs: Vec<AttrBlock>) -> FieldDef {
    FieldDef { name: name.to_string(), ty, attrs }
}

fn record(name: &str, fields: Vec<FieldDef>) -> TypeDef {
    TypeDef { name: name.to_string(), data: TypeData::Record(fields) }
}

/// Two plain required fields.
fn plain_artifact() -> Artifact {
    let input = record(
        "Command",
        vec![field("executable", plain("String"), vec![]), field("args", plain("String"), vec![])],
    );
    generate(&input).unwrap()
}

fn set(staging: &mut Staging, a: &Artifact, method: &str, value: u64) -> bool {
    staging.invoke_setter(a, &method.to_string(), value)
}

#[test]
fn generated_artifacts_are_well_formed() {
    assert!(artifact_is_wf(&plain_artifact()));
}

#[test]
fn setting_every_field_builds_exactly_those_values() {
    let a = plain_artifact();
    let mut staging = Staging::for_artifact(&a);
    assert!(set(&mut staging, &a, "executable", 7));
    assert!(set(&mut staging, &a, "args", 9));
    let built = staging.build(&a).unwrap();
    assert_eq!(built.values.len(), 2);
    assert_eq!(built.values[0], FieldValue::Given(Payload::One(7)));
    assert_eq!(built.values[1], FieldValue::Given(Payload::One(9)));
}

#[test]
fn plain_setter_overwrites_on_repeat() {
    let a = plain_artifact();
    let mut staging = Staging::for_artifact(&a);
    set(&mut staging, &a, "executable", 1);
    set(&mut staging, &a, "executable", 2);
    set(&mut staging, &a, "args", 3);
    let built = staging.build(&a).unwrap();
    assert_eq!(built.values[0], FieldValue::Given(Payload::One(2)));
}

#[test]
fn missing_field_is_named_and_no_other() {
    let a = plain_artifact();
    let mut staging = Staging::for_artifact(&a);
    set(&mut staging, &a, "executable", 7);
    let err = staging.build(&a).unwrap_err();
    assert_eq!(err.field, "args");
    let message = err.message();
    assert_eq!(message, "args is required");
    assert!(message.contains("args"));
    assert!(!message.contains("executable"));
}

#[test]
fn first_missing_field_in_declaration_order_is_reported() {
    let a = plain_artifact();
    let staging = Staging::for_artifact(&a);
    let err = staging.build(&a).unwrap_err();
    assert_eq!(err.field, "executable");
}

#[test]
fn unknown_setter_changes_nothing() {
    let a = plain_artifact();
    let mut staging = Staging::for_artifact(&a);
    assert!(!set(&mut staging, &a, "nonsense", 1));
    assert!(staging.build(&a).is_err());
}

#[test]
fn optional_field_never_blocks_the_build() {
    let input = record(
        "Command",
        vec![
            field("executable", plain("String"), vec![]),
            field("current_dir", named(&["Option"], vec![plain("String")]), vec![]),
        ],
    );
    let a = generate(&input).unwrap();

    // Never set: builds, and the value is the absent representation.
    let mut staging = Staging::for_artifact(&a);
    set(&mut staging, &a, "executable", 1);
    let built = staging.build(&a).unwrap();
    assert_eq!(built.values[1], FieldValue::Absent);

    // Set: builds, and the value is present, wrapping exactly what was given.
    set(&mut staging, &a, "current_dir", 5);
    let built2 = staging.build(&a).unwrap();
    assert_eq!(built2.values[1], FieldValue::Present(Payload::One(5)));
}

#[test]
fn accumulator_collects_items_in_order() {
    let input = record(
        "Command",
        vec![field("args", named(&["Vec"], vec![plain("String")]), vec![each_attr("arg", 10)])],
    );
    let a = generate(&input).unwrap();
    let mut staging = Staging::for_artifact(&a);
    assert!(set(&mut staging, &a, "arg", 1));
    assert!(set(&mut staging, &a, "arg", 2));
    assert!(set(&mut staging, &a, "arg", 3));
    let built = staging.build(&a).unwrap();
    assert_eq!(built.values[0], FieldValue::Given(Payload::Many(vec![1, 2, 3])));
}

#[test]
fn untouched_accumulator_field_is_still_required() {
    let input = record(
        "Command",
        vec![field("args", named(&["Vec"], vec![plain("String")]), vec![each_attr("arg", 10)])],
    );
    let a = generate(&input).unwrap();
    let staging = Staging::for_artifact(&a);
    let err = staging.build(&a).unwrap_err();
    assert_eq!(err.field, "args");
}

#[test]
fn failed_build_can_be_completed_and_retried() {
    let a = plain_artifact();
    let mut staging = Staging::for_artifact(&a);
    set(&mut staging, &a, "executable", 7);
    let err = staging.build(&a).unwrap_err();
    assert_eq!(err.field, "args");
    // The failed build did not consume the staging instance: set the missing
    // field and build again.
    assert!(set(&mut staging, &a, "args", 9));
    let built = staging.build(&a).unwrap();
    assert_eq!(built.values[0], FieldValue::Given(Payload::One(7)));
    assert_eq!(built.values[1], FieldValue::Given(Payload::One(9)));
}

#[test]
fn colliding_names_collapse_onto_the_accumulator() {
    // Two each-aliases resolve to the same identifier as another field's
    // plain-setter name: the name behaves as the first accumulator.
    let input = record(
        "Command",
        vec![
            field("arg", plain("String"), vec![]),
            field("args", named(&["Vec"], vec![plain("String")]), vec![each_attr("arg", 10)]),
            field("envs", named(&["Vec"], vec![plain("String")]), vec![each_attr("arg", 20)]),
        ],
    );
    let a = generate(&input).unwrap();
    let resolved = lookup_setter(&a, &"arg".to_string()).unwrap();
    assert_eq!(resolved.kind, SetterKind::Accumulator);
    assert_eq!(resolved.field_index, 1);

    let mut staging = Staging::for_artifact(&a);
    set(&mut staging, &a, "arg", 1);
    set(&mut staging, &a, "arg", 2);
    // The accumulated items land in the first each-field's slot; the plain
    // field named `arg` stays untouched, so the build reports it missing.
    let err = staging.build(&a).unwrap_err();
    assert_eq!(err.field, "arg");
    assert_eq!(staging.slots[1], Some(Payload::Many(vec![1, 2])));
    assert_eq!(staging.slots[0], None);
}

#[test]
fn accumulator_on_optional_collection_is_wrapped_on_build() {
    let input = record(
        "Command",
        vec![field(
            "env",
            named(&["Option"], vec![named(&["Vec"], vec![plain("String")])]),
            vec![each_attr("one_env", 10)],
        )],
    );
    let a = generate(&input).unwrap();
    // The setter parameter is the item type of the unwrapped collection.
    assert_eq!(a.setters[0].param_ty, plain("String"));
    let mut staging = Staging::for_artifact(&a);
    // Optional: untouched builds to the absent value.
    assert_eq!(staging.build(&a).unwrap().values[0], FieldValue::Absent);
    set(&mut staging, &a, "one_env", 4);
    assert_eq!(
        staging.build(&a).unwrap().values[0],
        FieldValue::Present(Payload::Many(vec![4]))
    );
}

#[test]
fn payload_duplicate_copies_items() {
    let p = Payload::Many(vec![1, 2, 3]);
    assert_eq!(p.duplicate(), p);
    assert_eq!(Payload::One(9).duplicate(), Payload::One(9));
}
