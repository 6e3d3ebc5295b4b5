//! Tests of the type-shape classifier, the attribute parser, the field
//! extractor and the code synthesizer.

use builder::attr::{AttrBlock, AttrToken, parse_builder_options};
use builder::field::{FieldAttr, FieldDef, extract_field_spec};
use builder::shape::{TypeShape, is_optional, item_type, strip_optional};
use builder::synth::{GenError, SetterKind, TypeData, TypeDef, generate};

fn named(segments: &[&str], args: Vec<TypeShape>) -> TypeShape {
    TypeShape::Named {
        segments: segments.iter().map(|s| s.to_string()).collect(),
        args,
    }
}

fn plain(name: &str) -> TypeShape {
    named(&[name], vec![])
}

fn ident(text: &str, loc: u64) -> AttrToken {
    AttrToken::Ident { text: text.to_string(), loc }
}

fn equals(loc: u64) -> AttrToken {
    AttrToken::Equals { loc }
}

fn comma(loc: u64) -> AttrToken {
    AttrToken::Comma { loc }
}

fn strlit(value: &str, loc: u64) -> AttrToken {
    AttrToken::StrLit { value: value.to_string(), loc }
}

fn block(name: &str, loc: u64, tokens: Vec<AttrToken>) -> AttrBlock {
    AttrBlock { name: name.to_string(), loc, tokens }
}

fn each_attr(alias: &str, loc: u64) -> AttrBlock {
    block("builder", loc, vec![ident("each", loc + 1), equals(loc + 2), strlit(alias, loc + 3)])
}

fn field(name: &str, ty: TypeShape, attrs: Vec<AttrBlock>) -> FieldDef {
    FieldDef { name: name.to_string(), ty, attrs }
}

fn record(name: &str, fields: Vec<FieldDef>) -> TypeDef {
    TypeDef { name: name.to_string(), data: TypeData::Record(fields) }
}

const GRAMMAR_MSG: &str = "expected `builder(each = \"...\")`";

#[test]
fn optional_shape_is_detected() {
    let opt = named(&["Option"], vec![plain("String")]);
    assert!(is_optional(&opt));
    assert_eq!(*strip_optional(&opt), plain("String"));
}

#[test]
fn qualified_optional_is_detected() {
    let opt = named(&["std", "option", "Option"], vec![plain("String")]);
    assert!(is_optional(&opt));
    assert_eq!(*strip_optional(&opt), plain("String"));
}

#[test]
fn optional_match_is_textual_on_the_last_segment() {
    // A user-defined type whose path ends in the marker identifier is
    // indistinguishable: the match is unqualified and purely textual.
    let fake = named(&["mymod", "Option"], vec![plain("u32")]);
    assert!(is_optional(&fake));
}

#[test]
fn non_optional_shapes_are_rejected() {
    assert!(!is_optional(&plain("String")));
    assert!(!is_optional(&named(&["Option"], vec![])));
    assert!(!is_optional(&named(&["Option"], vec![plain("A"), plain("B")])));
    assert!(!is_optional(&named(&["Optional"], vec![plain("A")])));
    assert!(!is_optional(&TypeShape::Opaque { text: "&str".to_string() }));
}

#[test]
fn strip_optional_is_identity_on_plain_shapes() {
    assert_eq!(*strip_optional(&plain("String")), plain("String"));
    let two = named(&["Option"], vec![plain("A"), plain("B")]);
    assert_eq!(*strip_optional(&two), two);
}

#[test]
fn item_type_takes_the_first_argument() {
    let vec_of_string = named(&["Vec"], vec![plain("String")]);
    assert_eq!(*item_type(&vec_of_string), plain("String"));
    assert_eq!(*item_type(&plain("String")), plain("String"));
}

#[test]
fn parse_each_succeeds() {
    let b = each_attr("arg", 10);
    let opts = parse_builder_options(&b).unwrap();
    assert_eq!(opts.each, Some("arg".to_string()));
}

#[test]
fn parse_empty_block_gives_no_alias() {
    let b = block("builder", 1, vec![]);
    let opts = parse_builder_options(&b).unwrap();
    assert_eq!(opts.each, None);
}

#[test]
fn parse_unknown_key_reports_the_grammar_at_the_key() {
    let b = block("builder", 1, vec![ident("foo", 7), equals(8), strlit("x", 9)]);
    let d = parse_builder_options(&b).unwrap_err();
    assert_eq!(d.message, GRAMMAR_MSG);
    assert_eq!(d.loc, 7);
}

#[test]
fn parse_missing_equals_is_reported() {
    let b = block("builder", 1, vec![ident("each", 2), strlit("x", 3)]);
    let d = parse_builder_options(&b).unwrap_err();
    assert_eq!(d.message, "expected `=`");
    assert_eq!(d.loc, 3);

    let b2 = block("builder", 1, vec![ident("each", 2)]);
    let d2 = parse_builder_options(&b2).unwrap_err();
    assert_eq!(d2.message, "expected `=`");
    assert_eq!(d2.loc, 2);
}

#[test]
fn parse_non_string_value_is_reported() {
    let b = block("builder", 1, vec![ident("each", 2), equals(3), ident("arg", 4)]);
    let d = parse_builder_options(&b).unwrap_err();
    assert_eq!(d.message, "expected string literal");
    assert_eq!(d.loc, 4);
}

#[test]
fn parse_missing_comma_is_reported() {
    let b = block(
        "builder",
        1,
        vec![ident("each", 2), equals(3), strlit("a", 4), ident("each", 5)],
    );
    let d = parse_builder_options(&b).unwrap_err();
    assert_eq!(d.message, "expected `,`");
    assert_eq!(d.loc, 5);
}

#[test]
fn parse_leading_non_identifier_is_reported() {
    let b = block("builder", 1, vec![comma(6)]);
    let d = parse_builder_options(&b).unwrap_err();
    assert_eq!(d.message, "expected identifier");
    assert_eq!(d.loc, 6);
}

#[test]
fn parse_last_each_wins_and_trailing_comma_is_accepted() {
    let b = block(
        "builder",
        1,
        vec![
            ident("each", 2),
            equals(3),
            strlit("a", 4),
            comma(5),
            ident("each", 6),
            equals(7),
            strlit("b", 8),
            comma(9),
        ],
    );
    let opts = parse_builder_options(&b).unwrap();
    assert_eq!(opts.each, Some("b".to_string()));
}

#[test]
fn extract_without_attribute_is_unattributed() {
    let f = field("executable", plain("String"), vec![]);
    let spec = extract_field_spec(&f);
    assert_eq!(spec.attr, FieldAttr::Unattributed);
    assert_eq!(spec.name, "executable");
    assert_eq!(spec.ty, plain("String"));
}

#[test]
fn extract_uses_only_the_first_builder_block() {
    let f = field(
        "args",
        named(&["Vec"], vec![plain("String")]),
        vec![each_attr("arg", 10), each_attr("other", 20)],
    );
    match extract_field_spec(&f).attr {
        FieldAttr::Parsed(opts, loc) => {
            assert_eq!(opts.each, Some("arg".to_string()));
            assert_eq!(loc, 10);
        }
        other => panic!("expected a parsed attribute, got {:?}", other),
    }
}

#[test]
fn extract_skips_unrecognized_blocks() {
    let f = field(
        "args",
        named(&["Vec"], vec![plain("String")]),
        vec![block("serde", 1, vec![ident("foo", 2)]), each_attr("arg", 10)],
    );
    match extract_field_spec(&f).attr {
        FieldAttr::Parsed(opts, _) => assert_eq!(opts.each, Some("arg".to_string())),
        other => panic!("expected a parsed attribute, got {:?}", other),
    }
}

#[test]
fn extract_keeps_the_parse_failure() {
    let f = field(
        "args",
        named(&["Vec"], vec![plain("String")]),
        vec![block("builder", 1, vec![ident("foo", 7), equals(8), strlit("x", 9)])],
    );
    match extract_field_spec(&f).attr {
        FieldAttr::Malformed(d) => {
            assert_eq!(d.message, GRAMMAR_MSG);
            assert_eq!(d.loc, 7);
        }
        other => panic!("expected a malformed attribute, got {:?}", other),
    }
}

#[test]
fn generate_plain_record() {
    let input = record(
        "Command",
        vec![field("executable", plain("String"), vec![]), field("args", plain("String"), vec![])],
    );
    let a = generate(&input).unwrap();
    assert_eq!(a.target, "Command");
    assert_eq!(a.builder_name, "CommandBuilder");
    assert_eq!(a.slots.len(), 2);
    assert_eq!(a.slots[0].field, "executable");
    assert!(!a.slots[0].optional);
    assert_eq!(a.slots[1].field, "args");
    assert!(!a.slots[1].optional);
    assert_eq!(a.setters.len(), 2);
    assert_eq!(a.setters[0].method, "executable");
    assert_eq!(a.setters[0].field_index, 0);
    assert_eq!(a.setters[0].kind, SetterKind::Plain);
    assert_eq!(a.setters[0].param_ty, plain("String"));
    assert_eq!(a.setters[1].method, "args");
    assert_eq!(a.setters[1].field_index, 1);
    assert!(a.diagnostics.is_empty());
}

#[test]
fn generate_optional_field_strips_the_setter_parameter() {
    let input = record(
        "Command",
        vec![field("current_dir", named(&["Option"], vec![plain("String")]), vec![])],
    );
    let a = generate(&input).unwrap();
    assert!(a.slots[0].optional);
    assert_eq!(a.slots[0].declared_ty, named(&["Option"], vec![plain("String")]));
    assert_eq!(a.setters[0].method, "current_dir");
    assert_eq!(a.setters[0].kind, SetterKind::Plain);
    assert_eq!(a.setters[0].param_ty, plain("String"));
}

#[test]
fn generate_each_field_gets_one_accumulator_setter() {
    let input = record(
        "Command",
        vec![field("args", named(&["Vec"], vec![plain("String")]), vec![each_attr("arg", 10)])],
    );
    let a = generate(&input).unwrap();
    assert_eq!(a.setters.len(), 1);
    assert_eq!(a.setters[0].method, "arg");
    assert_eq!(a.setters[0].kind, SetterKind::Accumulator);
    assert_eq!(a.setters[0].field_index, 0);
    assert_eq!(a.setters[0].param_ty, plain("String"));
    assert!(!a.slots[0].optional);
    assert!(a.diagnostics.is_empty());
}

#[test]
fn generate_bad_attribute_yields_diagnostic_and_spares_siblings() {
    let input = record(
        "Command",
        vec![
            field(
                "env",
                named(&["Vec"], vec![plain("String")]),
                vec![block("builder", 1, vec![ident("foo", 7), equals(8), strlit("x", 9)])],
            ),
            field("executable", plain("String"), vec![]),
        ],
    );
    let a = generate(&input).unwrap();
    assert_eq!(a.diagnostics.len(), 1);
    assert_eq!(a.diagnostics[0].message, GRAMMAR_MSG);
    assert_eq!(a.diagnostics[0].loc, 7);
    // The malformed field gets no setter; the unrelated field still does.
    assert_eq!(a.setters.len(), 1);
    assert_eq!(a.setters[0].method, "executable");
    assert_eq!(a.setters[0].field_index, 1);
    // Both slots still exist.
    assert_eq!(a.slots.len(), 2);
}

#[test]
fn generate_attribute_without_alias_yields_diagnostic_at_the_block() {
    let input = record(
        "Command",
        vec![field(
            "args",
            named(&["Vec"], vec![plain("String")]),
            vec![block("builder", 42, vec![])],
        )],
    );
    let a = generate(&input).unwrap();
    assert!(a.setters.is_empty());
    assert_eq!(a.diagnostics.len(), 1);
    assert_eq!(a.diagnostics[0].message, GRAMMAR_MSG);
    assert_eq!(a.diagnostics[0].loc, 42);
}

#[test]
fn generate_rejects_non_record_shapes() {
    let tuple = TypeDef { name: "T".to_string(), data: TypeData::Tuple };
    let en = TypeDef { name: "E".to_string(), data: TypeData::Enumeration };
    let unit = TypeDef { name: "U".to_string(), data: TypeData::Unit };
    assert_eq!(generate(&tuple).unwrap_err(), GenError::UnsupportedShape);
    assert_eq!(generate(&en).unwrap_err(), GenError::UnsupportedShape);
    assert_eq!(generate(&unit).unwrap_err(), GenError::UnsupportedShape);
    assert_eq!(
        generate(&tuple).unwrap_err().message(),
        "expected a record type with named fields"
    );
}

#[test]
fn duplicate_copies_nested_shapes() {
    let t = named(&["Option"], vec![named(&["Vec"], vec![plain("String")])]);
    assert_eq!(t.duplicate(), t);
}
