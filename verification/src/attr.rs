//! The per-field attribute mini-grammar `builder(each = "<identifier>")`
//! and its parser.

use vstd::prelude::*;

verus! {

/// One token inside an attribute block's parentheses. `loc` is an opaque
/// handle into the caller's source-location table, used to anchor
/// diagnostics.
#[derive(PartialEq, Eq, Debug)]
pub enum AttrToken {
    Ident { text: String, loc: u64 },
    Equals { loc: u64 },
    Comma { loc: u64 },
    StrLit { value: String, loc: u64 },
    Other { loc: u64 },
}

/// Mathematical image of an [`AttrToken`].
#[verifier::ext_equal]
pub enum TokenModel {
    Ident { text: Seq<char>, loc: u64 },
    Equals { loc: u64 },
    Comma { loc: u64 },
    StrLit { value: Seq<char>, loc: u64 },
    Other { loc: u64 },
}

impl View for AttrToken {
    type V = TokenModel;

    open spec fn view(&self) -> TokenModel {
        match *self {
            AttrToken::Ident { text, loc } => TokenModel::Ident { text: text@, loc },
            AttrToken::Equals { loc } => TokenModel::Equals { loc },
            AttrToken::Comma { loc } => TokenModel::Comma { loc },
            AttrToken::StrLit { value, loc } => TokenModel::StrLit { value: value@, loc },
            AttrToken::Other { loc } => TokenModel::Other { loc },
        }
    }
}

/// The source location a token anchors to.
pub open spec fn token_loc(t: TokenModel) -> u64 {
    match t {
        TokenModel::Ident { loc, .. } => loc,
        TokenModel::Equals { loc } => loc,
        TokenModel::Comma { loc } => loc,
        TokenModel::StrLit { loc, .. } => loc,
        TokenModel::Other { loc } => loc,
    }
}

/// The models of a sequence of tokens, in order.
pub open spec fn tokens_model(s: Seq<AttrToken>) -> Seq<TokenModel> {
    Seq::new(s.len(), |i: int| s[i]@)
}

/// One attribute block attached to a field: the attribute's name (the final
/// identifier of its path), the tokens between its parentheses, and the
/// source location of the block itself.
#[derive(PartialEq, Eq, Debug)]
pub struct AttrBlock {
    pub name: String,
    pub loc: u64,
    pub tokens: Vec<AttrToken>,
}

/// Mathematical image of an [`AttrBlock`].
#[verifier::ext_equal]
pub struct BlockModel {
    pub name: Seq<char>,
    pub loc: u64,
    pub tokens: Seq<TokenModel>,
}

impl View for AttrBlock {
    type V = BlockModel;

    open spec fn view(&self) -> BlockModel {
        BlockModel { name: self.name@, loc: self.loc, tokens: tokens_model(self.tokens@) }
    }
}

/// The options a `builder(...)` attribute block can carry: at most the
/// `each` accumulator-setter identifier.
#[derive(PartialEq, Eq, Debug)]
pub struct BuilderOptions {
    pub each: Option<String>,
}

/// Mathematical image of [`BuilderOptions`].
#[verifier::ext_equal]
pub struct OptionsModel {
    pub each: Option<Seq<char>>,
}

/// The model of an optional identifier string.
pub open spec fn opt_text_model(o: Option<String>) -> Option<Seq<char>> {
    match o {
        Option::Some(s) => Option::Some(s@),
        Option::None => Option::None,
    }
}

impl View for BuilderOptions {
    type V = OptionsModel;

    open spec fn view(&self) -> OptionsModel {
        OptionsModel { each: opt_text_model(self.each) }
    }
}

/// A source-anchored diagnostic: an error message pointing at the offending
/// token's location.
#[derive(PartialEq, Eq, Debug)]
pub struct Diagnostic {
    pub loc: u64,
    pub message: String,
}

/// Mathematical image of a [`Diagnostic`].
#[verifier::ext_equal]
pub struct DiagnosticModel {
    pub loc: u64,
    pub message: Seq<char>,
}

impl View for Diagnostic {
    type V = DiagnosticModel;

    open spec fn view(&self) -> DiagnosticModel {
        DiagnosticModel { loc: self.loc, message: self.message@ }
    }
}

/// Message of the diagnostic for an unrecognized option key.
pub open spec fn msg_expected_each() -> Seq<char> {
    "expected `builder(each = \"...\")`"@
}

/// Message of the diagnostic for a missing key identifier.
pub open spec fn msg_expected_ident() -> Seq<char> {
    "expected identifier"@
}

/// Message of the diagnostic for a missing `=` token.
pub open spec fn msg_expected_equals() -> Seq<char> {
    "expected `=`"@
}

/// Message of the diagnostic for an option value that is not a string
/// literal.
pub open spec fn msg_expected_string() -> Seq<char> {
    "expected string literal"@
}

/// Message of the diagnostic for trailing tokens without a separating comma.
pub open spec fn msg_expected_comma() -> Seq<char> {
    "expected `,`"@
}

/// The attribute grammar, parsed from token position `i` with the `each`
/// value accumulated so far.
///
/// The block holds zero or more `key = value` pairs separated by commas (a
/// trailing comma is accepted). The only recognized key is `each`; its value
/// must be a string literal. When `each` is given more than once, the last
/// occurrence wins. Parsing fails at the first violation:
/// - a pair does not start with an identifier (anchored at that token);
/// - the `=` is missing (anchored at the token found, or at the key when the
///   block ends after it);
/// - the key is not `each` (anchored at the key token);
/// - the value is not a string literal (anchored at the value token, or at
///   the `=` when the block ends after it);
/// - a pair is followed by anything but a comma (anchored at that token).
pub open spec fn spec_parse_pairs(
    toks: Seq<TokenModel>,
    i: int,
    each: Option<Seq<char>>,
) -> Result<OptionsModel, DiagnosticModel>
    decreases toks.len() - i,
{
    if i < 0 || i >= toks.len() {
        Ok(OptionsModel { each })
    } else {
        match toks[i] {
            TokenModel::Ident { text: key, loc: key_loc } => {
                if i + 1 >= toks.len() {
                    Err(DiagnosticModel { loc: key_loc, message: msg_expected_equals() })
                } else if !(toks[i + 1] is Equals) {
                    Err(
                        DiagnosticModel {
                            loc: token_loc(toks[i + 1]),
                            message: msg_expected_equals(),
                        },
                    )
                } else if key != "each"@ {
                    Err(DiagnosticModel { loc: key_loc, message: msg_expected_each() })
                } else if i + 2 >= toks.len() {
                    Err(
                        DiagnosticModel {
                            loc: token_loc(toks[i + 1]),
                            message: msg_expected_string(),
                        },
                    )
                } else {
                    match toks[i + 2] {
                        TokenModel::StrLit { value, .. } => {
                            if i + 3 >= toks.len() {
                                Ok(OptionsModel { each: Option::Some(value) })
                            } else if toks[i + 3] is Comma {
                                spec_parse_pairs(toks, i + 4, Option::Some(value))
                            } else {
                                Err(
                                    DiagnosticModel {
                                        loc: token_loc(toks[i + 3]),
                                        message: msg_expected_comma(),
                                    },
                                )
                            }
                        },
                        other => Err(
                            DiagnosticModel {
                                loc: token_loc(other),
                                message: msg_expected_string(),
                            },
                        ),
                    }
                }
            },
            other => Err(
                DiagnosticModel { loc: token_loc(other), message: msg_expected_ident() },
            ),
        }
    }
}

/// What parsing a whole `builder(...)` block yields.
pub open spec fn spec_parse_block(b: BlockModel) -> Result<OptionsModel, DiagnosticModel> {
    spec_parse_pairs(b.tokens, 0, Option::None)
}

/// The model of a parse result.
pub open spec fn opts_result_model(r: Result<BuilderOptions, Diagnostic>) -> Result<
    OptionsModel,
    DiagnosticModel,
> {
    match r {
        Ok(o) => Ok(o@),
        Err(d) => Err(d@),
    }
}

fn parse_pairs(tokens: &Vec<AttrToken>, i: usize, each: Option<String>) -> (r: Result<
    BuilderOptions,
    Diagnostic,
>)
    ensures
        opts_result_model(r) == spec_parse_pairs(tokens_model(tokens@), i as int, opt_text_model(each)),
    decreases tokens@.len() - i,
{
    if i >= tokens.len() {
        Ok(BuilderOptions { each })
    } else {
        match &tokens[i] {
            AttrToken::Ident { text: key, loc: key_loc } => {
                if i + 1 >= tokens.len() {
                    Err(Diagnostic { loc: *key_loc, message: msg_text_expected_equals() })
                } else if !(matches!(&tokens[i + 1], AttrToken::Equals { .. })) {
                    Err(
                        Diagnostic {
                            loc: exec_token_loc(&tokens[i + 1]),
                            message: msg_text_expected_equals(),
                        },
                    )
                } else {
                    let each_key = String::from_str("each");
                    if !(*key == each_key) {
                        Err(Diagnostic { loc: *key_loc, message: msg_text_expected_each() })
                    } else if i + 2 >= tokens.len() {
                        Err(
                            Diagnostic {
                                loc: exec_token_loc(&tokens[i + 1]),
                                message: msg_text_expected_string(),
                            },
                        )
                    } else {
                        match &tokens[i + 2] {
                            AttrToken::StrLit { value, .. } => {
                                if i + 3 >= tokens.len() {
                                    Ok(BuilderOptions { each: Option::Some(value.clone()) })
                                } else if matches!(&tokens[i + 3], AttrToken::Comma { .. }) {
                                    parse_pairs(tokens, i + 4, Option::Some(value.clone()))
                                } else {
                                    Err(
                                        Diagnostic {
                                            loc: exec_token_loc(&tokens[i + 3]),
                                            message: msg_text_expected_comma(),
                                        },
                                    )
                                }
                            },
                            other => Err(
                                Diagnostic {
                                    loc: exec_token_loc(other),
                                    message: msg_text_expected_string(),
                                },
                            ),
                        }
                    }
                }
            },
            other => Err(
                Diagnostic { loc: exec_token_loc(other), message: msg_text_expected_ident() },
            ),
        }
    }
}

/// Parses a `builder(...)` attribute block per [`spec_parse_block`].
pub fn parse_builder_options(block: &AttrBlock) -> (r: Result<BuilderOptions, Diagnostic>)
    ensures
        opts_result_model(r) == spec_parse_block(block@),
{
    parse_pairs(&block.tokens, 0, Option::None)
}

/// The location a concrete token anchors to.
pub fn exec_token_loc(t: &AttrToken) -> (r: u64)
    ensures
        r == token_loc(t@),
{
    match t {
        AttrToken::Ident { loc, .. } => *loc,
        AttrToken::Equals { loc } => *loc,
        AttrToken::Comma { loc } => *loc,
        AttrToken::StrLit { loc, .. } => *loc,
        AttrToken::Other { loc } => *loc,
    }
}

pub(crate) fn msg_text_expected_each() -> (r: String)
    ensures
        r@ == msg_expected_each(),
{
    String::from_str("expected `builder(each = \"...\")`")
}

fn msg_text_expected_ident() -> (r: String)
    ensures
        r@ == msg_expected_ident(),
{
    String::from_str("expected identifier")
}

fn msg_text_expected_equals() -> (r: String)
    ensures
        r@ == msg_expected_equals(),
{
    String::from_str("expected `=`")
}

fn msg_text_expected_string() -> (r: String)
    ensures
        r@ == msg_expected_string(),
{
    String::from_str("expected string literal")
}

fn msg_text_expected_comma() -> (r: String)
    ensures
        r@ == msg_expected_comma(),
{
    String::from_str("expected `,`")
}

} // verus!
