//! The hook that skips a comma where none can stand.

use vstd::prelude::*;
use crate::parser_generator::lexer::{TokenKind, TokenKindView};
use crate::syntax_kind::SyntaxKind;
use super::{LRParseState, ParseTransform, ParseTransformer};

verus! {

/// Skips an extra comma at the beginning of the lists of `SELECT`, `FROM`
/// and `ORDER BY`.
#[derive(Debug)]
pub struct SkipExtraComma;

/// The symbols that end `SELECT DISTINCT ON ( expr_list )`, the newest
/// first.
pub open spec fn select_distinct_on() -> Seq<SyntaxKind> {
    seq![
        SyntaxKind::RParen,
        SyntaxKind::expr_list,
        SyntaxKind::LParen,
        SyntaxKind::ON,
        SyntaxKind::DISTINCT,
        SyntaxKind::SELECT,
    ]
}

/// Whether the stack ends with the symbols of `wanted`, which gives them
/// the newest first.
pub open spec fn ends_with_rev(kinds: Seq<SyntaxKind>, wanted: Seq<SyntaxKind>) -> bool {
    &&& kinds.len() >= wanted.len()
    &&& forall|i: int| 0 <= i < wanted.len() ==> kinds[kinds.len() - 1 - i] == #[trigger] wanted[i]
}

/// Whether a comma after the symbols on the stack is one too many: the
/// last symbol is `FROM`, `BY`, `SELECT`, `ALL` or `DISTINCT`, or the last
/// six are `SELECT DISTINCT ON ( expr_list )`.
pub open spec fn spec_allow_extra_comma(kinds: Seq<SyntaxKind>) -> bool {
    kinds.len() > 0 && {
        let last = kinds.last();
        last == SyntaxKind::FROM || last == SyntaxKind::BY || last == SyntaxKind::SELECT || last
            == SyntaxKind::ALL || last == SyntaxKind::DISTINCT || ends_with_rev(
            kinds,
            select_distinct_on(),
        )
    }
}

/// Whether a token is a comma.
pub open spec fn is_comma(kind: TokenKindView) -> bool {
    kind == TokenKindView::RAW(","@)
}

impl SkipExtraComma {
    /// Whether a comma after the symbols on the stack is one too many.
    pub fn allow_extra_comma<'a>(lr_parse_state: &LRParseState<'a>) -> (b: bool)
        ensures
            b == spec_allow_extra_comma(lr_parse_state.kinds@),
    {
        match lr_parse_state.last_syntax_kind() {
            None => false,
            Some(last) => {
                if last == SyntaxKind::FROM || last == SyntaxKind::BY || last == SyntaxKind::SELECT
                    || last == SyntaxKind::ALL || last == SyntaxKind::DISTINCT {
                    true
                } else if last == SyntaxKind::RParen {
                    let kinds = lr_parse_state.kinds;
                    let n = kinds.len();
                    let found = n >= 6 && kinds[n - 2] == SyntaxKind::expr_list && kinds[n - 3]
                        == SyntaxKind::LParen && kinds[n - 4] == SyntaxKind::ON && kinds[n - 5]
                        == SyntaxKind::DISTINCT && kinds[n - 6] == SyntaxKind::SELECT;
                    proof {
                        let wanted = select_distinct_on();
                        if found {
                            assert forall|i: int| 0 <= i < wanted.len() implies kinds@[n - 1 - i]
                                == #[trigger] wanted[i] by {}
                        }
                        if ends_with_rev(kinds@, wanted) {
                            assert(kinds@[n - 1 - 1] == wanted[1]);
                            assert(kinds@[n - 1 - 2] == wanted[2]);
                            assert(kinds@[n - 1 - 3] == wanted[3]);
                            assert(kinds@[n - 1 - 4] == wanted[4]);
                            assert(kinds@[n - 1 - 5] == wanted[5]);
                        }
                    }
                    found
                } else {
                    proof {
                        let wanted = select_distinct_on();
                        if ends_with_rev(lr_parse_state.kinds@, wanted) {
                            assert(lr_parse_state.kinds@[lr_parse_state.kinds@.len() - 1 - 0]
                                == wanted[0]);
                        }
                    }
                    false
                }
            },
        }
    }

    /// Skips the token if it is a comma that is one too many.
    pub fn decide<'a>(&self, lr_parse_state: &LRParseState<'a>) -> (r: Option<ParseTransform>)
        ensures
            r is Some <==> spec_allow_extra_comma(lr_parse_state.kinds@) && is_comma(
                lr_parse_state.token.kind@,
            ),
            r is Some ==> r->Some_0 is SkipToken,
    {
        if !Self::allow_extra_comma(lr_parse_state) {
            return None;
        }
        let comma = TokenKind::RAW(",".to_owned());
        if !lr_parse_state.token.kind.same(&comma) {
            return None;
        }
        Some(ParseTransform::SkipToken)
    }
}

impl ParseTransformer for SkipExtraComma {
    fn transform<'a>(&self, lr_parse_state: &LRParseState<'a>) -> (r: Option<ParseTransform>)
        ensures
            r is Some <==> spec_allow_extra_comma(lr_parse_state.kinds@) && is_comma(
                lr_parse_state.token.kind@,
            ),
            r is Some ==> r->Some_0 is SkipToken,
    {
        self.decide(lr_parse_state)
    }
}

} // verus!
