use postgresql_cst_parser::parser_generator::lexer::TokenKind;
use postgresql_cst_parser::syntax_kind::SyntaxKind;
use postgresql_cst_parser::syntax_kind::SyntaxKind::{
    expr_list, target_el, target_list, LParen, RParen, ALL, BY, DISTINCT, FROM, ON, ORDER, SELECT,
};
use postgresql_cst_parser::transform::skip_extra_comma::SkipExtraComma;
use postgresql_cst_parser::transform::{LRParseState, ParseTransform, ParseTransformer, Token};

fn token(text: &str) -> Token {
    Token { kind: TokenKind::RAW(text.to_string()), value: text.to_string(), start_byte: 0, end_byte: text.len() }
}

fn skips(kinds: &[SyntaxKind], next: &Token) -> bool {
    let kinds = kinds.to_vec();
    let state = LRParseState { token: next, kinds: &kinds };
    match SkipExtraComma.transform(&state) {
        Some(ParseTransform::SkipToken) => true,
        Some(ParseTransform::InsertToken(_)) => unreachable!(),
        None => false,
    }
}

#[test]
fn a_comma_is_skipped_where_a_list_begins() {
    let comma = token(",");
    // SELECT ,a,b FROM ,t
    assert!(skips(&[SELECT], &comma));
    assert!(skips(&[SELECT, target_list, FROM], &comma));
    // SELECT a FROM t ORDER BY ,a
    assert!(skips(&[ORDER, BY], &comma));
    assert!(skips(&[SELECT, ALL], &comma));
    assert!(skips(&[SELECT, DISTINCT], &comma));
    // SELECT DISTINCT ON (a) ,b FROM t
    assert!(skips(&[SELECT, DISTINCT, ON, LParen, expr_list, RParen], &comma));
    assert!(skips(&[LParen, SELECT, DISTINCT, ON, LParen, expr_list, RParen], &comma));
}

#[test]
fn a_comma_is_kept_elsewhere() {
    let comma = token(",");
    assert!(!skips(&[], &comma));
    assert!(!skips(&[SELECT, target_list], &comma));
    assert!(!skips(&[SELECT, target_el], &comma));
    assert!(!skips(&[RParen], &comma));
    assert!(!skips(&[DISTINCT, ON, LParen, expr_list, RParen], &comma));
    assert!(!skips(&[SELECT, SELECT, ON, LParen, expr_list, RParen], &comma));
    assert!(!skips(&[SELECT, DISTINCT, ON, LParen, target_list, RParen], &comma));
    assert!(!skips(&[SELECT, DISTINCT, ON, LParen, expr_list, RParen, LParen], &comma));
}

#[test]
fn only_a_comma_is_skipped() {
    let kinds = vec![SELECT];
    assert!(!skips(&kinds, &token(";")));
    assert!(!skips(&kinds, &token("")));
    let keyword = Token { kind: TokenKind::KEYWORD(",".to_string()), value: ",".to_string(), start_byte: 0, end_byte: 1 };
    assert!(!skips(&kinds, &keyword));
    let state = LRParseState { token: &keyword, kinds: &kinds };
    assert!(SkipExtraComma::allow_extra_comma(&state));
    assert_eq!(state.last_syntax_kind(), Some(SELECT));
    assert!(SkipExtraComma.decide(&state).is_none());
}
