//! What a parser may do with a token instead of shifting it, and the hooks
//! that decide it.

pub mod skip_extra_comma;

use vstd::prelude::*;
use crate::parser_generator::lexer::TokenKind;
use crate::syntax_kind::SyntaxKind;

verus! {

/// A token as the lexer hands it to the parser.
#[derive(Debug)]
pub struct Token {
    pub kind: TokenKind,
    pub value: String,
    pub start_byte: usize,
    pub end_byte: usize,
}

/// What a hook sees of a parser: the token that comes next, and the kinds
/// of the symbols on the stack, the oldest first. Whitespace and comments
/// are not among them.
#[derive(Debug)]
pub struct LRParseState<'a> {
    pub token: &'a Token,
    pub kinds: &'a Vec<SyntaxKind>,
}

/// What a parser does with the token that comes next, instead of shifting
/// it.
#[derive(Debug)]
pub enum ParseTransform {
    /// A token of this kind, without text, is fed to the parser first.
    InsertToken(TokenKind),
    /// The token is dropped.
    SkipToken,
}

/// A hook that a parser asks before it acts on a token.
pub trait ParseTransformer {
    /// What the parser shall do instead of acting on the token, if
    /// anything.
    fn transform<'a>(&self, lr_parse_state: &LRParseState<'a>) -> Option<ParseTransform>;
}

impl<'a> LRParseState<'a> {
    /// The kind of the symbol that was put on the stack last, if any.
    pub fn last_syntax_kind(&self) -> (kind: Option<SyntaxKind>)
        ensures
            kind == if self.kinds@.len() > 0 {
                Some(self.kinds@.last())
            } else {
                None::<SyntaxKind>
            },
    {
        if self.kinds.len() > 0 {
            Some(self.kinds[self.kinds.len() - 1])
        } else {
            None
        }
    }
}

} // verus!
