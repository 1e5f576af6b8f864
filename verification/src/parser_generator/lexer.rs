//! The terminals of a grammar, as the table generator sees them.

use vstd::prelude::*;
use vstd::string::StringSliceAdditionalSpecFns;
use vstd::utf8::encode_utf8;

verus! {

/// The kind of a terminal symbol.
#[allow(non_camel_case_types)]
#[derive(Debug)]
pub enum TokenKind {
    /// A token written as it stands in the source: punctuation such as `,`,
    /// and the end marker `$end`.
    RAW(String),
    /// A token class or keyword known by its grammar name: `IDENT`, `SELECT`.
    KEYWORD(String),
}

/// The mathematical value of a [`TokenKind`].
pub enum TokenKindView {
    RAW(Seq<char>),
    KEYWORD(Seq<char>),
}

impl View for TokenKind {
    type V = TokenKindView;

    open spec fn view(&self) -> TokenKindView {
        match self {
            TokenKind::RAW(s) => TokenKindView::RAW(s@),
            TokenKind::KEYWORD(s) => TokenKindView::KEYWORD(s@),
        }
    }
}

impl TokenKindView {
    /// The name under which the grammar knows this terminal.
    pub open spec fn name(self) -> Seq<char> {
        match self {
            TokenKindView::RAW(s) => s,
            TokenKindView::KEYWORD(s) => s,
        }
    }
}

/// Whether a name begins like a word: with an ASCII letter or an underscore.
pub open spec fn starts_like_word(bytes: Seq<u8>) -> bool {
    bytes.len() > 0 && (bytes[0] == 95 || (65 <= bytes[0] <= 90) || (97 <= bytes[0] <= 122))
}

/// The terminal that a grammar name denotes: a keyword or token class where
/// the name begins like a word, a raw token otherwise.
pub open spec fn spec_token_kind_of(name: Seq<char>) -> TokenKindView {
    if starts_like_word(encode_utf8(name)) {
        TokenKindView::KEYWORD(name)
    } else {
        TokenKindView::RAW(name)
    }
}

impl Clone for TokenKind {
    fn clone(&self) -> (kind: TokenKind)
        ensures
            kind@ == self@,
    {
        match self {
            TokenKind::RAW(s) => TokenKind::RAW(s.clone()),
            TokenKind::KEYWORD(s) => TokenKind::KEYWORD(s.clone()),
        }
    }
}

impl TokenKind {
    /// The terminal that a grammar name denotes.
    pub fn from_name(name: &str) -> (kind: TokenKind)
        ensures
            kind@ == spec_token_kind_of(name@),
    {
        let bytes = name.as_bytes();
        let word = bytes.len() > 0 && (bytes[0] == 95 || (65 <= bytes[0] && bytes[0] <= 90) || (97
            <= bytes[0] && bytes[0] <= 122));
        if word {
            TokenKind::KEYWORD(name.to_owned())
        } else {
            TokenKind::RAW(name.to_owned())
        }
    }

    /// The name under which the grammar knows this terminal.
    pub fn to_rule_identifier(&self) -> (name: &String)
        ensures
            name@ == self@.name(),
    {
        match self {
            TokenKind::RAW(s) => s,
            TokenKind::KEYWORD(s) => s,
        }
    }

    /// Whether two kinds are the same terminal.
    pub fn same(&self, other: &TokenKind) -> (b: bool)
        ensures
            b == (self@ == other@),
    {
        match (self, other) {
            (TokenKind::RAW(a), TokenKind::RAW(b)) => *a == *b,
            (TokenKind::KEYWORD(a), TokenKind::KEYWORD(b)) => *a == *b,
            _ => false,
        }
    }
}

} // verus!
