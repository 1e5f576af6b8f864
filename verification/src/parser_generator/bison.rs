//! The grammar as it is handed to the table generator: ordered rules and
//! the associativity declarations of terminals.

use vstd::prelude::*;
use super::lexer::{TokenKind, TokenKindView};

verus! {

/// The dense id of a grammar symbol. Terminals come before non-terminals.
pub type ComponentId = u16;

/// How a terminal of some precedence level groups with itself.
#[derive(Debug, Clone, Copy, PartialEq, Eq, Structural)]
pub enum AssocDirective {
    NonAssoc,
    Left,
    Right,
}

/// The precedence of a terminal or of a rule. A higher priority binds tighter.
#[derive(Debug, Clone, Copy, PartialEq, Eq, Structural)]
pub struct Assoc {
    pub priority: usize,
    pub directive: AssocDirective,
}

/// A grammar symbol.
#[derive(Debug)]
pub enum Component {
    NonTerminal(String),
    Terminal(TokenKind),
}

/// The mathematical value of a [`Component`].
pub enum ComponentView {
    NonTerminal(Seq<char>),
    Terminal(TokenKindView),
}

impl View for Component {
    type V = ComponentView;

    open spec fn view(&self) -> ComponentView {
        match self {
            Component::NonTerminal(s) => ComponentView::NonTerminal(s@),
            Component::Terminal(k) => ComponentView::Terminal(k@),
        }
    }
}

impl ComponentView {
    /// The name under which the grammar knows this symbol.
    pub open spec fn name(self) -> Seq<char> {
        match self {
            ComponentView::NonTerminal(s) => s,
            ComponentView::Terminal(k) => k.name(),
        }
    }
}

impl Clone for Component {
    fn clone(&self) -> (c: Component)
        ensures
            c@ == self@,
    {
        match self {
            Component::NonTerminal(s) => Component::NonTerminal(s.clone()),
            Component::Terminal(k) => Component::Terminal(k.clone()),
        }
    }
}

impl Component {
    /// Whether two components are the same symbol.
    pub fn same(&self, other: &Component) -> (b: bool)
        ensures
            b == (self@ == other@),
    {
        match (self, other) {
            (Component::NonTerminal(a), Component::NonTerminal(b)) => *a == *b,
            (Component::Terminal(a), Component::Terminal(b)) => a.same(b),
            _ => false,
        }
    }

    /// Whether the symbol is a terminal.
    pub fn is_terminal(&self) -> (b: bool)
        ensures
            b == (self@ is Terminal),
    {
        match self {
            Component::Terminal(_) => true,
            Component::NonTerminal(_) => false,
        }
    }

    /// The name under which the grammar knows this symbol.
    pub fn to_rule_identifier(&self) -> (name: &String)
        ensures
            name@ == self@.name(),
    {
        match self {
            Component::NonTerminal(s) => s,
            Component::Terminal(k) => k.to_rule_identifier(),
        }
    }
}

/// One production of the grammar.
#[derive(Debug)]
pub struct Rule {
    /// The non-terminal on the left-hand side.
    pub name: String,
    /// The right-hand side; empty for an epsilon production.
    pub components: Vec<Component>,
    /// The terminal named by an explicit `%prec` tag.
    pub prec: Option<String>,
}

/// A grammar: its rules in declaration order, and the associativity
/// declarations of its terminals by name. The left-hand side of the first
/// rule is the start symbol.
#[derive(Debug)]
pub struct Bison {
    pub rules: Vec<Rule>,
    pub assoc: Vec<(String, Assoc)>,
}

/// An entry of the action table.
#[derive(Debug, Clone, Copy, PartialEq, Eq, Structural)]
pub enum Action {
    Shift(usize),
    Reduce(usize),
    Accept,
    Error,
}

/// Why no parse table can be built from a grammar.
#[derive(Debug, Clone, Copy, PartialEq, Eq, Structural)]
pub enum GrammarError {
    /// A right-hand side names a non-terminal that no rule defines.
    UndefinedNonTerminal,
    /// The grammar has no rule, so its start symbol derives nothing.
    EmptyNonTerminal,
    /// A terminal is declared with two different precedences.
    ContradictoryAssociativity,
    /// A `%prec` tag names a terminal that the grammar does not know.
    UnknownSymbol,
    /// The grammar has more symbols than there are ids.
    TooManySymbols,
}

} // verus!
