//! LALR(1) items and item sets, and the parse tables built from them.

use std::collections::{HashMap, HashSet, VecDeque};
use vstd::prelude::*;
use vstd::string::StringExecFns;
use super::bison::{Action, Assoc, Bison, Component, ComponentId, ComponentView, GrammarError};
use super::cores::cores_of;
use super::first_set::{
    is_first_solution, is_suffix_rows, rules_in_range, sets_view, solve_first, suffix_rows,
};
use super::grammar::{
    build_assoc, contradictory_upto, convert_rule, declared_upto, first_fault, indices_shifted,
    lemma_rules_of, reduce_priority, rule_matches, rules_of, shift_indices, spec_error,
};
use super::id_mapper::IdMapper;
use super::item_sets::{
    find_core, holds_item, index_consistent, items_grow, lemma_rules_of_same, lookaheads_view,
    merged, queued, states_free, within,
};
use super::symbols::{
    accept_component, accept_symbol, collect_terminals, end_component, end_symbol, is_symbol,
    number_symbols, sorted_by_name, spec_nonterminals, spec_terminals, symbol_count, views,
};
use super::table::{
    first_reduce, reduces_on, resolve_conflict, spec_action, spec_goto, spec_shift, table_entry,
    Resolution,
};
use super::terminal_set::{empty, subset, union, TerminalSet};

verus! {

/// A production over symbol ids, with the precedence it reduces at.
#[derive(Debug)]
pub struct LalrRule {
    pub name_id: ComponentId,
    pub components: Vec<ComponentId>,
    pub reduce_priority: Option<Assoc>,
}

/// An LR(1) item: a rule, a dot position in its right-hand side, and the
/// terminals that may follow the rule once it is complete.
#[derive(Debug)]
pub struct Item {
    pub rule_index: usize,
    pub dot_pos: usize,
    pub lookahead: TerminalSet,
}

/// Whether two items are the same but for their lookahead.
pub open spec fn core_eq(a: Item, b: Item) -> bool {
    a.rule_index == b.rule_index && a.dot_pos == b.dot_pos
}

/// Whether two item lists hold the same cores at the same positions.
pub open spec fn same_cores(a: Seq<Item>, b: Seq<Item>) -> bool {
    &&& a.len() == b.len()
    &&& forall|k: int| 0 <= k < a.len() ==> core_eq(#[trigger] a[k], b[k])
}

/// Whether two item lists hold the same items at the same positions.
pub open spec fn same_items(a: Seq<Item>, b: Seq<Item>) -> bool {
    &&& a.len() == b.len()
    &&& forall|k: int|
        0 <= k < a.len() ==> core_eq(#[trigger] a[k], b[k]) && a[k].lookahead@ == b[k].lookahead@
}

impl Clone for Item {
    fn clone(&self) -> (item: Item)
        ensures
            core_eq(item, *self),
            item.lookahead@ == self.lookahead@,
    {
        Item {
            rule_index: self.rule_index,
            dot_pos: self.dot_pos,
            lookahead: self.lookahead.clone(),
        }
    }
}

/// The names of the symbols of `comps` at the positions `from..to`, each
/// after a blank.
pub open spec fn spec_names(
    symbols: Seq<ComponentView>,
    comps: Seq<ComponentId>,
    from: int,
    to: int,
) -> Seq<char>
    decreases to - from,
{
    if from >= to {
        Seq::empty()
    } else {
        spec_names(symbols, comps, from, to - 1) + " "@ + symbols[comps[to - 1] as int].name()
    }
}

/// An item in the notation of grammars: the left-hand side, an arrow, and
/// the right-hand side with a dot at the position of the item.
pub open spec fn spec_display(lalr: &Lalr, item: Item) -> Seq<char> {
    let rule = lalr.rules@[item.rule_index as int];
    let symbols = lalr.id_mapper@;
    symbols[rule.name_id as int].name() + " ->"@ + spec_names(
        symbols,
        rule.components@,
        0,
        item.dot_pos as int,
    ) + " ."@ + spec_names(
        symbols,
        rule.components@,
        item.dot_pos as int,
        rule.components@.len() as int,
    )
}

impl Item {
    /// Writes the item in the notation of grammars.
    pub fn display(&self, lalr: &Lalr) -> (res: String)
        requires
            lalr.grammar_wf(),
            self.rule_index < lalr.rules@.len(),
            self.dot_pos <= lalr.rules@[self.rule_index as int].components@.len(),
        ensures
            res@ == spec_display(lalr, *self),
    {
        let rule = &lalr.rules[self.rule_index];
        let ghost symbols = lalr.id_mapper@;
        assert(rule.name_id < lalr.n());
        let mut res = lalr.id_mapper.components[rule.name_id as usize].to_rule_identifier().clone();
        res.append(" ->");
        let ghost head = res@;
        let mut j: usize = 0;
        while j < self.dot_pos
            invariant
                j <= self.dot_pos,
                lalr.grammar_wf(),
                symbols == lalr.id_mapper@,
                *rule == lalr.rules@[self.rule_index as int],
                self.rule_index < lalr.rules@.len(),
                self.dot_pos <= rule.components@.len(),
                res@ == head + spec_names(symbols, rule.components@, 0, j as int),
            decreases self.dot_pos - j,
        {
            assert(rule.components@[j as int] < lalr.n());
            res.append(" ");
            res.append(
                lalr.id_mapper.components[rule.components[j] as usize].to_rule_identifier().as_str(),
            );
            assert(res@ =~= head + spec_names(symbols, rule.components@, 0, j + 1));
            j += 1;
        }
        res.append(" .");
        let ghost middle = res@;
        let mut j: usize = self.dot_pos;
        while j < rule.components.len()
            invariant
                self.dot_pos <= j <= rule.components@.len(),
                lalr.grammar_wf(),
                symbols == lalr.id_mapper@,
                *rule == lalr.rules@[self.rule_index as int],
                self.rule_index < lalr.rules@.len(),
                res@ == middle + spec_names(symbols, rule.components@, self.dot_pos as int, j as int),
            decreases rule.components@.len() - j,
        {
            assert(rule.components@[j as int] < lalr.n());
            res.append(" ");
            res.append(
                lalr.id_mapper.components[rule.components[j] as usize].to_rule_identifier().as_str(),
            );
            assert(res@ =~= middle + spec_names(
                symbols,
                rule.components@,
                self.dot_pos as int,
                j + 1,
            ));
            j += 1;
        }
        res
    }

    /// Adds terminals to the lookahead; returns whether it grew.
    pub fn insert_lookaheads(&mut self, lookaheads: &TerminalSet) -> (grew: bool)
        requires
            old(self).lookahead@.len() == lookaheads@.len(),
        ensures
            core_eq(*final(self), *old(self)),
            final(self).lookahead@ == super::terminal_set::union(
                old(self).lookahead@,
                lookaheads@,
            ),
            grew == (final(self).lookahead@ != old(self).lookahead@),
            grew == !subset(lookaheads@, old(self).lookahead@),
    {
        self.lookahead.insert_all(lookaheads)
    }
}

/// A set of items with its outgoing transitions.
#[derive(Debug)]
pub struct State {
    pub items: Vec<Item>,
    /// The state reached over each symbol.
    pub edge: HashMap<ComponentId, usize>,
    /// The position in `items` of the item that starts each rule.
    pub item_indices: HashMap<usize, usize>,
}

impl State {
    /// Whether both states hold the same item cores in the same order.
    pub fn equals_without_lookahead(&self, other: &State) -> (b: bool)
        ensures
            b == same_cores(self.items@, other.items@),
    {
        if self.items.len() != other.items.len() {
            return false;
        }
        let mut k: usize = 0;
        while k < self.items.len()
            invariant
                k <= self.items.len(),
                self.items.len() == other.items.len(),
                forall|j: int| 0 <= j < k ==> core_eq(#[trigger] self.items@[j], other.items@[j]),
            decreases self.items.len() - k,
        {
            if self.items[k].rule_index != other.items[k].rule_index || self.items[k].dot_pos
                != other.items[k].dot_pos {
                return false;
            }
            k += 1;
        }
        true
    }

    /// Whether both states hold the same items, lookaheads included, in the
    /// same order.
    pub fn equals(&self, other: &State) -> (b: bool)
        ensures
            b == same_items(self.items@, other.items@),
    {
        if self.items.len() != other.items.len() {
            return false;
        }
        let mut k: usize = 0;
        while k < self.items.len()
            invariant
                k <= self.items.len(),
                self.items.len() == other.items.len(),
                forall|j: int|
                    0 <= j < k ==> core_eq(#[trigger] self.items@[j], other.items@[j])
                        && self.items@[j].lookahead@ == other.items@[j].lookahead@,
            decreases self.items.len() - k,
        {
            if self.items[k].rule_index != other.items[k].rule_index || self.items[k].dot_pos
                != other.items[k].dot_pos || !self.items[k].lookahead.equals(
                &other.items[k].lookahead,
            ) {
                return false;
            }
            k += 1;
        }
        true
    }

    /// Appends an item, and records its position if it starts a rule.
    pub fn push_item(&mut self, item: Item)
        ensures
            final(self).items@ == old(self).items@.push(item),
            final(self).edge == old(self).edge,
            final(self).item_indices@ == if item.dot_pos == 0 {
                old(self).item_indices@.insert(item.rule_index, old(self).items@.len() as usize)
            } else {
                old(self).item_indices@
            },
    {
        if item.dot_pos == 0 {
            self.item_indices.insert(item.rule_index, self.items.len());
        }
        self.items.push(item);
    }
}

/// The item sets of a grammar, and those whose successors are still to be
/// computed.
#[derive(Debug)]
pub struct StateSet {
    pub states: Vec<State>,
    pub need_update: HashSet<usize>,
}

impl StateSet {
    /// Records that `state` is reached from state `from_index` over `comp`.
    /// If a state with the same cores exists, the lookaheads of `state` are
    /// added to it, item by item; otherwise `state` is appended as it is. A
    /// new state, and one whose lookaheads grew, is marked and queued.
    /// Nothing else of a state changes.
    pub fn add_state_lalr(
        &mut self,
        que: &mut VecDeque<usize>,
        from_index: usize,
        comp: ComponentId,
        state: State,
    )
        requires
            from_index < old(self).states@.len(),
            forall|t: int, k: int|
                0 <= t < old(self).states@.len() && 0 <= k < state.items@.len() && k < old(self).states@[t].items@.len() ==> (#[trigger] old(self).states@[t].items@[k]).lookahead@.len()
                    == state.items@[k].lookahead@.len(),
        ensures
            ({
                let j = find_core(old(self).states@, state.items@, 0);
                let n = old(self).states@.len() as int;
                let changed = j == n || lookaheads_view(final(self).states@[j].items@)
                    != lookaheads_view(old(self).states@[j].items@);
                &&& 0 <= j <= n
                &&& final(self).states@.len() == if j < n {
                    n
                } else {
                    n + 1
                }
                &&& forall|s: int|
                    0 <= s < n && s != j ==> (#[trigger] final(self).states@[s]).items@ == old(self).states@[s].items@
                &&& forall|s: int|
                    0 <= s < n && s != from_index ==> (#[trigger] final(self).states@[s]).edge@
                        == old(self).states@[s].edge@
                &&& final(self).states@[from_index as int].edge@ == old(self).states@[from_index as int].edge@.insert(comp, j as usize)
                &&& j < n ==> merged(
                    old(self).states@[j].items@,
                    state.items@,
                    final(self).states@[j].items@,
                )
                &&& forall|s: int|
                    0 <= s < n ==> (#[trigger] final(self).states@[s]).item_indices == old(self).states@[s].item_indices
                &&& j == n ==> final(self).states@[j] == state
                &&& changed ==> final(self).need_update@ == old(self).need_update@.insert(
                    j as usize,
                ) && final(que)@ == old(que)@.push(j as usize)
                &&& !changed ==> final(self).need_update@ == old(self).need_update@ && final(que)@
                    == old(que)@
            }),
    {
        let n = self.states.len();
        let mut i: usize = 0;
        let mut found = false;
        while i < n && !found
            invariant
                i <= n,
                n == self.states@.len(),
                self == old(self),
                found ==> i < n && same_cores(state.items@, self.states@[i as int].items@),
                find_core(self.states@, state.items@, 0) == find_core(
                    self.states@,
                    state.items@,
                    i as int,
                ),
            decreases n - i + if found { 0int } else { 1int },
        {
            if state.equals_without_lookahead(&self.states[i]) {
                found = true;
            } else {
                i += 1;
            }
        }
        if found {
            self.states[from_index].edge.insert(comp, i);
            let ghost before = self.states@[i as int].items@;
            let mut updated = false;
            let mut k: usize = 0;
            let len = state.items.len();
            while k < len
                invariant
                    k <= len,
                    len == state.items@.len(),
                    i < n,
                    n == self.states@.len(),
                    from_index < n,
                    same_cores(state.items@, before),
                    forall|m: int|
                        0 <= m < len ==> (#[trigger] before[m]).lookahead@.len()
                            == state.items@[m].lookahead@.len(),
                    forall|s: int|
                        0 <= s < n && s != i ==> (#[trigger] self.states@[s]).items@ == old(self).states@[s].items@,
                    forall|s: int|
                        0 <= s < n && s != from_index ==> (#[trigger] self.states@[s]).edge@
                            == old(self).states@[s].edge@,
                    forall|s: int|
                        0 <= s < n ==> (#[trigger] self.states@[s]).item_indices == old(self).states@[s].item_indices,
                    self.states@[from_index as int].edge@ == old(self).states@[from_index as int].edge@.insert(comp, i),
                    self.need_update == old(self).need_update,
                    self.states@[i as int].items@.len() == len,
                    forall|m: int|
                        0 <= m < k ==> core_eq(
                            #[trigger] self.states@[i as int].items@[m],
                            before[m],
                        ) && self.states@[i as int].items@[m].lookahead@ == union(
                            before[m].lookahead@,
                            state.items@[m].lookahead@,
                        ),
                    forall|m: int|
                        k <= m < len ==> (#[trigger] self.states@[i as int].items@[m]) == before[m],
                    updated == exists|m: int|
                        0 <= m < k && (#[trigger] self.states@[i as int].items@[m]).lookahead@
                            != before[m].lookahead@,
                decreases len - k,
            {
                let ghost prev = self.states@[i as int].items@;
                assert(core_eq(state.items@[k as int], before[k as int]));
                let grew = self.states[i].items[k].insert_lookaheads(&state.items[k].lookahead);
                proof {
                    let cur = self.states@[i as int].items@;
                    assert(forall|m: int| 0 <= m < len && m != k ==> cur[m] == prev[m]);
                    if grew {
                        assert(cur[k as int].lookahead@ != before[k as int].lookahead@);
                    }
                }
                if grew {
                    updated = true;
                }
                k += 1;
            }
            proof {
                let cur = self.states@[i as int].items@;
                if updated {
                    let m = choose|m: int|
                        0 <= m < len && (#[trigger] cur[m]).lookahead@ != before[m].lookahead@;
                    assert(lookaheads_view(cur)[m] != lookaheads_view(before)[m]);
                } else {
                    assert(lookaheads_view(cur) =~= lookaheads_view(before)) by {
                        assert forall|m: int| 0 <= m < len implies lookaheads_view(cur)[m]
                            == lookaheads_view(before)[m] by {
                            assert(cur[m].lookahead@ == before[m].lookahead@);
                        }
                    }
                }
            }
            if updated {
                self.need_update.insert(i);
                que.push_back(i);
            }
        } else {
            self.states[from_index].edge.insert(comp, n);
            self.states.push(state);
            que.push_back(n);
            self.need_update.insert(n);
        }
    }
}

/// A grammar over symbol ids, and the tables built from it.
#[derive(Debug)]
pub struct Lalr {
    pub id_mapper: IdMapper,
    /// The declared precedence of each symbol, by id.
    pub assoc: Vec<Option<Assoc>>,
    pub rules: Vec<LalrRule>,
    /// The rules of each non-terminal, by its id, in ascending order.
    pub rule_indices_by_name_id: Vec<Vec<usize>>,
    pub accept_rule_component_id: ComponentId,
    pub accept_rule_component: Component,
    pub end_rule_component_id: ComponentId,
    pub end_rule_component: Component,
    /// Whether each symbol derives the empty string, by id.
    pub nullable_symbol: Vec<bool>,
    /// The FIRST set of each symbol, by id.
    pub first_set: Vec<TerminalSet>,
    /// By rule and position: the FIRST set of the rest of the right-hand side.
    pub first_set_after: Vec<Vec<TerminalSet>>,
    /// By rule and position: whether the rest of the right-hand side is
    /// nullable.
    pub nullable: Vec<Vec<bool>>,
    pub state_set: StateSet,
    /// By state: the action on each terminal.
    pub action_table: Vec<HashMap<ComponentId, Action>>,
    /// By state: the state entered after reducing to each non-terminal.
    pub goto_table: Vec<HashMap<ComponentId, usize>>,
    /// The ids of the terminals, in ascending order.
    pub all_terminal: Vec<ComponentId>,
}

impl Lalr {
    /// The number of grammar symbols.
    pub open spec fn n(&self) -> int {
        self.id_mapper@.len() as int
    }

    /// The number of terminals: the ids below it are the terminals.
    pub open spec fn nt(&self) -> int {
        self.all_terminal@.len() as int
    }

    /// Whether the symbols and rules are consistent: terminals come first,
    /// rules mention known symbols only and have a non-terminal on the left,
    /// and each non-terminal knows its rules.
    pub open spec fn grammar_wf(&self) -> bool {
        &&& self.id_mapper.wf()
        &&& self.nt() <= self.n()
        &&& forall|t: int| 0 <= t < self.nt() ==> (#[trigger] self.all_terminal@[t]) == t
        &&& forall|a: int|
            0 <= a < self.n() ==> ((#[trigger] self.id_mapper@[a]) is Terminal) == (a < self.nt())
        &&& rules_in_range(self.rules@, self.n())
        &&& forall|i: int| 0 <= i < self.rules@.len() ==> (#[trigger] self.rules@[i]).name_id >= self.nt()
        &&& self.assoc@.len() == self.n()
        &&& self.rule_indices_by_name_id@.len() == self.n()
        &&& forall|a: int, k: int|
            0 <= a < self.n() && 0 <= k < self.rule_indices_by_name_id@[a]@.len() ==> {
                &&& (#[trigger] self.rule_indices_by_name_id@[a]@[k]) < self.rules@.len()
                &&& self.rules@[self.rule_indices_by_name_id@[a]@[k] as int].name_id == a
            }
        &&& self.end_rule_component_id < self.nt()
        &&& self.nt() <= self.accept_rule_component_id < self.n()
    }

    /// Whether the nullable flags and FIRST sets are those of the rules.
    pub open spec fn first_sets_wf(&self) -> bool {
        &&& is_first_solution(
            self.rules@,
            self.n(),
            self.nt(),
            self.nullable_symbol@,
            sets_view(self.first_set@),
        )
        &&& self.nullable@.len() == self.rules@.len()
        &&& self.first_set_after@.len() == self.rules@.len()
        &&& forall|i: int|
            0 <= i < self.rules@.len() ==> is_suffix_rows(
                self.nt(),
                self.nullable_symbol@,
                sets_view(self.first_set@),
                self.rules@[i].components@,
                #[trigger] self.nullable@[i]@,
                sets_view(self.first_set_after@[i]@),
            )
    }

    /// Whether two values hold the same symbols and rules.
    pub open spec fn same_grammar(&self, other: &Lalr) -> bool {
        &&& self.id_mapper == other.id_mapper
        &&& self.assoc == other.assoc
        &&& self.rules == other.rules
        &&& self.rule_indices_by_name_id == other.rule_indices_by_name_id
        &&& self.accept_rule_component_id == other.accept_rule_component_id
        &&& self.accept_rule_component == other.accept_rule_component
        &&& self.end_rule_component_id == other.end_rule_component_id
        &&& self.end_rule_component == other.end_rule_component
        &&& self.all_terminal == other.all_terminal
    }

    /// Whether this is the grammar `bison` over ids, with no table built
    /// yet: every symbol of the grammar has one id, the terminals first and
    /// in the order of their names, then the left-hand sides in the order of
    /// the rules, then the non-terminal that derives the start symbol; each
    /// rule is the rule of its position; each terminal has its declared
    /// precedence; and each symbol knows the rules that have it on the left.
    pub open spec fn built_from(&self, bison: &Bison) -> bool {
        &&& self.grammar_wf()
        &&& self.id_mapper@ == spec_terminals(bison) + spec_nonterminals(bison)
        &&& forall|c: ComponentView| #[trigger] self.id_mapper@.contains(c) <==> is_symbol(bison, c)
        &&& sorted_by_name(self.id_mapper@.subrange(0, self.nt()))
        &&& self.id_mapper@[self.accept_rule_component_id as int] == accept_symbol()
        &&& self.id_mapper@[self.end_rule_component_id as int] == end_symbol()
        &&& self.accept_rule_component@ == accept_symbol()
        &&& self.end_rule_component@ == end_symbol()
        &&& forall|id: int|
            0 <= id < self.n() ==> (#[trigger] self.assoc@[id]) == declared_upto(
                bison,
                self.id_mapper@[id],
                bison.assoc@.len() as int,
            )
        &&& self.rules@.len() == bison.rules@.len()
        &&& forall|i: int|
            0 <= i < self.rules@.len() ==> rule_matches(
                bison,
                self.id_mapper@,
                self.assoc@,
                self.nt(),
                #[trigger] self.rules@[i],
                i,
            )
        &&& forall|a: int|
            0 <= a < self.n() ==> (#[trigger] self.rule_indices_by_name_id@[a])@ == rules_of(
                self.rules@,
                a,
                self.rules@.len() as int,
            )
        &&& self.nullable_symbol@.len() == 0
        &&& self.first_set@.len() == 0
        &&& self.first_set_after@.len() == 0
        &&& self.nullable@.len() == 0
        &&& self.state_set.states@.len() == 0
        &&& self.state_set.need_update@ == Set::<usize>::empty()
        &&& self.action_table@.len() == 0
        &&& self.goto_table@.len() == 0
    }

    /// Numbers the symbols of a grammar and turns its rules into rules
    /// over ids. A grammar with a fault is refused with that fault.
    pub fn new(bison: &Bison) -> (r: Result<Lalr, GrammarError>)
        ensures
            match r {
                Ok(g) => spec_error(bison) is None && g.built_from(bison),
                Err(e) => spec_error(bison) == Some(e),
            },
    {
        let terminals = collect_terminals(bison);
        let nt = terminals.len();
        let id_mapper = match number_symbols(bison, &terminals) {
            Some(id_mapper) => id_mapper,
            None => {
                return Err(GrammarError::TooManySymbols);
            },
        };
        assert(symbol_count(bison) <= 0x10000) by {
            assert(id_mapper@.len() == views(terminals@).len() + spec_nonterminals(bison).len());
        }
        let n = id_mapper.len();
        let mut all_terminal: Vec<ComponentId> = Vec::new();
        let mut t: usize = 0;
        while t < nt
            invariant
                t <= nt,
                nt <= 0x10000,
                all_terminal@.len() == t,
                forall|k: int| 0 <= k < t ==> (#[trigger] all_terminal@[k]) == k,
            decreases nt - t,
        {
            all_terminal.push(t as u16);
            t += 1;
        }
        let accept_rule_component = accept_component();
        let end_rule_component = end_component();
        let accept_rule_component_id = match id_mapper.to_component_id(&accept_rule_component) {
            Ok(id) => id,
            Err(_) => {
                assert(is_symbol(bison, accept_symbol()));
                assert(false);
                0
            },
        };
        let end_rule_component_id = match id_mapper.to_component_id(&end_rule_component) {
            Ok(id) => id,
            Err(_) => {
                assert(is_symbol(bison, end_symbol()));
                assert(false);
                0
            },
        };
        let assoc = match build_assoc(bison, &id_mapper) {
            Ok(assoc) => assoc,
            Err(e) => {
                return Err(e);
            },
        };
        let mut rule_indices_by_name_id: Vec<Vec<usize>> = Vec::new();
        let mut a: usize = 0;
        while a < n
            invariant
                a <= n,
                rule_indices_by_name_id@.len() == a,
                forall|k: int|
                    0 <= k < a ==> (#[trigger] rule_indices_by_name_id@[k])@ == Seq::<usize>::empty(),
            decreases n - a,
        {
            rule_indices_by_name_id.push(Vec::new());
            a += 1;
        }
        let mut rules: Vec<LalrRule> = Vec::new();
        let mut i: usize = 0;
        while i < bison.rules.len()
            invariant
                i <= bison.rules@.len(),
                n == id_mapper@.len(),
                nt <= n,
                id_mapper.wf(),
                forall|c: ComponentView| #[trigger] id_mapper@.contains(c) <==> is_symbol(bison, c),
                forall|id: int|
                    0 <= id < id_mapper@.len() ==> ((#[trigger] id_mapper@[id]) is Terminal) == (id
                        < nt),
                assoc@.len() == n,
                rules@.len() == i,
                rule_indices_by_name_id@.len() == n,
                symbol_count(bison) <= 0x10000,
                first_fault(bison, 0) == first_fault(bison, i as int),
                !contradictory_upto(bison, bison.assoc@.len() as int),
                forall|k: int|
                    0 <= k < i ==> rule_matches(
                        bison,
                        id_mapper@,
                        assoc@,
                        nt as int,
                        #[trigger] rules@[k],
                        k,
                    ) && rules@[k].name_id >= nt,
                forall|a: int|
                    0 <= a < n ==> (#[trigger] rule_indices_by_name_id@[a])@ == rules_of(
                        rules@,
                        a,
                        i as int,
                    ),
            decreases bison.rules@.len() - i,
        {
            match convert_rule(bison, &id_mapper, &assoc, nt, i) {
                Ok(rule) => {
                    let name_id = rule.name_id as usize;
                    let ghost rules0 = rules@;
                    let ghost lists0 = rule_indices_by_name_id@;
                    rule_indices_by_name_id[name_id].push(i);
                    rules.push(rule);
                    proof {
                        assert forall|a: int| 0 <= a < n implies (
                        #[trigger] rule_indices_by_name_id@[a])@ == rules_of(rules@, a, i + 1) by {
                            lemma_rules_of_same(rules0, rules@, a, i as int);
                            if a != name_id {
                                assert(rule_indices_by_name_id@[a] == lists0[a]);
                            }
                        }
                        assert forall|k: int| 0 <= k < i + 1 implies rule_matches(
                            bison,
                            id_mapper@,
                            assoc@,
                            nt as int,
                            #[trigger] rules@[k],
                            k,
                        ) && rules@[k].name_id >= nt by {
                            if k < i {
                                assert(rules@[k] == rules0[k]);
                            }
                        }
                    }
                },
                Err(e) => {
                    return Err(e);
                },
            }
            i += 1;
        }
        let g = Lalr {
            id_mapper,
            assoc,
            rules,
            rule_indices_by_name_id,
            accept_rule_component_id,
            accept_rule_component,
            end_rule_component_id,
            end_rule_component,
            nullable_symbol: Vec::new(),
            first_set: Vec::new(),
            first_set_after: Vec::new(),
            nullable: Vec::new(),
            state_set: StateSet { states: Vec::new(), need_update: HashSet::new() },
            action_table: Vec::new(),
            goto_table: Vec::new(),
            all_terminal,
        };
        proof {
            assert(g.id_mapper@.subrange(0, g.nt()) == super::symbols::views(terminals@));
            assert forall|i: int| 0 <= i < g.rules@.len() implies {
                &&& (#[trigger] g.rules@[i]).name_id < g.n()
                &&& forall|k: int|
                    0 <= k < g.rules@[i].components@.len() ==> (
                    #[trigger] g.rules@[i].components@[k]) < g.n()
            } by {
                assert(rule_matches(bison, g.id_mapper@, g.assoc@, g.nt(), g.rules@[i], i));
            }
            assert forall|a: int, k: int|
                0 <= a < g.n() && 0 <= k < g.rule_indices_by_name_id@[a]@.len() implies {
                &&& (#[trigger] g.rule_indices_by_name_id@[a]@[k]) < g.rules@.len()
                &&& g.rules@[g.rule_indices_by_name_id@[a]@[k] as int].name_id == a
            } by {
                lemma_rules_of(g.rules@, a, g.rules@.len() as int);
                let list = rules_of(g.rules@, a, g.rules@.len() as int);
                assert(list[k] < g.rules@.len());
            }
            assert(g.id_mapper@[g.end_rule_component_id as int] is Terminal);
            assert(g.id_mapper@[g.accept_rule_component_id as int] is NonTerminal);
        }
        Ok(g)
    }

    /// Builds the rows of a state in the action and goto tables.
    fn build_rows(&self, state: &State, start_rule: usize) -> (r: (
        HashMap<ComponentId, Action>,
        HashMap<ComponentId, usize>,
    ))
        requires
            self.grammar_wf(),
            self.items_valid(state.items@),
        ensures
            forall|t: ComponentId|
                #[trigger] table_entry(r.0@, t) == spec_action(
                    self.rules@,
                    self.assoc@,
                    self.nt(),
                    start_rule,
                    *state,
                    t,
                ),
            forall|a: ComponentId|
                #[trigger] table_entry(r.1@, a) == spec_goto(self.n(), self.nt(), *state, a),
    {
        let n_sym = self.id_mapper.len();
        let nt = self.all_terminal.len();
        let mut action: HashMap<ComponentId, Action> = HashMap::new();
        let mut goto: HashMap<ComponentId, usize> = HashMap::new();
        let mut x: usize = 0;
        while x < n_sym
            invariant
                x <= n_sym,
                n_sym == self.n(),
                nt == self.nt(),
                nt <= n_sym <= 0x10000,
                forall|y: ComponentId|
                    #[trigger] table_entry(action@, y) == if y < x {
                        match spec_shift(*state, nt as int, y) {
                            Some(target) => Some(Action::Shift(target)),
                            None => None,
                        }
                    } else {
                        None
                    },
                forall|a: ComponentId|
                    #[trigger] table_entry(goto@, a) == if a < x {
                        spec_goto(n_sym as int, nt as int, *state, a)
                    } else {
                        None
                    },
            decreases n_sym - x,
        {
            let key = x as u16;
            let ghost action0 = action@;
            let ghost goto0 = goto@;
            let target = match state.edge.get(&key) {
                Some(t) => Some(*t),
                None => None,
            };
            assert(target == table_entry(state.edge@, key));
            match target {
                Some(t) => {
                    if x >= nt {
                        goto.insert(key, t);
                    } else {
                        action.insert(key, Action::Shift(t));
                    }
                },
                None => {},
            }
            proof {
                assert forall|y: ComponentId|
                    #[trigger] table_entry(action@, y) == if y < x + 1 {
                        match spec_shift(*state, nt as int, y) {
                            Some(target) => Some(Action::Shift(target)),
                            None => None,
                        }
                    } else {
                        None
                    } by {
                    let before = table_entry(action0, y);
                }
                assert forall|a: ComponentId|
                    #[trigger] table_entry(goto@, a) == if a < x + 1 {
                        spec_goto(n_sym as int, nt as int, *state, a)
                    } else {
                        None
                    } by {
                    let before = table_entry(goto0, a);
                }
            }
            x += 1;
        }
        let mut t: usize = 0;
        while t < nt
            invariant
                t <= nt,
                n_sym == self.n(),
                nt == self.nt(),
                nt <= n_sym <= 0x10000,
                self.grammar_wf(),
                self.items_valid(state.items@),
                forall|y: ComponentId|
                    #[trigger] table_entry(action@, y) == if y < t {
                        spec_action(self.rules@, self.assoc@, nt as int, start_rule, *state, y)
                    } else {
                        match spec_shift(*state, nt as int, y) {
                            Some(target) => Some(Action::Shift(target)),
                            None => None,
                        }
                    },
            decreases nt - t,
        {
            let key = t as u16;
            let mut q: usize = 0;
            let mut found = false;
            while q < state.items.len() && !found
                invariant
                    q <= state.items@.len(),
                    self.items_valid(state.items@),
                    found ==> q < state.items@.len() && reduces_on(
                        self.rules@,
                        state.items@[q as int],
                        key,
                    ),
                    first_reduce(self.rules@, state.items@, key, 0) == first_reduce(
                        self.rules@,
                        state.items@,
                        key,
                        q as int,
                    ),
                decreases state.items@.len() - q + if found { 0int } else { 1int },
            {
                assert(self.item_valid(state.items@[q as int]));
                if state.items[q].dot_pos == self.rules[state.items[q].rule_index].components.len()
                    && state.items[q].lookahead.contains(key) {
                    found = true;
                } else {
                    q += 1;
                }
            }
            let ghost action0 = action@;
            if found {
                assert(self.item_valid(state.items@[q as int]));
                let rule = state.items[q].rule_index;
                let reduce = if rule == start_rule {
                    Action::Accept
                } else {
                    Action::Reduce(rule)
                };
                assert(table_entry(action@, key) == match spec_shift(*state, nt as int, key) {
                    Some(target) => Some(Action::Shift(target)),
                    None => None,
                });
                if !action.contains_key(&key) {
                    action.insert(key, reduce);
                } else {
                    match resolve_conflict(self.rules[rule].reduce_priority, self.assoc[t]) {
                        Resolution::Shift => {},
                        Resolution::Reduce => {
                            action.insert(key, reduce);
                        },
                        Resolution::Error => {
                            action.insert(key, Action::Error);
                        },
                    }
                }
            }
            proof {
                assert forall|y: ComponentId|
                    #[trigger] table_entry(action@, y) == if y < t + 1 {
                        spec_action(self.rules@, self.assoc@, nt as int, start_rule, *state, y)
                    } else {
                        match spec_shift(*state, nt as int, y) {
                            Some(target) => Some(Action::Shift(target)),
                            None => None,
                        }
                    } by {
                    let before = table_entry(action0, y);
                    if y == key {
                        assert(first_reduce(self.rules@, state.items@, key, q as int) == q);
                    }
                }
            }
            t += 1;
        }
        (action, goto)
    }

    /// What holds of item sets for one value holds for another with the
    /// same rules, but for their precedence, and the same FIRST sets.
    pub proof fn lemma_inv_same_rules(
        &self,
        other: &Lalr,
        states: Seq<State>,
        need: Set<usize>,
        que: Seq<usize>,
        busy: int,
    )
        requires
            self.same_rules(other),
            self.automaton_inv(states, need, que, busy),
        ensures
            other.automaton_inv(states, need, que, busy),
    {
        assert forall|s: int| 0 <= s < states.len() implies other.state_wf(#[trigger] states[s]) by {
            let items = states[s].items@;
            assert(self.state_wf(states[s]));
            assert forall|p: int| 0 <= p < items.len() implies other.item_valid(
                #[trigger] items[p],
            ) by {
                assert(self.item_valid(items[p]));
            }
            assert forall|p: int| 0 <= p < items.len() implies #[trigger] other.item_served(
                items,
                p,
            ) by {
                assert(self.item_served(items, p));
                assert(self.handed_down(items[p]) == other.handed_down(items[p]));
            }
        }
        assert forall|s: usize|
            s < states.len() && s != busy && !need.contains(
                s,
            ) implies #[trigger] other.state_settled(states, s as int) by {
            assert(self.state_settled(states, s as int));
            assert forall|p: int|
                0 <= p < states[s as int].items@.len() implies #[trigger] other.item_followed(
                states,
                s as int,
                p,
            ) by {
                assert(self.item_followed(states, s as int, p));
                assert(self.next_symbol(states[s as int].items@[p]) == other.next_symbol(
                    states[s as int].items@[p],
                ));
            }
        }
    }

    /// The item sets of a grammar do not depend on precedence: states that
    /// are the item sets of one grammar are those of every grammar with the
    /// same symbols, the same rules but for their precedence, and the same
    /// FIRST sets.
    pub proof fn law_levels_keep_states(&self, other: &Lalr, states: Seq<State>)
        requires
            self.same_rules(other),
            self.automaton_inv(states, Set::<usize>::empty(), Seq::<usize>::empty(), -1),
            self.automaton_exact(states),
        ensures
            other.automaton_inv(states, Set::<usize>::empty(), Seq::<usize>::empty(), -1),
            other.automaton_exact(states),
    {
        self.lemma_inv_same_rules(
            other,
            states,
            Set::<usize>::empty(),
            Seq::<usize>::empty(),
            -1,
        );
        self.lemma_frame_exact(other, states);
    }

    /// Whether `items` holds the item that starts rule `start_rule` with
    /// terminal `end` in its lookahead.
    pub open spec fn has_initial(items: Seq<Item>, start_rule: int, end: int) -> bool {
        exists|q: int|
            0 <= q < items.len() && (#[trigger] items[q]).rule_index == start_rule
                && items[q].dot_pos == 0 && 0 <= end < items[q].lookahead@.len()
                && items[q].lookahead@[end]
    }

    /// Whether the states are the item sets of the rules, complete and no
    /// more: the first state holds the item that starts the first rule, the
    /// rule of the start symbol, with the end marker in its lookahead;
    /// every state is closed; every item with the dot before a symbol is
    /// followed over an edge; no two states hold the same cores; each state
    /// but the first is at the end of an edge, and holds the cores of the
    /// closure of what the edge moves on; and the lookaheads are the least
    /// that all this asks for.
    pub open spec fn automaton_wf(&self) -> bool {
        let states = self.state_set.states@;
        &&& self.rules@.len() >= 1
        &&& states.len() >= 1
        &&& Self::has_initial(states[0].items@, 0, self.end_rule_component_id as int)
        &&& self.state_set.need_update@ == Set::<usize>::empty()
        &&& self.automaton_inv(states, Set::<usize>::empty(), Seq::<usize>::empty(), -1)
        &&& self.automaton_exact(states)
    }

    /// Whether the action and goto tables are those of the states.
    pub open spec fn tables_wf(&self) -> bool {
        let states = self.state_set.states@;
        let start_rule = 0usize;
        &&& self.action_table@.len() == states.len()
        &&& self.goto_table@.len() == states.len()
        &&& forall|i: int, t: ComponentId|
            0 <= i < states.len() ==> #[trigger] table_entry(self.action_table@[i]@, t)
                == spec_action(self.rules@, self.assoc@, self.nt(), start_rule, states[i], t)
        &&& forall|i: int, a: ComponentId|
            0 <= i < states.len() ==> #[trigger] table_entry(self.goto_table@[i]@, a) == spec_goto(
                self.n(),
                self.nt(),
                states[i],
                a,
            )
    }

    /// Builds the parse tables of the grammar. The rule that derives the
    /// start symbol, the left-hand side of the first rule, is put before
    /// the rules, so that each rule of the grammar has the number after its
    /// own; FIRST sets, item sets and both tables are then computed. A
    /// grammar without rules has no start symbol and is refused.
    pub fn build_lalr1_parse_table(&mut self) -> (r: Result<(), GrammarError>)
        requires
            old(self).grammar_wf(),
        ensures
            match r {
                Err(e) => {
                    &&& e == GrammarError::EmptyNonTerminal
                    &&& old(self).rules@.len() == 0
                    &&& *final(self) == *old(self)
                },
                Ok(_) => {
                    &&& old(self).rules@.len() > 0
                    &&& final(self).rules@.len() == old(self).rules@.len() + 1
                    &&& final(self).rules@[0].name_id == old(self).accept_rule_component_id
                    &&& final(self).rules@[0].components@ == seq![old(self).rules@[0].name_id]
                    &&& final(self).rules@[0].reduce_priority is None
                    &&& forall|i: int|
                        0 <= i < old(self).rules@.len() ==> final(self).rules@[i + 1] == #[trigger] old(self).rules@[i]
                    &&& indices_shifted(old(self).rule_indices_by_name_id@, final(self).rule_indices_by_name_id@)
                    &&& final(self).id_mapper == old(self).id_mapper
                    &&& final(self).assoc == old(self).assoc
                    &&& final(self).all_terminal == old(self).all_terminal
                    &&& final(self).accept_rule_component_id == old(self).accept_rule_component_id
                    &&& final(self).accept_rule_component == old(self).accept_rule_component
                    &&& final(self).end_rule_component_id == old(self).end_rule_component_id
                    &&& final(self).end_rule_component == old(self).end_rule_component
                    &&& final(self).grammar_wf()
                    &&& final(self).first_sets_wf()
                    &&& final(self).automaton_wf()
                    &&& final(self).tables_wf()
                },
            },
    {
        if self.rules.len() == 0 {
            return Err(GrammarError::EmptyNonTerminal);
        }
        let start_rule_index: usize = 0;
        assert(self.rules@[0].name_id < self.n());
        let start_component_id = self.rules[0].name_id;
        let mut components: Vec<ComponentId> = Vec::new();
        components.push(start_component_id);
        let ghost rules0 = self.rules@;
        let ghost indices0 = self.rule_indices_by_name_id@;
        let shifted = shift_indices(&self.rule_indices_by_name_id, self.rules.len());
        self.rule_indices_by_name_id = shifted;
        self.rules.insert(
            0,
            LalrRule {
                name_id: self.accept_rule_component_id,
                components,
                reduce_priority: None,
            },
        );
        proof {
            assert(self.rules@[0].components@ =~= seq![rules0[0].name_id]);
            assert forall|i: int| 0 <= i < rules0.len() implies self.rules@[i + 1]
                == #[trigger] rules0[i] by {}
            assert forall|i: int| 0 <= i < self.rules@.len() implies {
                &&& (#[trigger] self.rules@[i]).name_id < self.n()
                &&& forall|k: int|
                    0 <= k < self.rules@[i].components@.len() ==> (
                    #[trigger] self.rules@[i].components@[k]) < self.n()
            } by {
                if i > 0 {
                    assert(self.rules@[i] == rules0[i - 1]);
                }
            }
            assert forall|i: int| 0 <= i < self.rules@.len() implies (
            #[trigger] self.rules@[i]).name_id >= self.nt() by {
                if i > 0 {
                    assert(self.rules@[i] == rules0[i - 1]);
                }
            }
            assert forall|a: int, k: int|
                0 <= a < self.n() && 0 <= k < self.rule_indices_by_name_id@[a]@.len() implies {
                &&& (#[trigger] self.rule_indices_by_name_id@[a]@[k]) < self.rules@.len()
                &&& self.rules@[self.rule_indices_by_name_id@[a]@[k] as int].name_id == a
            } by {
                let r = indices0[a]@[k] as int;
                assert(r < rules0.len());
                assert(self.rule_indices_by_name_id@[a]@[k] == r + 1);
                assert(self.rules@[r + 1] == rules0[r]);
            }
            assert(self.grammar_wf());
        }
        self.build_first_set();
        let nt = self.all_terminal.len();
        let mut lookahead = TerminalSet::new(nt);
        lookahead.insert(self.end_rule_component_id);
        let mut state0 = State {
            items: Vec::new(),
            edge: HashMap::new(),
            item_indices: HashMap::new(),
        };
        state0.push_item(Item { rule_index: start_rule_index, dot_pos: 0, lookahead });
        let ghost kernel = state0.items@;
        proof {
            assert(self.item_valid(kernel[0]));
            assert(index_consistent(state0.items@, state0.item_indices@));
        }
        self.closure(&mut state0);
        proof {
            assert(holds_item(state0.items@, kernel[0]));
            let q = choose|q: int|
                0 <= q < state0.items@.len() && core_eq(#[trigger] state0.items@[q], kernel[0])
                    && subset(kernel[0].lookahead@, state0.items@[q].lookahead@);
            assert(kernel[0].lookahead@[self.end_rule_component_id as int]);
            assert(Self::has_initial(
                state0.items@,
                start_rule_index as int,
                self.end_rule_component_id as int,
            ));
        }
        let mut state_set = StateSet { states: Vec::new(), need_update: HashSet::new() };
        state_set.states.push(state0);
        let mut que: VecDeque<usize> = VecDeque::new();
        que.push_back(0);
        state_set.need_update.insert(0);
        proof {
            assert(que@[0] == 0);
            assert(self.state_wf(state_set.states@[0]));
            assert(self.automaton_inv(state_set.states@, state_set.need_update@, que@, -1));
            let states = state_set.states@;
            assert(self.edges_ok(states));
            assert(cores_of(kernel) =~= seq![(start_rule_index as int, 0int)]);
            assert(self.states_reached(states));
            assert forall|others: Seq<Seq<Item>>| #[trigger]
                self.family_ok(states, others) implies Self::family_within(states, others) by {
                let q = choose|q: int|
                    0 <= q < others[0].len() && (#[trigger] others[0][q]).rule_index
                        == start_rule_index && others[0][q].dot_pos == 0 && 0
                        <= self.end_rule_component_id < others[0][q].lookahead@.len()
                        && others[0][q].lookahead@[self.end_rule_component_id as int];
                assert(self.item_valid(others[0][q]));
                assert(core_eq(others[0][q], kernel[0]));
                assert(subset(kernel[0].lookahead@, others[0][q].lookahead@));
                assert(holds_item(others[0], kernel[0]));
                assert(self.closes(kernel, others[0]));
                assert forall|s: int| 0 <= s < states.len() implies within(
                    (#[trigger] states[s]).items@,
                    others[s],
                ) by {}
            }
        }
        while que.len() > 0
            invariant
                self.grammar_wf(),
                self.first_sets_wf(),
                start_rule_index == 0,
                state_set.states@.len() >= 1,
                Self::has_initial(
                    state_set.states@[0].items@,
                    start_rule_index as int,
                    self.end_rule_component_id as int,
                ),
                self.automaton_inv(state_set.states@, state_set.need_update@, que@, -1),
                self.automaton_exact(state_set.states@),
            decreases
                    usize::MAX - state_set.states@.len(),
                    states_free(state_set.states@),
                    que@.len(),
        {
            let ghost que_before = que@;
            let ghost states_before = state_set.states@;
            let state_count = state_set.states.len();
            let i = que.pop_front().unwrap();
            proof {
                assert(que_before =~= seq![i] + que@);
                assert forall|d: int| 0 <= d < que@.len() implies #[trigger] que@[d]
                    < state_set.states@.len() by {
                    assert(que_before[d + 1] == que@[d]);
                }
                assert(que_before[0] < state_set.states@.len());
            }
            if state_set.need_update.contains(&i) {
                let ghost need_before = state_set.need_update@;
                state_set.need_update.remove(&i);
                proof {
                    assert forall|s: usize| #[trigger]
                        state_set.need_update@.contains(s) implies s < state_set.states@.len()
                        && queued(que@, s as int) by {
                        assert(need_before.contains(s));
                        let d = choose|d: int|
                            0 <= d < que_before.len() && #[trigger] que_before[d] == s as int;
                        assert(d > 0);
                        assert(que@[d - 1] == s);
                    }
                    assert(self.automaton_inv(
                        state_set.states@,
                        state_set.need_update@,
                        que@,
                        i as int,
                    ));
                }
                self.expand_state(&mut state_set, &mut que, i);
                proof {
                    assert(items_grow(states_before[0].items@, state_set.states@[0].items@));
                    let q = choose|q: int|
                        0 <= q < states_before[0].items@.len() && (
                        #[trigger] states_before[0].items@[q]).rule_index == start_rule_index
                            && states_before[0].items@[q].dot_pos == 0 && 0
                            <= self.end_rule_component_id < states_before[0].items@[q].lookahead@.len()
                            && states_before[0].items@[q].lookahead@[self.end_rule_component_id as int];
                    assert(core_eq(states_before[0].items@[q], state_set.states@[0].items@[q]));
                }
            } else {
                proof {
                    assert forall|s: usize| #[trigger]
                        state_set.need_update@.contains(s) implies s < state_set.states@.len()
                        && queued(que@, s as int) by {
                        let d = choose|d: int|
                            0 <= d < que_before.len() && #[trigger] que_before[d] == s as int;
                        assert(d > 0);
                        assert(que@[d - 1] == s);
                    }
                }
            }
            let state_count = state_set.states.len();
        }
        proof {
            assert(que@ =~= Seq::<usize>::empty());
            assert(state_set.need_update@ =~= Set::<usize>::empty()) by {
                assert forall|s: usize| !state_set.need_update@.contains(s) by {
                    if state_set.need_update@.contains(s) {
                        assert(queued(que@, s as int));
                    }
                }
            }
        }
        let mut action_table: Vec<HashMap<ComponentId, Action>> = Vec::new();
        let mut goto_table: Vec<HashMap<ComponentId, usize>> = Vec::new();
        let mut i: usize = 0;
        while i < state_set.states.len()
            invariant
                i <= state_set.states@.len(),
                self.grammar_wf(),
                self.states_wf(state_set.states@),
                action_table@.len() == i,
                goto_table@.len() == i,
                forall|k: int, t: ComponentId|
                    0 <= k < i ==> #[trigger] table_entry(action_table@[k]@, t) == spec_action(
                        self.rules@,
                        self.assoc@,
                        self.nt(),
                        start_rule_index,
                        state_set.states@[k],
                        t,
                    ),
                forall|k: int, a: ComponentId|
                    0 <= k < i ==> #[trigger] table_entry(goto_table@[k]@, a) == spec_goto(
                        self.n(),
                        self.nt(),
                        state_set.states@[k],
                        a,
                    ),
            decreases state_set.states@.len() - i,
        {
            assert(self.state_wf(state_set.states@[i as int]));
            let (action_row, goto_row) = self.build_rows(&state_set.states[i], start_rule_index);
            action_table.push(action_row);
            goto_table.push(goto_row);
            i += 1;
        }
        let ghost built = *self;
        let ghost states = state_set.states@;
        self.state_set = state_set;
        self.action_table = action_table;
        self.goto_table = goto_table;
        proof {
            built.lemma_inv_same_rules(
                &*self,
                states,
                Set::<usize>::empty(),
                Seq::<usize>::empty(),
                -1,
            );
            built.lemma_frame_exact(&*self, states);
        }
        Ok(())
    }

    /// Computes which symbols are nullable and the FIRST set of each, then
    /// both for the rest of each right-hand side from each position on.
    pub fn build_first_set(&mut self)
        requires
            old(self).grammar_wf(),
        ensures
            final(self).same_grammar(old(self)),
            final(self).first_sets_wf(),
            final(self).state_set == old(self).state_set,
            final(self).action_table == old(self).action_table,
            final(self).goto_table == old(self).goto_table,
    {
        let n = self.id_mapper.len();
        let nt = self.all_terminal.len();
        let (nullable_symbol, first_set) = solve_first(&self.rules, n, nt);
        let mut nullable: Vec<Vec<bool>> = Vec::new();
        let mut first_set_after: Vec<Vec<TerminalSet>> = Vec::new();
        let mut i: usize = 0;
        while i < self.rules.len()
            invariant
                i <= self.rules@.len(),
                self.grammar_wf(),
                n == self.n(),
                nt == self.nt(),
                self == old(self),
                is_first_solution(
                    self.rules@,
                    n as int,
                    nt as int,
                    nullable_symbol@,
                    sets_view(first_set@),
                ),
                nullable@.len() == i,
                first_set_after@.len() == i,
                forall|k: int|
                    0 <= k < i ==> is_suffix_rows(
                        nt as int,
                        nullable_symbol@,
                        sets_view(first_set@),
                        self.rules@[k].components@,
                        #[trigger] nullable@[k]@,
                        sets_view(first_set_after@[k]@),
                    ),
            decreases self.rules@.len() - i,
        {
            assert(forall|a: int|
                0 <= a < first_set@.len() ==> (#[trigger] first_set@[a])@.len() == sets_view(
                    first_set@,
                )[a].len());
            let (nullable_row, first_row) = suffix_rows(
                &self.rules[i].components,
                &nullable_symbol,
                &first_set,
                nt,
            );
            nullable.push(nullable_row);
            first_set_after.push(first_row);
            i += 1;
        }
        self.nullable_symbol = nullable_symbol;
        self.first_set = first_set;
        self.nullable = nullable;
        self.first_set_after = first_set_after;
    }
}

} // verus!
