//! The action and goto tables of a set of states: what each entry is, how a
//! conflict between a shift and a reduction is resolved, and the rows as they
//! are built.

use vstd::prelude::*;
use super::bison::{Action, Assoc, AssocDirective, ComponentId};
use super::lalr::{Item, LalrRule, State};

verus! {

/// How a conflict between a shift and a reduction ends.
#[derive(Debug, Clone, Copy, PartialEq, Eq, Structural)]
pub enum Resolution {
    Shift,
    Reduce,
    Error,
}

/// Which of a shift and a reduction wins, by the precedence of the rule to
/// reduce and that of the terminal to shift: with both known, the higher
/// priority; with equal priorities, the reduction for a left-associative
/// terminal, the shift for a right-associative one, and neither for a
/// non-associative one; with either unknown, the shift.
pub open spec fn spec_resolve(reduce: Option<Assoc>, shift: Option<Assoc>) -> Resolution {
    match (reduce, shift) {
        (Some(r), Some(s)) => {
            if r.priority < s.priority {
                Resolution::Shift
            } else if r.priority > s.priority {
                Resolution::Reduce
            } else {
                match s.directive {
                    AssocDirective::NonAssoc => Resolution::Error,
                    AssocDirective::Left => Resolution::Reduce,
                    AssocDirective::Right => Resolution::Shift,
                }
            }
        },
        _ => Resolution::Shift,
    }
}

/// Resolves a conflict between a shift and a reduction.
pub fn resolve_conflict(reduce: Option<Assoc>, shift: Option<Assoc>) -> (r: Resolution)
    ensures
        r == spec_resolve(reduce, shift),
{
    match (reduce, shift) {
        (Some(r), Some(s)) => {
            if r.priority < s.priority {
                Resolution::Shift
            } else if r.priority > s.priority {
                Resolution::Reduce
            } else {
                match s.directive {
                    AssocDirective::NonAssoc => Resolution::Error,
                    AssocDirective::Left => Resolution::Reduce,
                    AssocDirective::Right => Resolution::Shift,
                }
            }
        },
        _ => Resolution::Shift,
    }
}

/// Whether an item has the dot at the end of its rule.
pub open spec fn is_complete(rules: Seq<LalrRule>, item: Item) -> bool {
    item.dot_pos == rules[item.rule_index as int].components@.len()
}

/// Whether an item calls for a reduction on terminal `t`.
pub open spec fn reduces_on(rules: Seq<LalrRule>, item: Item, t: ComponentId) -> bool {
    is_complete(rules, item) && t < item.lookahead@.len() && item.lookahead@[t as int]
}

/// The position of the first item from position `from` on that calls for a
/// reduction on `t`, or the length of `items` if none does.
pub open spec fn first_reduce(rules: Seq<LalrRule>, items: Seq<Item>, t: ComponentId, from: int) -> int
    decreases items.len() - from,
{
    if from < 0 || from >= items.len() {
        items.len() as int
    } else if reduces_on(rules, items[from], t) {
        from
    } else {
        first_reduce(rules, items, t, from + 1)
    }
}

/// The action that reduces by a rule: to accept, for the rule of the start
/// symbol.
pub open spec fn reduce_action(rule: usize, start_rule: usize) -> Action {
    if rule == start_rule {
        Action::Accept
    } else {
        Action::Reduce(rule)
    }
}

/// The entry of a row under a key, if it has one.
pub open spec fn table_entry<V>(row: Map<ComponentId, V>, x: ComponentId) -> Option<V> {
    if row.contains_key(x) {
        Some(row[x])
    } else {
        None
    }
}

/// The shift that a state calls for on terminal `t`, if any.
pub open spec fn spec_shift(state: State, nt: int, t: ComponentId) -> Option<usize> {
    if t < nt {
        table_entry(state.edge@, t)
    } else {
        None
    }
}

/// The action of a state on terminal `t`: the shift over its edge on `t`,
/// or the reduction of its first item that is complete and has `t` in its
/// lookahead; where it has both, what the precedences decide.
pub open spec fn spec_action(
    rules: Seq<LalrRule>,
    assoc: Seq<Option<Assoc>>,
    nt: int,
    start_rule: usize,
    state: State,
    t: ComponentId,
) -> Option<Action> {
    let q = first_reduce(rules, state.items@, t, 0);
    if t >= nt {
        None
    } else if q >= state.items@.len() {
        match spec_shift(state, nt, t) {
            Some(target) => Some(Action::Shift(target)),
            None => None,
        }
    } else {
        let rule = state.items@[q].rule_index;
        match spec_shift(state, nt, t) {
            None => Some(reduce_action(rule, start_rule)),
            Some(target) => match spec_resolve(rules[rule as int].reduce_priority, assoc[t as int]) {
                Resolution::Shift => Some(Action::Shift(target)),
                Resolution::Reduce => Some(reduce_action(rule, start_rule)),
                Resolution::Error => Some(Action::Error),
            },
        }
    }
}

/// The state that a state enters after a reduction to non-terminal `a`.
pub open spec fn spec_goto(n: int, nt: int, state: State, a: ComponentId) -> Option<usize> {
    if nt <= a < n {
        table_entry(state.edge@, a)
    } else {
        None
    }
}

/// The first item from `from` on that reduces on `t` does so, and none
/// before it does.
pub proof fn lemma_first_reduce(rules: Seq<LalrRule>, items: Seq<Item>, t: ComponentId, from: int)
    requires
        0 <= from <= items.len(),
    ensures
        from <= first_reduce(rules, items, t, from) <= items.len(),
        first_reduce(rules, items, t, from) < items.len() ==> reduces_on(
            rules,
            items[first_reduce(rules, items, t, from)],
            t,
        ),
        forall|q: int|
            from <= q < first_reduce(rules, items, t, from) ==> !reduces_on(
                rules,
                #[trigger] items[q],
                t,
            ),
    decreases items.len() - from,
{
    if from < items.len() && !reduces_on(rules, items[from], t) {
        lemma_first_reduce(rules, items, t, from + 1);
    }
}

/// Without non-associative terminals no conflict ends in an error.
pub proof fn law_no_error_without_nonassoc(reduce: Option<Assoc>, shift: Option<Assoc>)
    requires
        shift is Some ==> shift->Some_0.directive != AssocDirective::NonAssoc,
    ensures
        spec_resolve(reduce, shift) != Resolution::Error,
{
}

/// Raising the level of the terminal to shift never turns a shift into
/// anything else.
pub proof fn law_raising_keeps_shift(reduce: Option<Assoc>, shift: Assoc, raised: Assoc)
    requires
        raised.priority > shift.priority,
        raised.directive == shift.directive,
        spec_resolve(reduce, Some(shift)) == Resolution::Shift,
    ensures
        spec_resolve(reduce, Some(raised)) == Resolution::Shift,
{
}

/// In a grammar without non-associative terminals, however the levels of
/// terminals and rules are changed: where a state had an action on a
/// terminal it still has one, and that action is no error.
pub proof fn law_levels_keep_actions(
    rules: Seq<LalrRule>,
    assoc: Seq<Option<Assoc>>,
    rules2: Seq<LalrRule>,
    assoc2: Seq<Option<Assoc>>,
    nt: int,
    start_rule: usize,
    state: State,
    t: ComponentId,
)
    requires
        rules2.len() == rules.len(),
        forall|i: int|
            0 <= i < rules.len() ==> (#[trigger] rules2[i]).components@ == rules[i].components@,
        forall|p: int| 0 <= p < state.items@.len() ==> (#[trigger] state.items@[p]).rule_index < rules.len(),
        assoc2.len() == assoc.len(),
        nt <= assoc.len(),
        forall|x: int|
            0 <= x < assoc2.len() && (#[trigger] assoc2[x]) is Some ==> assoc2[x]->Some_0.directive
                != AssocDirective::NonAssoc,
        spec_action(rules, assoc, nt, start_rule, state, t) is Some,
    ensures
        spec_action(rules2, assoc2, nt, start_rule, state, t) is Some,
        spec_action(rules2, assoc2, nt, start_rule, state, t) != Some(Action::Error),
{
    lemma_same_reduce(rules, rules2, state.items@, t, 0);
    let q = first_reduce(rules2, state.items@, t, 0);
    if t < nt && q < state.items@.len() {
        let rule = state.items@[q].rule_index;
        assert(assoc2[t as int] is Some ==> assoc2[t as int]->Some_0.directive
            != AssocDirective::NonAssoc);
        law_no_error_without_nonassoc(rules2[rule as int].reduce_priority, assoc2[t as int]);
    }
}

/// Rules with the same right-hand sides call for the same reductions.
pub proof fn lemma_same_reduce(
    rules: Seq<LalrRule>,
    rules2: Seq<LalrRule>,
    items: Seq<Item>,
    t: ComponentId,
    from: int,
)
    requires
        0 <= from <= items.len(),
        rules2.len() == rules.len(),
        forall|i: int|
            0 <= i < rules.len() ==> (#[trigger] rules2[i]).components@ == rules[i].components@,
        forall|p: int| 0 <= p < items.len() ==> (#[trigger] items[p]).rule_index < rules.len(),
    ensures
        first_reduce(rules2, items, t, from) == first_reduce(rules, items, t, from),
    decreases items.len() - from,
{
    if from < items.len() {
        assert(rules2[items[from].rule_index as int].components@
            == rules[items[from].rule_index as int].components@);
        if !reduces_on(rules, items[from], t) {
            lemma_same_reduce(rules, rules2, items, t, from + 1);
        }
    }
}

} // verus!
