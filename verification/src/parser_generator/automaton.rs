//! What pins the item sets of a grammar down: the cores of each state are
//! those of the closure of what the edge into it moves on, and the
//! lookaheads are the least that closure and edges ask for.

use vstd::prelude::*;
use super::bison::ComponentId;
use super::cores::{core_of, cores_of, Core};
use super::first_set::same_productions;
use super::item_sets::{advanced, cores_distinct, holds_item, items_grow, merged, within};
use super::lalr::{core_eq, same_cores, Item, Lalr, State};
use super::terminal_set::subset;

verus! {

/// Lists with the same cores at the same positions have the same cores.
pub proof fn lemma_same_cores_of(a: Seq<Item>, b: Seq<Item>)
    requires
        same_cores(a, b),
    ensures
        cores_of(a) == cores_of(b),
{
    assert(cores_of(a) =~= cores_of(b)) by {
        assert forall|k: int| 0 <= k < a.len() implies cores_of(a)[k] == cores_of(b)[k] by {
            assert(core_eq(a[k], b[k]));
        }
    }
}

/// Lists with the same cores hold the same cores at the same positions.
pub proof fn lemma_cores_of_same(a: Seq<Item>, b: Seq<Item>)
    requires
        cores_of(a) == cores_of(b),
    ensures
        same_cores(a, b),
{
    assert(a.len() == cores_of(a).len());
    assert(b.len() == cores_of(b).len());
    assert forall|k: int| 0 <= k < a.len() implies core_eq(#[trigger] a[k], b[k]) by {
        assert(cores_of(a)[k] == core_of(a[k]));
        assert(cores_of(b)[k] == core_of(b[k]));
    }
}

impl Lalr {
    /// Whether each edge is over a symbol that some item of its state has
    /// the dot before, and leads to a state whose cores are those of the
    /// closure of the items that the edge moves on.
    pub open spec fn edges_ok(&self, states: Seq<State>) -> bool {
        forall|s: int, x: ComponentId|
            0 <= s < states.len() && #[trigger] states[s].edge@.contains_key(x) ==> {
                &&& states[s].edge@[x] < states.len()
                &&& self.group_cores(
                    cores_of(states[s].items@),
                    x as int,
                    states[s].items@.len() as int,
                ).len() > 0
                &&& self.closure_cores(
                    self.group_cores(
                        cores_of(states[s].items@),
                        x as int,
                        states[s].items@.len() as int,
                    ),
                    cores_of(states[states[s].edge@[x] as int].items@),
                )
            }
    }

    /// Whether, if item `p` of list `s` of a family has the dot before a
    /// symbol over which state `s` has an edge, the list at the end of the
    /// edge holds the item with the dot moved over it.
    pub open spec fn other_followed(
        &self,
        states: Seq<State>,
        others: Seq<Seq<Item>>,
        s: int,
        p: int,
    ) -> bool {
        match self.next_symbol(others[s][p]) {
            None => true,
            Some(x) => states[s].edge@.contains_key(x) ==> states[s].edge@[x] < others.len()
                && holds_item(others[states[s].edge@[x] as int], advanced(others[s][p])),
        }
    }

    /// Whether a family of item lists, one for each state, meets what is
    /// asked of the states: the first list holds the item that starts the
    /// rule of the start symbol with the end marker in its lookahead; each
    /// list is closed; and each item is followed over each edge of its
    /// state.
    pub open spec fn family_ok(&self, states: Seq<State>, others: Seq<Seq<Item>>) -> bool {
        &&& others.len() == states.len()
        &&& others.len() >= 1
        &&& Self::has_initial(
            others[0],
            0,
            self.end_rule_component_id as int,
        )
        &&& forall|s: int|
            0 <= s < others.len() ==> self.items_valid(#[trigger] others[s]) && cores_distinct(
                others[s],
            ) && self.items_closed(others[s])
        &&& forall|s: int, p: int|
            0 <= s < others.len() && 0 <= p < others[s].len() ==> #[trigger] self.other_followed(
                states,
                others,
                s,
                p,
            )
    }

    /// Whether each list of a family holds the items of its state.
    pub open spec fn family_within(states: Seq<State>, others: Seq<Seq<Item>>) -> bool {
        forall|s: int| 0 <= s < states.len() ==> within((#[trigger] states[s]).items@, others[s])
    }

    /// Whether the states hold no item and no lookahead that is not asked
    /// for: every family that meets what is asked of the states holds
    /// theirs.
    pub open spec fn automaton_least(&self, states: Seq<State>) -> bool {
        forall|others: Seq<Seq<Item>>| #[trigger]
            self.family_ok(states, others) ==> Self::family_within(states, others)
    }
}

/// Whether state `t` is the end of an edge from a state before it.
pub open spec fn reached(states: Seq<State>, t: int) -> bool {
    exists|s: int, x: ComponentId|
        0 <= s < t && s < states.len() && #[trigger] states[s].edge@.contains_key(x)
            && states[s].edge@[x] == t
}

/// States that grow keep their cores.
pub proof fn lemma_grow_cores(a: Seq<Item>, b: Seq<Item>)
    requires
        items_grow(a, b),
        a.len() == b.len(),
    ensures
        cores_of(a) == cores_of(b),
        same_cores(a, b),
{
    assert forall|k: int| 0 <= k < a.len() implies core_eq(#[trigger] a[k], b[k]) by {}
    lemma_same_cores_of(a, b);
}

/// Whether `s1` is `s0` after state `i` got an edge over `x` to state `j`,
/// and state `j` the items of `closed`: added to its own if it was there,
/// as a new state if not.
pub open spec fn step_of(
    s0: Seq<State>,
    s1: Seq<State>,
    i: int,
    x: ComponentId,
    j: usize,
    closed: Seq<Item>,
) -> bool {
    let n = s0.len() as int;
    &&& 0 <= i < n
    &&& 0 <= j <= n
    &&& s1.len() == if j < n {
        n
    } else {
        n + 1
    }
    &&& forall|s: int| 0 <= s < n && s != j ==> (#[trigger] s1[s]).items@ == s0[s].items@
    &&& forall|s: int| 0 <= s < n && s != i ==> (#[trigger] s1[s]).edge@ == s0[s].edge@
    &&& s1[i].edge@ == s0[i].edge@.insert(x, j)
    &&& j < n ==> merged(s0[j as int].items@, closed, s1[j as int].items@) && same_cores(
        closed,
        s0[j as int].items@,
    )
    &&& j == n ==> s1[j as int].items@ == closed && s1[j as int].edge@ == Map::<
        ComponentId,
        usize,
    >::empty()
}

impl Lalr {
    /// Whether the states are pinned down: by their edges, and as the least
    /// that is asked for.
    pub open spec fn automaton_exact(&self, states: Seq<State>) -> bool {
        self.edges_ok(states) && self.states_reached(states) && self.automaton_least(states)
    }

    /// Whether the first state holds the cores of the closure of the item
    /// that starts the first rule, the rule of the start symbol, and every
    /// other state is the end of an edge from a state before it: so every
    /// state is reached from the first.
    pub open spec fn states_reached(&self, states: Seq<State>) -> bool {
        &&& states.len() >= 1
        &&& self.closure_cores(seq![(0int, 0int)], cores_of(states[0].items@))
        &&& forall|t: int| 1 <= t < states.len() ==> #[trigger] reached(states, t)
    }

    /// The states themselves meet what is asked of them, once all are
    /// settled: so they are the least that does.
    pub proof fn law_states_are_a_family(&self, states: Seq<State>)
        requires
            states.len() >= 1,
            self.automaton_inv(states, Set::<usize>::empty(), Seq::<usize>::empty(), -1),
            Self::has_initial(
                states[0].items@,
                0,
                self.end_rule_component_id as int,
            ),
            states.len() <= usize::MAX,
        ensures
            self.family_ok(states, states.map_values(|st: State| st.items@)),
    {
        let others = states.map_values(|st: State| st.items@);
        assert forall|s: int| 0 <= s < others.len() implies self.items_valid(
            #[trigger] others[s],
        ) && cores_distinct(others[s]) && self.items_closed(others[s]) by {
            assert(self.state_wf(states[s]));
        }
        assert forall|s: int, p: int|
            0 <= s < others.len() && 0 <= p < others[s].len() implies #[trigger] self.other_followed(
            states,
            others,
            s,
            p,
        ) by {
            assert(self.state_settled(states, (s as usize) as int));
            assert(self.item_followed(states, s, p));
        }
    }

    /// Whether two values hold the same rules, but for their precedence,
    /// and the same tables of the rests of right-hand sides.
    pub open spec fn same_rules(&self, other: &Lalr) -> bool {
        &&& same_productions(self.rules@, other.rules@)
        &&& self.rule_indices_by_name_id == other.rule_indices_by_name_id
        &&& self.first_set_after == other.first_set_after
        &&& self.nullable == other.nullable
        &&& self.all_terminal == other.all_terminal
        &&& self.end_rule_component_id == other.end_rule_component_id
    }

    /// What a kernel exposes depends on the rules alone.
    pub proof fn lemma_frame_exposed(&self, other: &Lalr, kernel: Seq<Core>, b: int)
        requires
            self.same_rules(other),
            self.exposed(kernel, b),
        ensures
            other.exposed(kernel, b),
    {
        let chain = choose|chain: Seq<int>| #[trigger]
            self.exposed_by(kernel, chain) && chain.last() == b;
        let p = choose|p: int|
            0 <= p < kernel.len() && self.core_next(#[trigger] kernel[p]) == Some(chain[0]);
        assert(other.core_next(kernel[p]) == Some(chain[0]));
        assert forall|i: int| 0 <= i < chain.len() - 1 implies other.begins(
            #[trigger] chain[i],
            chain[i + 1],
        ) by {
            assert(self.begins(chain[i], chain[i + 1]));
            let r = choose|r: int| #[trigger]
                self.rule_of(chain[i], r) && self.core_next((r, 0)) == Some(chain[i + 1]);
            assert(other.rule_of(chain[i], r));
            assert(other.core_next((r, 0)) == Some(chain[i + 1]));
        }
        assert(other.exposed_by(kernel, chain));
    }

    /// What a closure adds depends on the rules alone.
    pub proof fn lemma_frame_added(&self, other: &Lalr, kernel: Seq<Core>, c: Core)
        requires
            self.same_rules(other),
            self.added_core(kernel, c),
        ensures
            other.added_core(kernel, c),
    {
        let b = choose|b: int| #[trigger] self.exposed(kernel, b) && self.rule_of(b, c.0);
        self.lemma_frame_exposed(other, kernel, b);
        assert(other.rule_of(b, c.0));
    }

    /// The cores with the dot moved over a symbol depend on the rules
    /// alone.
    pub proof fn lemma_frame_group(&self, other: &Lalr, cores: Seq<Core>, x: int, n: int)
        requires
            self.same_rules(other),
        ensures
            self.group_cores(cores, x, n) == other.group_cores(cores, x, n),
        decreases n,
    {
        if n > 0 {
            self.lemma_frame_group(other, cores, x, n - 1);
            assert(self.core_next(cores[n - 1]) == other.core_next(cores[n - 1]));
        }
    }

    /// The cores of a closure depend on the rules alone.
    pub proof fn lemma_frame_closure_cores(&self, other: &Lalr, kernel: Seq<Core>, cores: Seq<Core>)
        requires
            self.same_rules(other),
            self.closure_cores(kernel, cores),
        ensures
            other.closure_cores(kernel, cores),
    {
        assert forall|q: int| 0 <= q < cores.len() implies kernel.contains(#[trigger] cores[q])
            || other.added_core(kernel, cores[q]) by {
            if !kernel.contains(cores[q]) {
                self.lemma_frame_added(other, kernel, cores[q]);
            }
        }
        assert forall|c: Core| #[trigger] other.added_core(kernel, c) implies cores.contains(c) by {
            other.lemma_frame_added(self, kernel, c);
        }
    }

    /// What is asked of a family of item lists depends on the rules and
    /// the FIRST sets alone.
    pub proof fn lemma_frame_family(&self, other: &Lalr, states: Seq<State>, others: Seq<Seq<Item>>)
        requires
            self.same_rules(other),
            self.family_ok(states, others),
        ensures
            other.family_ok(states, others),
    {
        assert forall|s: int| 0 <= s < others.len() implies other.items_valid(
            #[trigger] others[s],
        ) && cores_distinct(others[s]) && other.items_closed(others[s]) by {
            let items = others[s];
            assert(self.items_valid(items) && self.items_closed(items));
            assert forall|p: int| 0 <= p < items.len() implies other.item_valid(
                #[trigger] items[p],
            ) by {
                assert(self.item_valid(items[p]));
            }
            assert forall|p: int| 0 <= p < items.len() implies #[trigger] other.item_served(
                items,
                p,
            ) by {
                assert(self.item_served(items, p));
                assert(self.handed_down(items[p]) == other.handed_down(items[p]));
            }
        }
        assert forall|s: int, p: int|
            0 <= s < others.len() && 0 <= p < others[s].len() implies #[trigger] other.other_followed(
            states,
            others,
            s,
            p,
        ) by {
            assert(self.other_followed(states, others, s, p));
            assert(self.next_symbol(others[s][p]) == other.next_symbol(others[s][p]));
        }
    }

    /// What pins the states down for one value does so for another with
    /// the same rules.
    pub proof fn lemma_frame_exact(&self, other: &Lalr, states: Seq<State>)
        requires
            self.same_rules(other),
            self.automaton_exact(states),
        ensures
            other.automaton_exact(states),
    {
        assert forall|s: int, x: ComponentId|
            0 <= s < states.len() && #[trigger] states[s].edge@.contains_key(x) implies {
            &&& states[s].edge@[x] < states.len()
            &&& other.group_cores(
                cores_of(states[s].items@),
                x as int,
                states[s].items@.len() as int,
            ).len() > 0
            &&& other.closure_cores(
                other.group_cores(
                    cores_of(states[s].items@),
                    x as int,
                    states[s].items@.len() as int,
                ),
                cores_of(states[states[s].edge@[x] as int].items@),
            )
        } by {
            let group = self.group_cores(
                cores_of(states[s].items@),
                x as int,
                states[s].items@.len() as int,
            );
            self.lemma_frame_group(
                other,
                cores_of(states[s].items@),
                x as int,
                states[s].items@.len() as int,
            );
            self.lemma_frame_closure_cores(
                other,
                group,
                cores_of(states[states[s].edge@[x] as int].items@),
            );
        }
        assert forall|others: Seq<Seq<Item>>| #[trigger]
            other.family_ok(states, others) implies Self::family_within(states, others) by {
            other.lemma_frame_family(self, states, others);
        }
        self.lemma_frame_closure_cores(
            other,
            seq![(0int, 0int)],
            cores_of(states[0].items@),
        );
    }

    /// Whether `g` has the core of an item of `items` with the dot before
    /// `x`, moved over it, and no lookahead that the item has not.
    pub open spec fn moved_from(&self, items: Seq<Item>, x: ComponentId, g: Item) -> bool {
        exists|p: int|
            0 <= p < items.len() && self.next_symbol(#[trigger] items[p]) == Some(x) && core_eq(
                g,
                advanced(items[p]),
            ) && subset(g.lookahead@, items[p].lookahead@)
    }

    /// A step of the construction adds nothing that is not asked for.
    pub proof fn lemma_least_follow(
        &self,
        s0: Seq<State>,
        s1: Seq<State>,
        i: int,
        x: ComponentId,
        j: usize,
        kernel: Seq<Item>,
        closed: Seq<Item>,
        others: Seq<Seq<Item>>,
    )
        requires
            step_of(s0, s1, i, x, j, closed),
            self.states_wf(s0),
            s0[i].edge@.contains_key(x) ==> s0[i].edge@[x] == j,
            self.automaton_least(s0),
            self.closure_least(kernel, closed),
            forall|q: int| 0 <= q < kernel.len() ==> self.moved_from(s0[i].items@, x, #[trigger] kernel[q]),
            self.family_ok(s1, others),
        ensures
            Self::family_within(s1, others),
    {
        let n = s0.len() as int;
        let others0 = if j < n {
            others
        } else {
            others.subrange(0, n)
        };
        assert(self.family_ok(s0, others0)) by {
            assert forall|s: int| 0 <= s < others0.len() implies self.items_valid(
                #[trigger] others0[s],
            ) && cores_distinct(others0[s]) && self.items_closed(others0[s]) by {
                assert(others0[s] == others[s]);
            }
            assert forall|s: int, p: int|
                0 <= s < others0.len() && 0 <= p < others0[s].len() implies #[trigger] self.other_followed(
                s0,
                others0,
                s,
                p,
            ) by {
                assert(others0[s] == others[s]);
                assert(self.other_followed(s1, others, s, p));
                match self.next_symbol(others0[s][p]) {
                    None => {},
                    Some(y) => {
                        if s0[s].edge@.contains_key(y) {
                            let t = s0[s].edge@[y];
                            assert(t < n);
                            if s != i {
                                assert(s1[s].edge@ == s0[s].edge@);
                            }
                            assert(s1[s].edge@.contains_key(y) && s1[s].edge@[y] == t);
                            assert(others0[t as int] == others[t as int]);
                        }
                    },
                }
            }
        }
        assert(Self::family_within(s0, others0));
        let target = others[j as int];
        assert(self.closes(kernel, target)) by {
            assert forall|q: int| 0 <= q < kernel.len() implies holds_item(
                target,
                #[trigger] kernel[q],
            ) by {
                assert(self.moved_from(s0[i].items@, x, kernel[q]));
                let p = choose|p: int|
                    0 <= p < s0[i].items@.len() && self.next_symbol(#[trigger] s0[i].items@[p])
                        == Some(x) && core_eq(kernel[q], advanced(s0[i].items@[p])) && subset(
                        kernel[q].lookahead@,
                        s0[i].items@[p].lookahead@,
                    );
                assert(within(s0[i].items@, others0[i]));
                assert(others0[i] == others[i]);
                assert(holds_item(others[i], s0[i].items@[p]));
                let q1 = choose|q1: int|
                    0 <= q1 < others[i].len() && core_eq(
                        #[trigger] others[i][q1],
                        s0[i].items@[p],
                    ) && subset(s0[i].items@[p].lookahead@, others[i][q1].lookahead@);
                assert(self.other_followed(s1, others, i, q1));
                assert(self.next_symbol(others[i][q1]) == Some(x));
                assert(s1[i].edge@.contains_key(x) && s1[i].edge@[x] == j);
                assert(holds_item(target, advanced(others[i][q1])));
                let q2 = choose|q2: int|
                    0 <= q2 < target.len() && core_eq(
                        #[trigger] target[q2],
                        advanced(others[i][q1]),
                    ) && subset(advanced(others[i][q1]).lookahead@, target[q2].lookahead@);
                assert(core_eq(target[q2], kernel[q]));
                assert(subset(kernel[q].lookahead@, target[q2].lookahead@));
            }
        }
        assert(within(closed, target));
        assert forall|s: int| 0 <= s < s1.len() implies within(
            (#[trigger] s1[s]).items@,
            others[s],
        ) by {
            if s != j {
                assert(s1[s].items@ == s0[s].items@);
                assert(within(s0[s].items@, others0[s]));
                assert(others0[s] == others[s]);
            } else if j < n {
                let a = s0[j as int].items@;
                let c = s1[j as int].items@;
                assert(within(a, others0[j as int]));
                assert forall|p: int| 0 <= p < c.len() implies holds_item(
                    target,
                    #[trigger] c[p],
                ) by {
                    assert(holds_item(target, a[p]));
                    assert(holds_item(target, closed[p]));
                    let r1 = choose|r: int|
                        0 <= r < target.len() && core_eq(#[trigger] target[r], a[p]) && subset(
                            a[p].lookahead@,
                            target[r].lookahead@,
                        );
                    let r2 = choose|r: int|
                        0 <= r < target.len() && core_eq(#[trigger] target[r], closed[p]) && subset(
                            closed[p].lookahead@,
                            target[r].lookahead@,
                        );
                    assert(core_eq(closed[p], a[p]));
                    if r1 < r2 {
                        assert(!core_eq(target[r1], target[r2]));
                    } else if r2 < r1 {
                        assert(!core_eq(target[r2], target[r1]));
                    }
                    assert(core_eq(c[p], a[p]));
                    assert(subset(c[p].lookahead@, target[r1].lookahead@));
                }
            }
        }
    }
}

} // verus!
