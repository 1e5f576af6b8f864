//! The successors of an item set.

use std::collections::{HashMap, VecDeque};
use vstd::prelude::*;
use super::automaton::{
    lemma_cores_of_same, lemma_grow_cores, lemma_same_cores_of, reached, step_of,
};
use super::bison::ComponentId;
use super::cores::cores_of;
use super::item_sets::{
    advanced, cores_distinct, find_core, has_start, holds_item, items_grow, lemma_find_core,
    lemma_holds_grow, lemma_holds_kept, lemma_holds_merged, lemma_items_grow_trans,
    lemma_queued_prefix, lemma_states_free_grow, lemma_states_grow_trans, lookaheads_view, merged,
    queued, state_touched, states_free, states_grow,
};
use super::lalr::{core_eq, same_cores, Item, Lalr, State, StateSet};
use super::terminal_set::{empty, subset};

verus! {

impl Lalr {
    /// Whether a state holds valid items, is closed, and holds no core
    /// twice.
    pub open spec fn state_wf(&self, st: State) -> bool {
        &&& self.items_valid(st.items@)
        &&& self.items_closed(st.items@)
        &&& cores_distinct(st.items@)
    }

    /// The symbol after the dot of an item, if the dot is not at the end.
    pub open spec fn next_symbol(&self, item: Item) -> Option<ComponentId> {
        let comps = self.rules@[item.rule_index as int].components@;
        if item.dot_pos < comps.len() {
            Some(comps[item.dot_pos as int])
        } else {
            None
        }
    }

    /// Whether, if item `p` of state `s` has the dot before a symbol, the
    /// state has an edge over that symbol, to a state that holds the item
    /// with the dot moved over it, with at least its lookahead.
    pub open spec fn item_followed(&self, states: Seq<State>, s: int, p: int) -> bool {
        self.follows(states, s, states[s].items@[p])
    }

    /// Whether, if `item` has the dot before a symbol, state `s` has an
    /// edge over that symbol, to a state that holds the item with the dot
    /// moved over it, with at least its lookahead.
    pub open spec fn follows(&self, states: Seq<State>, s: int, item: Item) -> bool {
        match self.next_symbol(item) {
            None => true,
            Some(x) => {
                &&& states[s].edge@.contains_key(x)
                &&& states[s].edge@[x] < states.len()
                &&& holds_item(states[states[s].edge@[x] as int].items@, advanced(item))
            },
        }
    }

    /// Whether every item of state `s` is followed.
    pub open spec fn state_settled(&self, states: Seq<State>, s: int) -> bool {
        forall|p: int| 0 <= p < states[s].items@.len() ==> #[trigger] self.item_followed(states, s, p)
    }

    /// Whether every state is well formed, no two states hold the same
    /// cores, and edges lead to states.
    pub open spec fn states_wf(&self, states: Seq<State>) -> bool {
        &&& forall|s: int| 0 <= s < states.len() ==> self.state_wf(#[trigger] states[s])
        &&& forall|s: int, t: int|
            0 <= s < t < states.len() ==> !same_cores(
                (#[trigger] states[s]).items@,
                (#[trigger] states[t]).items@,
            )
        &&& forall|s: int, x: ComponentId|
            0 <= s < states.len() && #[trigger] states[s].edge@.contains_key(x) ==> states[s].edge@[x]
                < states.len()
    }

    /// What holds of the item sets while they are built: they are well
    /// formed; each state but those marked and the one at work is settled;
    /// and what is marked waits in the queue.
    pub open spec fn automaton_inv(
        &self,
        states: Seq<State>,
        need: Set<usize>,
        que: Seq<usize>,
        busy: int,
    ) -> bool {
        &&& self.states_wf(states)
        &&& forall|s: usize|
            s < states.len() && s != busy && !need.contains(s) ==> #[trigger] self.state_settled(
                states,
                s as int,
            )
        &&& forall|s: usize| #[trigger] need.contains(s) ==> s < states.len() && queued(que, s as int)
        &&& forall|d: int| 0 <= d < que.len() ==> #[trigger] que[d] < states.len()
    }

    /// Two closed lists with the same cores merge into a closed list.
    pub proof fn lemma_closed_merge(&self, a: Seq<Item>, b: Seq<Item>, c: Seq<Item>)
        requires
            self.items_valid(a),
            self.items_valid(b),
            cores_distinct(a),
            same_cores(b, a),
            self.items_closed(a),
            self.items_closed(b),
            merged(a, b, c),
        ensures
            self.items_valid(c),
            self.items_closed(c),
            cores_distinct(c),
            items_grow(a, c),
    {
        assert forall|p: int| 0 <= p < c.len() implies self.item_valid(#[trigger] c[p]) by {
            assert(self.item_valid(a[p]));
            assert(self.item_valid(b[p]));
            assert(core_eq(c[p], a[p]));
        }
        assert forall|p: int, q: int| 0 <= p < q < c.len() implies !core_eq(
            #[trigger] c[p],
            #[trigger] c[q],
        ) by {
            assert(core_eq(c[p], a[p]));
            assert(core_eq(c[q], a[q]));
        }
        assert forall|q: int| 0 <= q < a.len() implies core_eq(#[trigger] a[q], c[q]) && subset(
            a[q].lookahead@,
            c[q].lookahead@,
        ) by {
            assert(core_eq(c[q], a[q]));
            assert(self.item_valid(a[q]));
            assert(self.item_valid(b[q]));
        }
        assert forall|p: int| 0 <= p < c.len() implies #[trigger] self.item_served(c, p) by {
            let item = c[p];
            assert(core_eq(c[p], a[p]));
            assert(core_eq(b[p], a[p]));
            assert(self.item_valid(a[p]));
            assert(self.item_valid(b[p]));
            let comps = self.rules@[item.rule_index as int].components@;
            if item.dot_pos < comps.len() {
                let list = self.rule_indices_by_name_id@[comps[item.dot_pos as int] as int]@;
                assert(self.item_served(a, p));
                assert(self.item_served(b, p));
                assert forall|k: int| 0 <= k < list.len() implies has_start(
                    c,
                    (#[trigger] list[k]) as int,
                    self.handed_down(item),
                ) by {
                    assert(has_start(a, list[k] as int, self.handed_down(a[p])));
                    assert(has_start(b, list[k] as int, self.handed_down(b[p])));
                    let qa = choose|q: int|
                        0 <= q < a.len() && (#[trigger] a[q]).rule_index == list[k] && a[q].dot_pos
                            == 0 && subset(self.handed_down(a[p]), a[q].lookahead@);
                    let qb = choose|q: int|
                        0 <= q < b.len() && (#[trigger] b[q]).rule_index == list[k] && b[q].dot_pos
                            == 0 && subset(self.handed_down(b[p]), b[q].lookahead@);
                    assert(core_eq(b[qb], a[qb]));
                    if qa < qb {
                        assert(!core_eq(a[qa], a[qb]));
                    } else if qb < qa {
                        assert(!core_eq(a[qb], a[qa]));
                    }
                    assert(qa == qb);
                    assert(core_eq(c[qa], a[qa]));
                    assert(self.item_valid(a[qa]));
                    assert(self.item_valid(b[qa]));
                    assert(subset(self.handed_down(item), c[qa].lookahead@));
                }
            }
        }
    }

    /// An item that is followed stays so while states grow, as long as its
    /// own lookahead and the edges of its state do not change.
    pub proof fn lemma_followed_grow(&self, before: Seq<State>, after: Seq<State>, s: int, p: int)
        requires
            states_grow(before, after),
            0 <= s < before.len(),
            0 <= p < before[s].items@.len(),
            before[s].items@[p].lookahead@ == after[s].items@[p].lookahead@,
            before[s].edge@ == after[s].edge@,
            self.item_followed(before, s, p),
        ensures
            self.item_followed(after, s, p),
    {
        let item = before[s].items@[p];
        assert(items_grow(before[s].items@, after[s].items@));
        assert(core_eq(item, after[s].items@[p]));
        match self.next_symbol(item) {
            None => {},
            Some(x) => {
                let j = before[s].edge@[x] as int;
                assert(after[s].edge@[x] == j);
                assert(items_grow(before[j].items@, after[j].items@));
                lemma_holds_grow(before[j].items@, after[j].items@, advanced(item));
                let q = choose|q: int|
                    0 <= q < after[j].items@.len() && core_eq(
                        #[trigger] after[j].items@[q],
                        advanced(item),
                    ) && subset(advanced(item).lookahead@, after[j].items@[q].lookahead@);
                assert(core_eq(after[j].items@[q], advanced(after[s].items@[p])));
            },
        }
    }

    /// Whether `g` is an item of `items` that has the dot before `x`, with
    /// the dot moved over it.
    pub open spec fn from_source(&self, items: Seq<Item>, x: ComponentId, g: Item) -> bool {
        exists|p: int|
            0 <= p < items.len() && self.next_symbol(#[trigger] items[p]) == Some(x) && core_eq(
                g,
                advanced(items[p]),
            ) && g.lookahead@ == items[p].lookahead@
    }

    /// The items of `items` that have the dot before `x`, each with the dot
    /// moved over it, in the order of `items`.
    fn advance_group(&self, items: &Vec<Item>, x: ComponentId) -> (group: Vec<Item>)
        requires
            self.items_valid(items@),
            cores_distinct(items@),
        ensures
            self.items_valid(group@),
            cores_distinct(group@),
            forall|q: int| 0 <= q < group@.len() ==> (#[trigger] group@[q]).dot_pos > 0,
            forall|p: int|
                0 <= p < items@.len() && self.next_symbol(#[trigger] items@[p]) == Some(x)
                    ==> holds_item(group@, advanced(items@[p])),
            forall|q: int| 0 <= q < group@.len() ==> self.from_source(items@, x, #[trigger] group@[q]),
            cores_of(group@) == self.group_cores(cores_of(items@), x as int, items@.len() as int),
    {
        let mut group: Vec<Item> = Vec::new();
        let ghost mut src: Seq<int> = Seq::empty();
        let mut p: usize = 0;
        assert(cores_of(group@) =~= self.group_cores(cores_of(items@), x as int, 0));
        while p < items.len()
            invariant
                p <= items@.len(),
                self.items_valid(items@),
                cores_distinct(items@),
                self.items_valid(group@),
                src.len() == group@.len(),
                cores_of(group@) == self.group_cores(cores_of(items@), x as int, p as int),
                forall|q: int|
                    0 <= q < group@.len() ==> self.from_source(items@, x, #[trigger] group@[q]),
                forall|q: int|
                    0 <= q < group@.len() ==> 0 <= (#[trigger] src[q]) < p && core_eq(
                        group@[q],
                        advanced(items@[src[q]]),
                    ) && group@[q].lookahead@ == items@[src[q]].lookahead@ && group@[q].dot_pos
                        == items@[src[q]].dot_pos + 1,
                forall|q: int, r: int| 0 <= q < r < group@.len() ==> #[trigger] src[q] < #[trigger] src[r],
                forall|m: int|
                    0 <= m < p && self.next_symbol(#[trigger] items@[m]) == Some(x) ==> holds_item(
                        group@,
                        advanced(items@[m]),
                    ),
            decreases items@.len() - p,
        {
            assert(self.item_valid(items@[p as int]));
            let rule_index = items[p].rule_index;
            let dot_pos = items[p].dot_pos;
            if dot_pos < self.rules[rule_index].components.len() {
                if self.rules[rule_index].components[dot_pos] == x {
                    let ghost before = group@;
                    let item = Item {
                        rule_index,
                        dot_pos: dot_pos + 1,
                        lookahead: items[p].lookahead.clone(),
                    };
                    group.push(item);
                    proof {
                        src = src.push(p as int);
                        let last = before.len() as int;
                        assert(self.next_symbol(items@[p as int]) == Some(x));
                        assert(self.from_source(items@, x, group@[last]));
                        assert forall|q: int| 0 <= q < group@.len() implies self.from_source(
                            items@,
                            x,
                            #[trigger] group@[q],
                        ) by {
                            if q < last {
                                assert(group@[q] == before[q]);
                            }
                        }
                        assert(cores_of(group@) =~= cores_of(before).push(
                            (rule_index as int, dot_pos + 1),
                        ));
                        assert(core_eq(group@[last], advanced(items@[p as int])));
                        assert(subset(
                            advanced(items@[p as int]).lookahead@,
                            group@[last].lookahead@,
                        ));
                        assert forall|m: int|
                            0 <= m < p && self.next_symbol(#[trigger] items@[m]) == Some(
                                x,
                            ) implies holds_item(group@, advanced(items@[m])) by {
                            assert(items_grow(before, group@));
                            lemma_holds_grow(before, group@, advanced(items@[m]));
                        }
                        assert forall|q: int| 0 <= q < group@.len() implies self.item_valid(
                            #[trigger] group@[q],
                        ) by {
                            if q < last {
                                assert(self.item_valid(before[q]));
                            }
                        }
                    }
                }
            }
            p += 1;
        }
        proof {
            assert forall|q: int, r: int| 0 <= q < r < group@.len() implies !core_eq(
                #[trigger] group@[q],
                #[trigger] group@[r],
            ) by {
                assert(src[q] < src[r]);
                assert(!core_eq(items@[src[q]], items@[src[r]]));
            }
            assert forall|q: int| 0 <= q < group@.len() implies (#[trigger] group@[q]).dot_pos
                > 0 by {
                assert(0 <= src[q]);
            }
        }
        group
    }

    /// Follows symbol `x` from state `i`: where items of `snapshot` have the
    /// dot before `x`, the closure of those items, each with the dot moved
    /// over `x`, becomes or joins the state at the end of the edge over `x`.
    fn follow_symbol(
        &self,
        state_set: &mut StateSet,
        que: &mut VecDeque<usize>,
        i: usize,
        snapshot: &Vec<Item>,
        x: ComponentId,
    )
        requires
            self.grammar_wf(),
            self.first_sets_wf(),
            self.automaton_inv(
                old(state_set).states@,
                old(state_set).need_update@,
                old(que)@,
                i as int,
            ),
            i < old(state_set).states@.len(),
            self.items_valid(snapshot@),
            cores_distinct(snapshot@),
            self.automaton_exact(old(state_set).states@),
            items_grow(snapshot@, old(state_set).states@[i as int].items@),
            snapshot@.len() == old(state_set).states@[i as int].items@.len(),
        ensures
            self.automaton_inv(
                final(state_set).states@,
                final(state_set).need_update@,
                final(que)@,
                i as int,
            ),
            self.automaton_exact(final(state_set).states@),
            states_grow(old(state_set).states@, final(state_set).states@),
            old(que)@.is_prefix_of(final(que)@),
            old(state_set).need_update@.subset_of(final(state_set).need_update@),
            forall|s: usize|
                s < final(state_set).states@.len() && #[trigger] state_touched(
                    old(state_set).states@,
                    final(state_set).states@,
                    s as int,
                ) ==> final(state_set).need_update@.contains(s),
            forall|s: int|
                0 <= s < old(state_set).states@.len() && s != i ==> (#[trigger] final(state_set).states@[s]).edge@ == old(state_set).states@[s].edge@,
            forall|y: ComponentId| #[trigger]
                old(state_set).states@[i as int].edge@.contains_key(y) ==> final(state_set).states@[i as int].edge@.contains_key(y) && final(state_set).states@[i as int].edge@[y]
                    == old(state_set).states@[i as int].edge@[y],
            forall|p: int|
                0 <= p < snapshot@.len() && self.next_symbol(#[trigger] snapshot@[p]) == Some(x)
                    ==> {
                    let edge = final(state_set).states@[i as int].edge@;
                    &&& edge.contains_key(x)
                    &&& edge[x] < final(state_set).states@.len()
                    &&& holds_item(
                        final(state_set).states@[edge[x] as int].items@,
                        advanced(snapshot@[p]),
                    )
                },
            final(state_set).states@.len() == old(state_set).states@.len() ==> states_free(
                final(state_set).states@,
            ) <= states_free(old(state_set).states@),
            final(state_set).states@.len() == old(state_set).states@.len() && states_free(
                final(state_set).states@,
            ) == states_free(old(state_set).states@) ==> final(que)@ == old(que)@,
    {
        let ghost s0 = state_set.states@;
        let ghost need0 = state_set.need_update@;
        let ghost que0 = que@;
        let state_count = state_set.states.len();
        let group = self.advance_group(snapshot, x);
        if group.len() > 0 {
            let mut state = State {
                items: group,
                edge: HashMap::new(),
                item_indices: HashMap::new(),
            };
            let ghost kernel = state.items@;
            self.closure(&mut state);
            let ghost closed = state.items@;
            proof {
                assert forall|t: int, k: int|
                    0 <= t < s0.len() && 0 <= k < closed.len() && k < s0[t].items@.len() implies (
                #[trigger] s0[t].items@[k]).lookahead@.len() == closed[k].lookahead@.len() by {
                    assert(self.state_wf(s0[t]));
                    assert(self.item_valid(s0[t].items@[k]));
                    assert(self.item_valid(closed[k]));
                }
            }
            state_set.add_state_lalr(que, i, x, state);
            proof {
                let s1 = state_set.states@;
                let need1 = state_set.need_update@;
                let que1 = que@;
                let n = s0.len() as int;
                let j = find_core(s0, closed, 0);
                lemma_find_core(s0, closed, 0);
                let changed = j == n || lookaheads_view(s1[j].items@) != lookaheads_view(
                    s0[j].items@,
                );
                let ju = j as usize;
                let group0 = self.group_cores(
                    cores_of(s0[i as int].items@),
                    x as int,
                    s0[i as int].items@.len() as int,
                );
                lemma_grow_cores(snapshot@, s0[i as int].items@);
                assert(cores_of(kernel) == group0);
                if s0[i as int].edge@.contains_key(x) {
                    let j_old = s0[i as int].edge@[x] as int;
                    self.lemma_closure_cores_same(group0, cores_of(closed), cores_of(s0[j_old].items@));
                    lemma_cores_of_same(closed, s0[j_old].items@);
                    if j < j_old {
                        assert(same_cores(s0[j].items@, s0[j_old].items@)) by {
                            assert forall|k: int| 0 <= k < s0[j].items@.len() implies core_eq(
                                #[trigger] s0[j].items@[k],
                                s0[j_old].items@[k],
                            ) by {
                                assert(core_eq(closed[k], s0[j].items@[k]));
                                assert(core_eq(closed[k], s0[j_old].items@[k]));
                            }
                        }
                    }
                    assert(j == j_old);
                }
                assert(step_of(s0, s1, i as int, x, ju, closed));
                assert forall|q: int| 0 <= q < kernel.len() implies self.moved_from(
                    s0[i as int].items@,
                    x,
                    #[trigger] kernel[q],
                ) by {
                    assert(self.from_source(snapshot@, x, kernel[q]));
                    let p = choose|p: int|
                        0 <= p < snapshot@.len() && self.next_symbol(#[trigger] snapshot@[p]) == Some(
                            x,
                        ) && core_eq(kernel[q], advanced(snapshot@[p])) && kernel[q].lookahead@
                            == snapshot@[p].lookahead@;
                    assert(core_eq(snapshot@[p], s0[i as int].items@[p]));
                    assert(self.next_symbol(s0[i as int].items@[p]) == Some(x));
                }
                assert forall|others: Seq<Seq<Item>>| #[trigger]
                    self.family_ok(s1, others) implies Self::family_within(s1, others) by {
                    self.lemma_least_follow(s0, s1, i as int, x, ju, kernel, closed, others);
                }
                if j < n {
                    assert(self.state_wf(s0[j]));
                    self.lemma_closed_merge(s0[j].items@, closed, s1[j].items@);
                    lemma_states_free_grow(s0, s1, j);
                }
                assert(states_grow(s0, s1)) by {
                    assert forall|t: int| 0 <= t < s0.len() implies {
                        &&& items_grow(s0[t].items@, (#[trigger] s1[t]).items@)
                        &&& s0[t].items@.len() == s1[t].items@.len()
                    } by {
                        if t != j {
                            assert(s1[t].items@ == s0[t].items@);
                            assert(self.state_wf(s0[t]));
                            assert forall|q: int| 0 <= q < s0[t].items@.len() implies subset(
                                (#[trigger] s0[t].items@[q]).lookahead@,
                                s1[t].items@[q].lookahead@,
                            ) by {}
                        }
                    }
                }
                assert(que0.is_prefix_of(que1)) by {
                    if changed {
                        assert(que1.subrange(0, que0.len() as int) =~= que0);
                    }
                }
                assert forall|s: int| 0 <= s < s1.len() implies self.state_wf(
                    #[trigger] s1[s],
                ) by {
                    if s < n && s != j {
                        assert(self.state_wf(s0[s]));
                        assert(s1[s].items@ == s0[s].items@);
                    }
                }
                assert forall|s: int, t: int| 0 <= s < t < s1.len() implies !same_cores(
                    (#[trigger] s1[s]).items@,
                    (#[trigger] s1[t]).items@,
                ) by {
                    if same_cores(s1[s].items@, s1[t].items@) {
                        assert(items_grow(s0[s].items@, s1[s].items@));
                        if t < n {
                            assert(items_grow(s0[t].items@, s1[t].items@));
                            assert(same_cores(s0[s].items@, s0[t].items@)) by {
                                assert forall|k: int| 0 <= k < s0[s].items@.len() implies core_eq(
                                    #[trigger] s0[s].items@[k],
                                    s0[t].items@[k],
                                ) by {
                                    assert(core_eq(s1[s].items@[k], s1[t].items@[k]));
                                    assert(core_eq(s0[t].items@[k], s1[t].items@[k]));
                                }
                            }
                        } else {
                            assert(same_cores(closed, s0[s].items@)) by {
                                assert forall|k: int| 0 <= k < closed.len() implies core_eq(
                                    #[trigger] closed[k],
                                    s0[s].items@[k],
                                ) by {
                                    assert(core_eq(s1[s].items@[k], s1[t].items@[k]));
                                    assert(core_eq(s0[s].items@[k], s1[s].items@[k]));
                                }
                            }
                        }
                    }
                }
                assert forall|s: int, y: ComponentId|
                    0 <= s < s1.len() && #[trigger] s1[s].edge@.contains_key(
                        y,
                    ) implies s1[s].edge@[y] < s1.len() by {
                    if s < n && s != i {
                        assert(s0[s].edge@.contains_key(y));
                    } else if s == i && y != x {
                        assert(s0[s].edge@.contains_key(y));
                    }
                }
                assert(self.states_wf(s1));
                assert(self.edges_ok(s1)) by {
                    assert forall|s: int, y: ComponentId|
                        0 <= s < s1.len() && #[trigger] s1[s].edge@.contains_key(y) implies {
                        &&& s1[s].edge@[y] < s1.len()
                        &&& self.group_cores(
                            cores_of(s1[s].items@),
                            y as int,
                            s1[s].items@.len() as int,
                        ).len() > 0
                        &&& self.closure_cores(
                            self.group_cores(
                                cores_of(s1[s].items@),
                                y as int,
                                s1[s].items@.len() as int,
                            ),
                            cores_of(s1[s1[s].edge@[y] as int].items@),
                        )
                    } by {
                        let t = s1[s].edge@[y] as int;
                        if s < n {
                            assert(items_grow(s0[s].items@, s1[s].items@));
                            lemma_grow_cores(s0[s].items@, s1[s].items@);
                        }
                        if t < n {
                            assert(items_grow(s0[t].items@, s1[t].items@));
                            lemma_grow_cores(s0[t].items@, s1[t].items@);
                        }
                        if s == i && y == x {
                            assert(t == j);
                            if j < n {
                                lemma_same_cores_of(closed, s0[j].items@);
                            }
                        } else if s < n {
                            assert(s0[s].edge@.contains_key(y));
                            assert(s0[s].edge@[y] == t);
                        }
                    }
                }
                assert(self.states_reached(s1)) by {
                    assert(items_grow(s0[0].items@, s1[0].items@));
                    lemma_grow_cores(s0[0].items@, s1[0].items@);
                    assert forall|t: int| 1 <= t < s1.len() implies #[trigger] reached(s1, t) by {
                        if t < n {
                            assert(reached(s0, t));
                            let (s, y) = choose|s: int, y: ComponentId|
                                0 <= s < t && s < s0.len() && #[trigger] s0[s].edge@.contains_key(y)
                                    && s0[s].edge@[y] == t;
                            assert(s1[s].edge@.contains_key(y) && s1[s].edge@[y] == t);
                        } else {
                            assert(i < t);
                            assert(s1[i as int].edge@.contains_key(x) && s1[i as int].edge@[x] == t);
                        }
                    }
                }
                assert forall|s: usize|
                    s < s1.len() && s != i && !need1.contains(
                        s,
                    ) implies #[trigger] self.state_settled(s1, s as int) by {
                    assert(!need0.contains(s));
                    assert(s < n);
                    assert(self.state_settled(s0, s as int));
                    assert(items_grow(s0[s as int].items@, s1[s as int].items@));
                    assert forall|p: int|
                        0 <= p < s1[s as int].items@.len() implies #[trigger] self.item_followed(
                        s1,
                        s as int,
                        p,
                    ) by {
                        assert(self.item_followed(s0, s as int, p));
                        if s == j {
                            assert(lookaheads_view(s1[j].items@)[p] == lookaheads_view(
                                s0[j].items@,
                            )[p]);
                        }
                        self.lemma_followed_grow(s0, s1, s as int, p);
                    }
                }
                assert forall|s: usize| #[trigger] need1.contains(s) implies s < s1.len()
                    && queued(que1, s as int) by {
                    if need0.contains(s) {
                        lemma_queued_prefix(que0, que1, s as int);
                    } else {
                        if !changed {
                            assert(need1 == need0);
                        }
                        assert(s == j);
                        assert(que1[que0.len() as int] == j);
                    }
                }
                assert forall|d: int| 0 <= d < que1.len() implies #[trigger] que1[d]
                    < s1.len() by {
                    if d < que0.len() {
                        assert(que1.subrange(0, que0.len() as int)[d] == que1[d]);
                        assert(que0[d] < s0.len());
                    }
                }
                assert forall|p: int|
                    0 <= p < snapshot@.len() && self.next_symbol(#[trigger] snapshot@[p]) == Some(
                        x,
                    ) implies {
                    let edge = s1[i as int].edge@;
                    &&& edge.contains_key(x)
                    &&& edge[x] < s1.len()
                    &&& holds_item(s1[edge[x] as int].items@, advanced(snapshot@[p]))
                } by {
                    let it = advanced(snapshot@[p]);
                    assert(holds_item(kernel, it));
                    lemma_holds_kept(kernel, closed, it);
                    assert(s1[i as int].edge@[x] == j);
                    if j < n {
                        assert forall|k: int| 0 <= k < s0[j].items@.len() implies (
                        #[trigger] s0[j].items@[k]).lookahead@.len()
                            == closed[k].lookahead@.len() by {
                            assert(self.item_valid(s0[j].items@[k]));
                            assert(self.item_valid(closed[k]));
                        }
                        lemma_holds_merged(s0[j].items@, closed, s1[j].items@, it);
                    }
                }
                assert forall|s: usize|
                    s < s1.len() && #[trigger] state_touched(
                        s0,
                        s1,
                        s as int,
                    ) implies need1.contains(s) by {
                    if s < n && s != j {
                        assert(s1[s as int].items@ == s0[s as int].items@);
                    }
                }
            }
        } else {
            proof {
                let s1 = state_set.states@;
                assert forall|p: int|
                    0 <= p < snapshot@.len() && self.next_symbol(#[trigger] snapshot@[p]) == Some(
                        x,
                    ) implies false by {
                    assert(holds_item(group@, advanced(snapshot@[p])));
                }
                assert(states_grow(s1, s1)) by {
                    assert forall|t: int| 0 <= t < s1.len() implies {
                        &&& items_grow(s1[t].items@, (#[trigger] s1[t]).items@)
                        &&& s1[t].items@.len() == s1[t].items@.len()
                    } by {
                        assert(self.state_wf(s1[t]));
                        assert forall|q: int| 0 <= q < s1[t].items@.len() implies subset(
                            (#[trigger] s1[t].items@[q]).lookahead@,
                            s1[t].items@[q].lookahead@,
                        ) by {}
                    }
                }
            }
        }
    }

    /// Computes the successors of state `i`: follows each symbol from it,
    /// in ascending order of symbols, with the items that the state holds
    /// at the start.
    pub(crate) fn expand_state(&self, state_set: &mut StateSet, que: &mut VecDeque<usize>, i: usize)
        requires
            self.grammar_wf(),
            self.first_sets_wf(),
            self.automaton_inv(
                old(state_set).states@,
                old(state_set).need_update@,
                old(que)@,
                i as int,
            ),
            i < old(state_set).states@.len(),
            self.automaton_exact(old(state_set).states@),
        ensures
            self.automaton_inv(
                final(state_set).states@,
                final(state_set).need_update@,
                final(que)@,
                -1,
            ),
            self.automaton_exact(final(state_set).states@),
            states_grow(old(state_set).states@, final(state_set).states@),
            final(state_set).states@.len() == old(state_set).states@.len() ==> states_free(
                final(state_set).states@,
            ) <= states_free(old(state_set).states@),
            final(state_set).states@.len() == old(state_set).states@.len() && states_free(
                final(state_set).states@,
            ) == states_free(old(state_set).states@) ==> final(que)@ == old(que)@,
    {
        let ghost s0 = state_set.states@;
        let ghost need0 = state_set.need_update@;
        let ghost que0 = que@;
        let mut snapshot: Vec<Item> = Vec::new();
        let mut p: usize = 0;
        assert(self.state_wf(s0[i as int]));
        while p < state_set.states[i].items.len()
            invariant
                i < state_set.states@.len(),
                state_set.states@ == s0,
                state_set.need_update@ == need0,
                p <= s0[i as int].items@.len(),
                snapshot@.len() == p,
                forall|k: int|
                    0 <= k < p ==> core_eq(#[trigger] snapshot@[k], s0[i as int].items@[k])
                        && snapshot@[k].lookahead@ == s0[i as int].items@[k].lookahead@,
            decreases s0[i as int].items@.len() - p,
        {
            snapshot.push(state_set.states[i].items[p].clone());
            p += 1;
        }
        proof {
            assert(self.items_valid(snapshot@)) by {
                assert forall|k: int| 0 <= k < snapshot@.len() implies self.item_valid(
                    #[trigger] snapshot@[k],
                ) by {
                    assert(self.item_valid(s0[i as int].items@[k]));
                }
            }
            assert(cores_distinct(snapshot@)) by {
                assert forall|a: int, b: int| 0 <= a < b < snapshot@.len() implies !core_eq(
                    #[trigger] snapshot@[a],
                    #[trigger] snapshot@[b],
                ) by {
                    assert(!core_eq(s0[i as int].items@[a], s0[i as int].items@[b]));
                }
            }
            assert(items_grow(snapshot@, s0[i as int].items@)) by {
                assert forall|q: int| 0 <= q < snapshot@.len() implies core_eq(
                    #[trigger] snapshot@[q],
                    s0[i as int].items@[q],
                ) && subset(snapshot@[q].lookahead@, s0[i as int].items@[q].lookahead@) by {}
            }
            assert(states_grow(s0, s0)) by {
                assert forall|t: int| 0 <= t < s0.len() implies {
                    &&& items_grow(s0[t].items@, (#[trigger] s0[t]).items@)
                    &&& s0[t].items@.len() == s0[t].items@.len()
                } by {
                    assert(self.state_wf(s0[t]));
                    assert forall|q: int| 0 <= q < s0[t].items@.len() implies subset(
                        (#[trigger] s0[t].items@[q]).lookahead@,
                        s0[t].items@[q].lookahead@,
                    ) by {}
                }
            }
        }
        let n_sym = self.id_mapper.len();
        let mut x: usize = 0;
        while x < n_sym
            invariant
                x <= n_sym,
                n_sym == self.n(),
                self.grammar_wf(),
                self.first_sets_wf(),
                i < s0.len(),
                self.items_valid(snapshot@),
                cores_distinct(snapshot@),
                self.automaton_inv(state_set.states@, state_set.need_update@, que@, i as int),
                self.automaton_exact(state_set.states@),
                items_grow(snapshot@, state_set.states@[i as int].items@),
                snapshot@.len() == state_set.states@[i as int].items@.len(),
                states_grow(s0, state_set.states@),
                forall|s: usize|
                    s < state_set.states@.len() && #[trigger] state_touched(
                        s0,
                        state_set.states@,
                        s as int,
                    ) ==> state_set.need_update@.contains(s),
                forall|q: int|
                    0 <= q < snapshot@.len() && self.next_symbol(snapshot@[q]) is Some
                        && self.next_symbol(snapshot@[q])->Some_0 < x ==> #[trigger] self.follows(
                        state_set.states@,
                        i as int,
                        snapshot@[q],
                    ),
                state_set.states@.len() == s0.len() ==> states_free(state_set.states@)
                    <= states_free(s0),
                state_set.states@.len() == s0.len() && states_free(state_set.states@)
                    == states_free(s0) ==> que@ == que0,
            decreases n_sym - x,
        {
            let ghost s1 = state_set.states@;
            let ghost need1 = state_set.need_update@;
            self.follow_symbol(state_set, que, i, &snapshot, x as u16);
            proof {
                let s2 = state_set.states@;
                let need2 = state_set.need_update@;
                lemma_states_grow_trans(s0, s1, s2);
                assert(items_grow(s1[i as int].items@, s2[i as int].items@));
                lemma_items_grow_trans(snapshot@, s1[i as int].items@, s2[i as int].items@);
                assert forall|s: usize|
                    s < s2.len() && #[trigger] state_touched(
                        s0,
                        s2,
                        s as int,
                    ) implies need2.contains(s) by {
                    if !state_touched(s1, s2, s as int) {
                        assert(state_touched(s0, s1, s as int));
                        assert(need1.contains(s));
                    }
                }
                assert forall|q: int|
                    0 <= q < snapshot@.len() && self.next_symbol(snapshot@[q]) is Some
                        && self.next_symbol(snapshot@[q])->Some_0 < x + 1 implies #[trigger] self.follows(
                    s2,
                    i as int,
                    snapshot@[q],
                ) by {
                    let y = self.next_symbol(snapshot@[q])->Some_0;
                    if y < x {
                        assert(self.follows(s1, i as int, snapshot@[q]));
                        let t = s1[i as int].edge@[y] as int;
                        assert(s1[i as int].edge@.contains_key(y));
                        assert(s2[i as int].edge@[y] == t);
                        assert(items_grow(s1[t].items@, s2[t].items@));
                        lemma_holds_grow(s1[t].items@, s2[t].items@, advanced(snapshot@[q]));
                    }
                }
            }
            x += 1;
        }
        proof {
            let s2 = state_set.states@;
            let need2 = state_set.need_update@;
            if !need2.contains(i) {
                assert(!state_touched(s0, s2, i as int));
                assert forall|p: int|
                    0 <= p < s2[i as int].items@.len() implies #[trigger] self.item_followed(
                    s2,
                    i as int,
                    p,
                ) by {
                    let item = s2[i as int].items@[p];
                    assert(items_grow(s0[i as int].items@, s2[i as int].items@));
                    assert(core_eq(s0[i as int].items@[p], item));
                    assert(core_eq(snapshot@[p], s0[i as int].items@[p]));
                    assert(lookaheads_view(s2[i as int].items@)[p] == lookaheads_view(
                        s0[i as int].items@,
                    )[p]);
                    assert(item.lookahead@ == snapshot@[p].lookahead@);
                    assert(self.item_valid(snapshot@[p]));
                    match self.next_symbol(item) {
                        None => {},
                        Some(y) => {
                            assert(self.next_symbol(snapshot@[p]) == Some(y));
                            assert(y < n_sym);
                            assert(self.follows(s2, i as int, snapshot@[p]));
                            let t = s2[i as int].edge@[y] as int;
                            let q = choose|q: int|
                                0 <= q < s2[t].items@.len() && core_eq(
                                    #[trigger] s2[t].items@[q],
                                    advanced(snapshot@[p]),
                                ) && subset(
                                    advanced(snapshot@[p]).lookahead@,
                                    s2[t].items@[q].lookahead@,
                                );
                            assert(core_eq(s2[t].items@[q], advanced(item)));
                        },
                    }
                }
            }
        }
    }
}

} // verus!
