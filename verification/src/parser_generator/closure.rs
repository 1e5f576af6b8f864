//! The closure of an item set.

use std::collections::VecDeque;
use vstd::prelude::*;
use super::cores::{core_lt, core_of, cores_of, lemma_cores_distinct, Core};
use super::first_set::{is_suffix_rows, lemma_total_free_update, sets_view, total_free};
use super::item_sets::{
    core_le, cores_distinct, has_start, holds_item, index_consistent, items_grow, kernel_kept,
    lemma_prefix_trans, lemma_queued_prefix, lookaheads_view, queued, rearranged, sort_items,
    sorted_by_core, start_added, touched, within,
};
use super::lalr::{core_eq, same_cores, Item, Lalr, State};
use super::terminal_set::{subset, union, TerminalSet};

verus! {

impl Lalr {
    /// Whether an item names a rule, a dot position within it, and
    /// terminals only.
    pub open spec fn item_valid(&self, item: Item) -> bool {
        &&& item.rule_index < self.rules@.len()
        &&& item.dot_pos <= self.rules@[item.rule_index as int].components@.len()
        &&& item.lookahead@.len() == self.nt()
    }

    /// Whether every item of a list is valid.
    pub open spec fn items_valid(&self, items: Seq<Item>) -> bool {
        forall|p: int| 0 <= p < items.len() ==> self.item_valid(#[trigger] items[p])
    }

    /// The lookahead that an item with the dot before a non-terminal hands
    /// to the items that start the rules of that non-terminal: what can
    /// begin the rest of its right-hand side and, where that rest is
    /// nullable, its own lookahead.
    pub open spec fn handed_down(&self, item: Item) -> Seq<bool> {
        let rest = self.first_set_after@[item.rule_index as int]@[item.dot_pos + 1]@;
        if self.nullable@[item.rule_index as int]@[item.dot_pos + 1] {
            union(rest, item.lookahead@)
        } else {
            rest
        }
    }

    /// Whether, if item `p` has the dot before a symbol, every rule of that
    /// symbol is started by an item of `items` that has the lookahead which
    /// item `p` hands down.
    pub open spec fn item_served(&self, items: Seq<Item>, p: int) -> bool {
        let item = items[p];
        let comps = self.rules@[item.rule_index as int].components@;
        item.dot_pos < comps.len() ==> forall|k: int|
            0 <= k < self.rule_indices_by_name_id@[comps[item.dot_pos as int] as int]@.len()
                ==> has_start(
                items,
                (#[trigger] self.rule_indices_by_name_id@[comps[item.dot_pos as int] as int]@[k]) as int,
                self.handed_down(item),
            )
    }

    /// Whether a list of items is closed: each item with the dot before a
    /// non-terminal is served.
    pub open spec fn items_closed(&self, items: Seq<Item>) -> bool {
        forall|p: int| 0 <= p < items.len() ==> #[trigger] self.item_served(items, p)
    }

    /// Whether `other` is a closed list of valid items, none with the core
    /// of another, that holds the items of `kernel`.
    pub open spec fn closes(&self, kernel: Seq<Item>, other: Seq<Item>) -> bool {
        &&& self.items_valid(other)
        &&& cores_distinct(other)
        &&& self.items_closed(other)
        &&& kernel_kept(kernel, other)
    }

    /// Whether every closed list that holds the items of `kernel` holds
    /// those of `items`: `items` holds no item and no lookahead that the
    /// closure of `kernel` does not ask for.
    pub open spec fn closure_least(&self, kernel: Seq<Item>, items: Seq<Item>) -> bool {
        forall|other: Seq<Item>| #[trigger] self.closes(kernel, other) ==> within(items, other)
    }

    /// What an item hands down is asked for: giving it to the item that
    /// starts a rule of the symbol after its dot keeps a list within every
    /// closed list that holds the kernel.
    pub proof fn lemma_least_start(
        &self,
        kernel: Seq<Item>,
        before: Seq<Item>,
        after: Seq<Item>,
        j: int,
        k: int,
        la: Seq<bool>,
    )
        requires
            self.items_valid(before),
            subset(la, self.handed_down(before[j])),
            0 <= j < before.len(),
            before[j].dot_pos < self.rules@[before[j].rule_index as int].components@.len(),
            0 <= k < self.rule_indices_by_name_id@[self.rules@[before[j].rule_index as int].components@[before[j].dot_pos as int] as int]@.len(),
            self.closure_least(kernel, before),
            start_added(
                before,
                after,
                self.rule_indices_by_name_id@[self.rules@[before[j].rule_index as int].components@[before[j].dot_pos as int] as int]@[k] as int,
                la,
            ),
        ensures
            self.closure_least(kernel, after),
    {
        let comps = self.rules@[before[j].rule_index as int].components@;
        let list = self.rule_indices_by_name_id@[comps[before[j].dot_pos as int] as int]@;
        let rule = list[k] as int;
        assert forall|other: Seq<Item>| #[trigger] self.closes(kernel, other) implies within(
            after,
            other,
        ) by {
            assert(within(before, other));
            assert(holds_item(other, before[j]));
            let q1 = choose|q: int|
                0 <= q < other.len() && core_eq(#[trigger] other[q], before[j]) && subset(
                    before[j].lookahead@,
                    other[q].lookahead@,
                );
            assert(self.item_valid(other[q1]));
            assert(self.item_valid(before[j]));
            assert(self.item_served(other, q1));
            assert(has_start(other, list[k] as int, self.handed_down(other[q1])));
            let s1 = choose|q: int|
                0 <= q < other.len() && (#[trigger] other[q]).rule_index == rule && other[q].dot_pos
                    == 0 && subset(self.handed_down(other[q1]), other[q].lookahead@);
            assert(self.item_valid(other[s1]));
            assert(subset(la, other[s1].lookahead@));
            assert forall|p: int| 0 <= p < after.len() implies holds_item(
                other,
                #[trigger] after[p],
            ) by {
                if p < before.len() && after[p] == before[p] {
                    assert(holds_item(other, before[p]));
                } else if p < before.len() {
                    assert(holds_item(other, before[p]));
                    let s2 = choose|q: int|
                        0 <= q < other.len() && core_eq(#[trigger] other[q], before[p]) && subset(
                            before[p].lookahead@,
                            other[q].lookahead@,
                        );
                    assert(core_eq(after[p], before[p]));
                    assert(before[p].rule_index == rule && before[p].dot_pos == 0);
                    if s1 < s2 {
                        assert(!core_eq(other[s1], other[s2]));
                    } else if s2 < s1 {
                        assert(!core_eq(other[s2], other[s1]));
                    }
                    assert(core_eq(other[s1], after[p]));
                    assert(subset(after[p].lookahead@, other[s1].lookahead@));
                } else {
                    assert(core_eq(other[s1], after[p]));
                    assert(subset(after[p].lookahead@, other[s1].lookahead@));
                }
            }
        }
    }

    /// An item that was served stays so while items are added and
    /// lookaheads grow, as long as its own lookahead does not.
    pub proof fn lemma_served_grow(&self, a: Seq<Item>, b: Seq<Item>, p: int)
        requires
            items_grow(a, b),
            0 <= p < a.len(),
            a[p].lookahead@ == b[p].lookahead@,
            self.item_served(a, p),
        ensures
            self.item_served(b, p),
    {
        let item = a[p];
        assert(core_eq(a[p], b[p]));
        let comps = self.rules@[item.rule_index as int].components@;
        if item.dot_pos < comps.len() {
            let list = self.rule_indices_by_name_id@[comps[item.dot_pos as int] as int]@;
            assert(self.handed_down(a[p]) == self.handed_down(b[p]));
            assert forall|k: int| 0 <= k < list.len() implies has_start(
                b,
                (#[trigger] list[k]) as int,
                self.handed_down(b[p]),
            ) by {
                assert(has_start(a, list[k] as int, self.handed_down(a[p])));
                let q = choose|q: int|
                    0 <= q < a.len() && (#[trigger] a[q]).rule_index == list[k] && a[q].dot_pos == 0
                        && subset(self.handed_down(a[p]), a[q].lookahead@);
                assert(core_eq(a[q], b[q]));
                assert(subset(self.handed_down(b[p]), b[q].lookahead@));
            }
        }
    }

    /// Gives the item that starts `rule` the terminals of `lookaheads`,
    /// adding the item if `state` has none, and queues what has changed.
    fn add_start(
        &self,
        state: &mut State,
        deq: &mut VecDeque<usize>,
        in_deq: &mut Vec<bool>,
        rule: usize,
        lookaheads: &TerminalSet,
    )
        requires
            rule < self.rules@.len(),
            lookaheads@.len() == self.nt(),
            self.items_valid(old(state).items@),
            index_consistent(old(state).items@, old(state).item_indices@),
            cores_distinct(old(state).items@),
            old(in_deq)@.len() == old(state).items@.len(),
            forall|p: int|
                0 <= p < old(in_deq)@.len() && #[trigger] old(in_deq)@[p] ==> queued(old(deq)@, p),
        ensures
            self.items_valid(final(state).items@),
            index_consistent(final(state).items@, final(state).item_indices@),
            cores_distinct(final(state).items@),
            final(in_deq)@.len() == final(state).items@.len(),
            forall|p: int|
                0 <= p < final(in_deq)@.len() && #[trigger] final(in_deq)@[p] ==> queued(final(deq)@, p),
            final(state).edge == old(state).edge,
            items_grow(old(state).items@, final(state).items@),
            final(state).items@.len() <= old(state).items@.len() + 1,
            has_start(final(state).items@, rule as int, lookaheads@),
            start_added(old(state).items@, final(state).items@, rule as int, lookaheads@),
            old(deq)@.is_prefix_of(final(deq)@),
            forall|d: int|
                old(deq)@.len() <= d < final(deq)@.len() ==> #[trigger] final(deq)@[d] < final(state).items@.len(),
            forall|p: int|
                0 <= p < final(state).items@.len() && #[trigger] touched(
                    old(state).items@,
                    final(state).items@,
                    p,
                ) ==> queued(final(deq)@, p),
            forall|p: int|
                old(state).items@.len() <= p < final(state).items@.len() ==> (
                #[trigger] final(state).items@[p]).dot_pos == 0,
            final(state).items@.len() == old(state).items@.len() ==> total_free(
                lookaheads_view(final(state).items@),
            ) <= total_free(lookaheads_view(old(state).items@)),
            final(state).items@.len() == old(state).items@.len() && total_free(
                lookaheads_view(final(state).items@),
            ) == total_free(lookaheads_view(old(state).items@)) ==> final(deq)@ == old(deq)@,
    {
        let ghost items0 = state.items@;
        let ghost deq0 = deq@;
        let found = match state.item_indices.get(&rule) {
            Some(q) => Some(*q),
            None => None,
        };
        match found {
            Some(q) => {
                let grew = state.items[q].insert_lookaheads(lookaheads);
                proof {
                    let items1 = state.items@;
                    assert(items1.len() == items0.len());
                    assert forall|p: int| 0 <= p < items1.len() && p != q implies items1[p]
                        == items0[p] by {}
                    assert(lookaheads_view(items1) =~= lookaheads_view(items0).update(
                        q as int,
                        items1[q as int].lookahead@,
                    ));
                    lemma_total_free_update(
                        lookaheads_view(items0),
                        q as int,
                        items1[q as int].lookahead@,
                    );
                    assert(subset(lookaheads@, items1[q as int].lookahead@));
                    assert(index_consistent(items1, state.item_indices@));
                    assert(cores_distinct(items1)) by {
                        assert forall|a: int, b: int| 0 <= a < b < items1.len() implies !core_eq(
                            #[trigger] items1[a],
                            #[trigger] items1[b],
                        ) by {
                            assert(core_eq(items1[a], items0[a]));
                            assert(core_eq(items1[b], items0[b]));
                        }
                    }
                    assert(self.items_valid(items1)) by {
                        assert forall|p: int| 0 <= p < items1.len() implies self.item_valid(
                            #[trigger] items1[p],
                        ) by {
                            assert(self.item_valid(items0[p]));
                        }
                    }
                }
                if grew && !in_deq[q] {
                    deq.push_back(q);
                    in_deq.set(q, true);
                    proof {
                        assert(deq@[deq0.len() as int] == q);
                        assert forall|p: int|
                            0 <= p < in_deq@.len() && #[trigger] in_deq@[p] implies queued(deq@, p) by {
                            if p != q {
                                let d = choose|d: int| 0 <= d < deq0.len() && #[trigger] deq0[d] == p;
                                assert(deq@[d] == p);
                            }
                        }
                    }
                }
                proof {
                    if grew {
                        assert(queued(deq@, q as int));
                    }
                }
            },
            None => {
                let new_item = Item { rule_index: rule, dot_pos: 0, lookahead: lookaheads.clone() };
                in_deq.push(true);
                deq.push_back(state.items.len());
                state.push_item(new_item);
                proof {
                    let items1 = state.items@;
                    let last = items0.len() as int;
                    assert(deq@[deq0.len() as int] == last);
                    assert(items1[last].rule_index == rule && items1[last].dot_pos == 0);
                    assert(subset(lookaheads@, items1[last].lookahead@));
                    assert forall|p: int|
                        0 <= p < in_deq@.len() && #[trigger] in_deq@[p] implies queued(deq@, p) by {
                        if p != last {
                            let d = choose|d: int| 0 <= d < deq0.len() && #[trigger] deq0[d] == p;
                            assert(deq@[d] == p);
                        }
                    }
                    assert(cores_distinct(items1)) by {
                        assert forall|a: int, b: int| 0 <= a < b < items1.len() implies !core_eq(
                            #[trigger] items1[a],
                            #[trigger] items1[b],
                        ) by {
                            if b == last && core_eq(items1[a], items1[b]) {
                                assert(items0[a].dot_pos == 0);
                                assert(old(state).item_indices@.contains_key(items0[a].rule_index));
                            }
                        }
                    }
                    assert(index_consistent(items1, state.item_indices@)) by {
                        assert forall|r: usize| #[trigger]
                            state.item_indices@.contains_key(r) implies state.item_indices@[r]
                            < items1.len() && items1[state.item_indices@[r] as int].rule_index == r
                            && items1[state.item_indices@[r] as int].dot_pos == 0 by {
                            if r != rule {
                                assert(old(state).item_indices@.contains_key(r));
                            }
                        }
                        assert forall|q: int|
                            0 <= q < items1.len() && (
                            #[trigger] items1[q]).dot_pos == 0 implies state.item_indices@.contains_key(
                            items1[q].rule_index,
                        ) && state.item_indices@[items1[q].rule_index] == q by {
                            if q != last {
                                assert(items0[q].dot_pos == 0);
                            }
                        }
                    }
                }
            },
        }
    }

    /// A closed list that holds the kernel holds an item that starts each
    /// rule of each symbol that a chain from the kernel leads to.
    pub proof fn lemma_chain_starts(
        &self,
        kernel: Seq<Item>,
        items: Seq<Item>,
        chain: Seq<int>,
        r: int,
    )
        requires
            self.grammar_wf(),
            self.items_valid(items),
            self.items_closed(items),
            kernel_kept(kernel, items),
            self.exposed_by(cores_of(kernel), chain),
            self.rule_of(chain.last(), r),
        ensures
            cores_of(items).contains((r, 0)),
        decreases chain.len(),
    {
        let kcores = cores_of(kernel);
        let b = chain.last();
        let k = choose|k: int|
            0 <= k < self.rule_indices_by_name_id@[b]@.len() && (
            #[trigger] self.rule_indices_by_name_id@[b]@[k]) == r;
        let q: int;
        if chain.len() == 1 {
            let p = choose|p: int|
                0 <= p < kcores.len() && self.core_next(#[trigger] kcores[p]) == Some(chain[0]);
            assert(holds_item(items, kernel[p]));
            q = choose|q: int|
                0 <= q < items.len() && core_eq(#[trigger] items[q], kernel[p]) && subset(
                    kernel[p].lookahead@,
                    items[q].lookahead@,
                );
            assert(core_of(items[q]) == kcores[p]);
        } else {
            let shorter = chain.drop_last();
            let prev = shorter.last();
            assert(self.begins(chain[chain.len() - 2], chain[chain.len() - 2 + 1]));
            let r0 = choose|r0: int| #[trigger]
                self.rule_of(prev, r0) && self.core_next((r0, 0)) == Some(b);
            assert(self.exposed_by(kcores, shorter)) by {
                assert(shorter[0] == chain[0]);
                assert forall|i: int| 0 <= i < shorter.len() - 1 implies self.begins(
                    #[trigger] shorter[i],
                    shorter[i + 1],
                ) by {
                    assert(self.begins(chain[i], chain[i + 1]));
                }
            }
            self.lemma_chain_starts(kernel, items, shorter, r0);
            q = choose|q: int| 0 <= q < cores_of(items).len() && cores_of(items)[q] == (r0, 0int);
        }
        assert(self.item_valid(items[q]));
        assert(self.item_served(items, q));
        assert(has_start(items, self.rule_indices_by_name_id@[b]@[k] as int, self.handed_down(items[q])));
        let s = choose|s: int|
            0 <= s < items.len() && (#[trigger] items[s]).rule_index == r && items[s].dot_pos == 0
                && subset(self.handed_down(items[q]), items[s].lookahead@);
        assert(cores_of(items)[s] == (r, 0int));
    }

    /// A closed list that holds the kernel, and besides its cores only
    /// cores that the closure adds, holds the cores of the closure.
    pub proof fn lemma_closed_cores(&self, kernel: Seq<Item>, items: Seq<Item>)
        requires
            self.grammar_wf(),
            self.items_valid(items),
            self.items_closed(items),
            cores_distinct(items),
            kernel_kept(kernel, items),
            forall|q: int|
                0 <= q < items.len() ==> cores_of(kernel).contains(core_of(#[trigger] items[q]))
                    || self.added_core(cores_of(kernel), core_of(items[q])),
            items.len() == kernel.len() ==> same_cores(kernel, items),
            items.len() != kernel.len() ==> sorted_by_core(items),
        ensures
            self.closure_cores(cores_of(kernel), cores_of(items)),
    {
        let kcores = cores_of(kernel);
        let cores = cores_of(items);
        lemma_cores_distinct(items);
        assert forall|p: int| 0 <= p < kcores.len() implies cores.contains(#[trigger] kcores[p]) by {
            assert(holds_item(items, kernel[p]));
            let q = choose|q: int|
                0 <= q < items.len() && core_eq(#[trigger] items[q], kernel[p]) && subset(
                    kernel[p].lookahead@,
                    items[q].lookahead@,
                );
            assert(cores[q] == kcores[p]);
        }
        assert forall|q: int| 0 <= q < cores.len() implies kcores.contains(#[trigger] cores[q])
            || self.added_core(kcores, cores[q]) by {
            assert(cores[q] == core_of(items[q]));
        }
        assert forall|c: Core| #[trigger] self.added_core(kcores, c) implies cores.contains(c) by {
            let b = choose|b: int| #[trigger] self.exposed(kcores, b) && self.rule_of(b, c.0);
            let chain = choose|chain: Seq<int>| #[trigger]
                self.exposed_by(kcores, chain) && chain.last() == b;
            self.lemma_chain_starts(kernel, items, chain, c.0);
        }
        if cores.len() == kcores.len() {
            assert(cores =~= kcores) by {
                assert forall|q: int| 0 <= q < cores.len() implies cores[q] == kcores[q] by {
                    assert(core_eq(kernel[q], items[q]));
                }
            }
        } else {
            assert forall|a: int, b: int| 0 <= a < b < cores.len() implies super::cores::core_lt(
                #[trigger] cores[a],
                #[trigger] cores[b],
            ) by {
                assert(core_le(items[a], items[b]));
                assert(!core_eq(items[a], items[b]));
            }
        }
    }

    /// Closes an item set: for each item with the dot before a
    /// non-terminal, the items that start the rules of that non-terminal
    /// are added with the lookahead handed down to them, until nothing
    /// changes. If items were added, the list is then put in order of rule
    /// and dot position.
    pub fn closure(&self, state: &mut State)
        requires
            self.grammar_wf(),
            self.first_sets_wf(),
            self.items_valid(old(state).items@),
            index_consistent(old(state).items@, old(state).item_indices@),
            cores_distinct(old(state).items@),
        ensures
            self.items_valid(final(state).items@),
            self.items_closed(final(state).items@),
            cores_distinct(final(state).items@),
            kernel_kept(old(state).items@, final(state).items@),
            self.closure_least(old(state).items@, final(state).items@),
            self.closure_cores(cores_of(old(state).items@), cores_of(final(state).items@)),
            final(state).edge == old(state).edge,
            final(state).items@.len() >= old(state).items@.len(),
            final(state).items@.len() == old(state).items@.len() ==> items_grow(
                old(state).items@,
                final(state).items@,
            ),
            final(state).items@.len() != old(state).items@.len() ==> sorted_by_core(
                final(state).items@,
            ),
    {
        let nt = self.all_terminal.len();
        let prev_item_len = state.items.len();
        let ghost kernel = state.items@;
        let mut in_deq: Vec<bool> = Vec::new();
        let mut deq: VecDeque<usize> = VecDeque::new();
        let mut k: usize = 0;
        while k < prev_item_len
            invariant
                k <= prev_item_len,
                in_deq@.len() == k,
                deq@.len() == k,
                forall|d: int| 0 <= d < k ==> !#[trigger] in_deq@[d],
                forall|d: int| 0 <= d < k ==> #[trigger] deq@[d] == d,
            decreases prev_item_len - k,
        {
            in_deq.push(false);
            deq.push_back(k);
            k += 1;
        }
        proof {
            assert forall|p: int| 0 <= p < state.items@.len() implies #[trigger] queued(deq@, p) by {
                assert(deq@[p] == p);
            }
            assert(items_grow(kernel, kernel)) by {
                assert forall|q: int| 0 <= q < kernel.len() implies subset(
                    (#[trigger] kernel[q]).lookahead@,
                    kernel[q].lookahead@,
                ) by {}
            }
        }
        while deq.len() > 0
            invariant
                self.grammar_wf(),
                self.first_sets_wf(),
                nt == self.nt(),
                self.items_valid(state.items@),
                index_consistent(state.items@, state.item_indices@),
                cores_distinct(state.items@),
                in_deq@.len() == state.items@.len(),
                forall|p: int|
                    0 <= p < in_deq@.len() && #[trigger] in_deq@[p] ==> queued(deq@, p),
                forall|p: int|
                    0 <= p < state.items@.len() && !queued(deq@, p)
                        ==> #[trigger] self.item_served(state.items@, p),
                forall|d: int| 0 <= d < deq@.len() ==> #[trigger] deq@[d] < state.items@.len(),
                state.edge == old(state).edge,
                items_grow(kernel, state.items@),
                kernel.len() == prev_item_len,
                self.closure_least(kernel, state.items@),
                forall|p: int|
                    kernel.len() <= p < state.items@.len() ==> self.added_core(
                        cores_of(kernel),
                        core_of(#[trigger] state.items@[p]),
                    ),
            decreases
                    usize::MAX - state.items@.len(),
                    total_free(lookaheads_view(state.items@)),
                    deq@.len(),
        {
            let ghost deq_before = deq@;
            let ghost in_deq_before = in_deq@;
            let item_count = state.items.len();
            let j = deq.pop_front().unwrap();
            in_deq.set(j, false);
            let ghost items0 = state.items@;
            let ghost deq0 = deq@;
            proof {
                assert(deq_before =~= seq![j] + deq0);
                assert forall|p: int|
                    0 <= p < in_deq@.len() && #[trigger] in_deq@[p] implies queued(deq0, p) by {
                    assert(in_deq_before[p]);
                    assert(queued(deq_before, p));
                    let d = choose|d: int| 0 <= d < deq_before.len() && #[trigger] deq_before[d] == p;
                    assert(d > 0);
                    assert(deq0[d - 1] == p);
                }
                assert forall|p: int|
                    0 <= p < items0.len() && p != j && !queued(deq0, p) implies #[trigger] self.item_served(items0, p) by {
                    if queued(deq_before, p) {
                        let d = choose|d: int| 0 <= d < deq_before.len() && #[trigger] deq_before[d] == p;
                        assert(d > 0);
                        assert(deq0[d - 1] == p);
                    }
                }
                assert forall|d: int| 0 <= d < deq0.len() implies #[trigger] deq0[d]
                    < items0.len() by {
                    assert(deq_before[d + 1] == deq0[d]);
                }
            }
            assert(self.item_valid(state.items@[j as int]));
            let rule_index = state.items[j].rule_index;
            let dot_pos = state.items[j].dot_pos;
            let mut expands = false;
            if dot_pos < self.rules[rule_index].components.len() {
                let component_id = self.rules[rule_index].components[dot_pos];
                if component_id as usize >= nt {
                    expands = true;
                } else {
                    proof {
                        let list = self.rule_indices_by_name_id@[component_id as int]@;
                        if list.len() > 0 {
                            let r = list[0];
                            assert(self.rules@[r as int].name_id == component_id);
                        }
                        assert(self.item_served(items0, j as int));
                    }
                }
            } else {
                assert(self.item_served(items0, j as int));
            }
            if expands {
                let component_id = self.rules[rule_index].components[dot_pos];
                assert(is_suffix_rows(
                    self.nt(),
                    self.nullable_symbol@,
                    sets_view(self.first_set@),
                    self.rules@[rule_index as int].components@,
                    self.nullable@[rule_index as int]@,
                    sets_view(self.first_set_after@[rule_index as int]@),
                ));
                assert(sets_view(self.first_set_after@[rule_index as int]@)[dot_pos + 1]
                    == self.first_set_after@[rule_index as int]@[dot_pos + 1]@);
                let mut lookaheads = self.first_set_after[rule_index][dot_pos + 1].clone();
                if self.nullable[rule_index][dot_pos + 1] {
                    lookaheads.insert_all(&state.items[j].lookahead);
                }
                assert(lookaheads@ == self.handed_down(items0[j as int]));
                assert(component_id < self.n());
                proof {
                    let kcores = cores_of(kernel);
                    assert(self.core_next(core_of(items0[j as int])) == Some(component_id as int));
                    if j < kernel.len() {
                        assert(core_eq(kernel[j as int], items0[j as int]));
                        assert(kcores[j as int] == core_of(items0[j as int]));
                        self.lemma_exposed_first(kcores, j as int, component_id as int);
                    } else {
                        assert(self.added_core(kcores, core_of(items0[j as int])));
                        let b = choose|b: int| #[trigger]
                            self.exposed(kcores, b) && self.rule_of(b, rule_index as int);
                        assert(self.begins(b, component_id as int));
                        self.lemma_exposed_step(kcores, b, component_id as int);
                    }
                }
                let mut k: usize = 0;
                while k < self.rule_indices_by_name_id[component_id as usize].len()
                    invariant
                        self.grammar_wf(),
                        self.first_sets_wf(),
                        nt == self.nt(),
                        component_id < self.n(),
                        lookaheads@.len() == nt,
                        k <= self.rule_indices_by_name_id@[component_id as int]@.len(),
                        self.items_valid(state.items@),
                        index_consistent(state.items@, state.item_indices@),
                        cores_distinct(state.items@),
                        in_deq@.len() == state.items@.len(),
                        forall|p: int|
                            0 <= p < in_deq@.len() && #[trigger] in_deq@[p] ==> queued(deq@, p),
                        state.edge == old(state).edge,
                        items_grow(items0, state.items@),
                        self.closure_least(kernel, state.items@),
                        self.exposed(cores_of(kernel), component_id as int),
                        kernel.len() <= items0.len(),
                        forall|p: int|
                            kernel.len() <= p < state.items@.len() ==> self.added_core(
                                cores_of(kernel),
                                core_of(#[trigger] state.items@[p]),
                            ),
                        j < items0.len(),
                        items0[j as int].rule_index == rule_index,
                        items0[j as int].dot_pos == dot_pos,
                        dot_pos < self.rules@[rule_index as int].components@.len(),
                        component_id == self.rules@[rule_index as int].components@[dot_pos as int],
                        lookaheads@ == self.handed_down(items0[j as int]),
                        deq0.is_prefix_of(deq@),
                        forall|p: int|
                            0 <= p < state.items@.len() && #[trigger] touched(
                                items0,
                                state.items@,
                                p,
                            ) ==> queued(deq@, p),
                        forall|d: int|
                            0 <= d < deq@.len() ==> #[trigger] deq@[d] < state.items@.len(),
                        forall|m: int|
                            0 <= m < k ==> has_start(
                                state.items@,
                                (#[trigger] self.rule_indices_by_name_id@[component_id as int]@[m]) as int,
                                lookaheads@,
                            ),
                        state.items@.len() == items0.len() ==> total_free(
                            lookaheads_view(state.items@),
                        ) <= total_free(lookaheads_view(items0)),
                        state.items@.len() == items0.len() && total_free(
                            lookaheads_view(state.items@),
                        ) == total_free(lookaheads_view(items0)) ==> deq@ == deq0,
                    decreases self.rule_indices_by_name_id@[component_id as int]@.len() - k,
                {
                    let new_item_index = self.rule_indices_by_name_id[component_id as usize][k];
                    let ghost items1 = state.items@;
                    let ghost deq1 = deq@;
                    self.add_start(state, &mut deq, &mut in_deq, new_item_index, &lookaheads);
                    proof {
                        let items2 = state.items@;
                        let list = self.rule_indices_by_name_id@[component_id as int]@;
                        assert(core_eq(items0[j as int], items1[j as int]));
                        assert(self.item_valid(items0[j as int]));
                        assert(self.item_valid(items1[j as int]));
                        assert(subset(lookaheads@, self.handed_down(items1[j as int])));
                        self.lemma_least_start(
                            kernel,
                            items1,
                            items2,
                            j as int,
                            k as int,
                            lookaheads@,
                        );
                        assert(self.rule_of(component_id as int, new_item_index as int));
                        assert forall|p: int| kernel.len() <= p < items2.len() implies self.added_core(
                            cores_of(kernel),
                            core_of(#[trigger] items2[p]),
                        ) by {
                            if p < items1.len() {
                                assert(core_eq(items1[p], items2[p]));
                                assert(self.added_core(cores_of(kernel), core_of(items1[p])));
                            } else {
                                assert(core_of(items2[p]) == (new_item_index as int, 0int));
                            }
                        }
                        assert(items_grow(items0, items2)) by {
                            assert forall|q: int| 0 <= q < items0.len() implies core_eq(
                                #[trigger] items0[q],
                                items2[q],
                            ) && subset(items0[q].lookahead@, items2[q].lookahead@) by {
                                assert(core_eq(items0[q], items1[q]));
                                assert(core_eq(items1[q], items2[q]));
                            }
                        }
                        lemma_prefix_trans(deq0, deq1, deq@);
                        assert forall|p: int|
                            0 <= p < items2.len() && #[trigger] touched(
                                items0,
                                items2,
                                p,
                            ) implies queued(deq@, p) by {
                            if touched(items1, items2, p) {
                            } else {
                                assert(touched(items0, items1, p));
                                lemma_queued_prefix(deq1, deq@, p);
                            }
                        }
                        assert forall|d: int| 0 <= d < deq@.len() implies #[trigger] deq@[d]
                            < items2.len() by {
                            if d < deq1.len() {
                                assert(deq@.subrange(0, deq1.len() as int)[d] == deq@[d]);
                                assert(deq1[d] < items1.len());
                            }
                        }
                        assert forall|m: int| 0 <= m < k implies has_start(
                            items2,
                            (#[trigger] list[m]) as int,
                            lookaheads@,
                        ) by {
                            let q = choose|q: int|
                                0 <= q < items1.len() && (#[trigger] items1[q]).rule_index
                                    == list[m] && items1[q].dot_pos == 0 && subset(
                                    lookaheads@,
                                    items1[q].lookahead@,
                                );
                            assert(core_eq(items1[q], items2[q]));
                            assert(subset(lookaheads@, items2[q].lookahead@));
                        }
                    }
                    k += 1;
                }
                proof {
                    let items2 = state.items@;
                    if !queued(deq@, j as int) {
                        assert(!touched(items0, items2, j as int));
                        assert(core_eq(items0[j as int], items2[j as int]));
                        assert(self.handed_down(items2[j as int]) == lookaheads@);
                        assert(self.item_served(items2, j as int));
                    }
                }
            }
            let item_count = state.items.len();
            proof {
                let items2 = state.items@;
                assert(items_grow(kernel, items2)) by {
                    assert forall|q: int| 0 <= q < kernel.len() implies core_eq(
                        #[trigger] kernel[q],
                        items2[q],
                    ) && subset(kernel[q].lookahead@, items2[q].lookahead@) by {
                        assert(core_eq(kernel[q], items0[q]));
                        assert(core_eq(items0[q], items2[q]));
                    }
                }
                assert forall|p: int|
                    0 <= p < items2.len() && !queued(deq@, p) implies #[trigger] self.item_served(items2, p) by {
                    if expands {
                        if p != j {
                            if queued(deq0, p) {
                                lemma_queued_prefix(deq0, deq@, p);
                            }
                            assert(!touched(items0, items2, p));
                            self.lemma_served_grow(items0, items2, p);
                        }
                    } else {
                        assert(items2 == items0);
                        assert(deq@ == deq0);
                    }
                }
            }
        }
        let ghost closed = state.items@;
        proof {
            assert(self.items_closed(closed));
            assert(kernel_kept(kernel, closed)) by {
                assert forall|p: int| 0 <= p < kernel.len() implies holds_item(
                    closed,
                    #[trigger] kernel[p],
                ) by {
                    assert(core_eq(closed[p], kernel[p]));
                }
            }
        }
        if prev_item_len != state.items.len() {
            sort_items(&mut state.items);
            proof {
                let sorted = state.items@;
                let (perm, inv) = choose|perm: Seq<int>, inv: Seq<int>|
                    rearranged(closed, sorted, perm, inv);
                assert(self.items_valid(sorted)) by {
                    assert forall|p: int| 0 <= p < sorted.len() implies self.item_valid(
                        #[trigger] sorted[p],
                    ) by {
                        assert(sorted[p] == closed[perm[p]]);
                    }
                }
                assert(cores_distinct(sorted)) by {
                    assert forall|a: int, b: int| 0 <= a < b < sorted.len() implies !core_eq(
                        #[trigger] sorted[a],
                        #[trigger] sorted[b],
                    ) by {
                        assert(sorted[a] == closed[perm[a]]);
                        assert(sorted[b] == closed[perm[b]]);
                        assert(inv[perm[a]] == a);
                        assert(inv[perm[b]] == b);
                        if perm[a] < perm[b] {
                            assert(!core_eq(closed[perm[a]], closed[perm[b]]));
                        } else {
                            assert(!core_eq(closed[perm[b]], closed[perm[a]]));
                        }
                    }
                }
                assert(kernel_kept(kernel, sorted)) by {
                    assert forall|p: int| 0 <= p < kernel.len() implies holds_item(
                        sorted,
                        #[trigger] kernel[p],
                    ) by {
                        assert(core_eq(closed[p], kernel[p]));
                        assert(perm[inv[p]] == p);
                        assert(sorted[inv[p]] == closed[perm[inv[p]]]);
                        assert(core_eq(sorted[inv[p]], kernel[p]));
                    }
                }
                assert forall|other: Seq<Item>| #[trigger]
                    self.closes(kernel, other) implies within(sorted, other) by {
                    assert(within(closed, other));
                    assert forall|p: int| 0 <= p < sorted.len() implies holds_item(
                        other,
                        #[trigger] sorted[p],
                    ) by {
                        assert(sorted[p] == closed[perm[p]]);
                        assert(holds_item(other, closed[perm[p]]));
                    }
                }
                assert(self.items_closed(sorted)) by {
                    assert forall|p: int| 0 <= p < sorted.len() implies #[trigger] self.item_served(
                        sorted,
                        p,
                    ) by {
                        assert(sorted[p] == closed[perm[p]]);
                        assert(self.item_served(closed, perm[p]));
                        let item = sorted[p];
                        let comps = self.rules@[item.rule_index as int].components@;
                        if item.dot_pos < comps.len() {
                            let list = self.rule_indices_by_name_id@[comps[item.dot_pos as int] as int]@;
                            assert forall|m: int| 0 <= m < list.len() implies has_start(
                                sorted,
                                (#[trigger] list[m]) as int,
                                self.handed_down(item),
                            ) by {
                                assert(has_start(closed, list[m] as int, self.handed_down(item)));
                                let q = choose|q: int|
                                    0 <= q < closed.len() && (#[trigger] closed[q]).rule_index
                                        == list[m] && closed[q].dot_pos == 0 && subset(
                                        self.handed_down(item),
                                        closed[q].lookahead@,
                                    );
                                assert(perm[inv[q]] == q);
                                assert(sorted[inv[q]] == closed[perm[inv[q]]]);
                            }
                        }
                    }
                }
                assert forall|q: int| 0 <= q < sorted.len() implies cores_of(kernel).contains(
                    core_of(#[trigger] sorted[q]),
                ) || self.added_core(cores_of(kernel), core_of(sorted[q])) by {
                    assert(sorted[q] == closed[perm[q]]);
                    if perm[q] < kernel.len() {
                        assert(core_eq(kernel[perm[q]], closed[perm[q]]));
                        assert(cores_of(kernel)[perm[q]] == core_of(sorted[q]));
                    }
                }
            }
        } else {
            proof {
                assert forall|q: int| 0 <= q < closed.len() implies cores_of(kernel).contains(
                    core_of(#[trigger] closed[q]),
                ) || self.added_core(cores_of(kernel), core_of(closed[q])) by {
                    assert(core_eq(kernel[q], closed[q]));
                    assert(cores_of(kernel)[q] == core_of(closed[q]));
                }
            }
        }
        proof {
            self.lemma_closed_cores(kernel, state.items@);
        }
    }
}

} // verus!
