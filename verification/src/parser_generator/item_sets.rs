//! What is said of lists of items and of lists of item sets.

use vstd::prelude::*;
use super::first_set::{lemma_total_free_grow, total_free};
use super::grammar::rules_of;
use super::lalr::{core_eq, same_cores, Item, LalrRule, State};
use super::terminal_set::{subset, union};

verus! {

/// The lookahead of each item of a list, in order.
pub open spec fn lookaheads_view(items: Seq<Item>) -> Seq<Seq<bool>> {
    items.map_values(|it: Item| it.lookahead@)
}

/// Whether `idx` gives, for each rule that an item of `items` starts, the
/// position of that item, and nothing else.
pub open spec fn index_consistent(items: Seq<Item>, idx: Map<usize, usize>) -> bool {
    &&& forall|r: usize| #[trigger]
        idx.contains_key(r) ==> idx[r] < items.len() && items[idx[r] as int].rule_index == r
            && items[idx[r] as int].dot_pos == 0
    &&& forall|q: int|
        0 <= q < items.len() && (#[trigger] items[q]).dot_pos == 0 ==> idx.contains_key(
            items[q].rule_index,
        ) && idx[items[q].rule_index] == q
}

/// Whether no two items of a list have the same core.
pub open spec fn cores_distinct(items: Seq<Item>) -> bool {
    forall|p: int, q: int|
        0 <= p < q < items.len() ==> !core_eq(#[trigger] items[p], #[trigger] items[q])
}

/// Whether item `a` comes no later than item `b` in the order of item lists:
/// by rule, then by dot position.
pub open spec fn core_le(a: Item, b: Item) -> bool {
    a.rule_index < b.rule_index || (a.rule_index == b.rule_index && a.dot_pos <= b.dot_pos)
}

/// Whether a list of items is in order of rule, then of dot position.
pub open spec fn sorted_by_core(items: Seq<Item>) -> bool {
    forall|a: int, b: int|
        0 <= a < b < items.len() ==> core_le(#[trigger] items[a], #[trigger] items[b])
}

/// Whether `b` holds the items of `a` at the same positions, each with at
/// least its lookahead, and possibly more items after them.
pub open spec fn items_grow(a: Seq<Item>, b: Seq<Item>) -> bool {
    &&& a.len() <= b.len()
    &&& forall|q: int|
        0 <= q < a.len() ==> core_eq(#[trigger] a[q], b[q]) && subset(
            a[q].lookahead@,
            b[q].lookahead@,
        )
}

/// Whether the item at position `p` of `after` is new, or has another
/// lookahead than in `before`.
pub open spec fn touched(before: Seq<Item>, after: Seq<Item>, p: int) -> bool {
    p >= before.len() || after[p].lookahead@ != before[p].lookahead@
}

/// Whether position `p` waits in the queue.
pub open spec fn queued(deq: Seq<usize>, p: int) -> bool {
    exists|d: int| 0 <= d < deq.len() && #[trigger] deq[d] == p
}

/// Whether some item of `items` starts rule `r` with at least the
/// lookahead `la`.
pub open spec fn has_start(items: Seq<Item>, r: int, la: Seq<bool>) -> bool {
    exists|q: int|
        0 <= q < items.len() && (#[trigger] items[q]).rule_index == r && items[q].dot_pos == 0
            && subset(la, items[q].lookahead@)
}

/// Whether `items` holds an item with the core of `it` and at least its
/// lookahead.
pub open spec fn holds_item(items: Seq<Item>, it: Item) -> bool {
    exists|q: int|
        0 <= q < items.len() && core_eq(#[trigger] items[q], it) && subset(
            it.lookahead@,
            items[q].lookahead@,
        )
}

/// Whether each item of `kernel` is found in `items` with at least its
/// lookahead.
pub open spec fn kernel_kept(kernel: Seq<Item>, items: Seq<Item>) -> bool {
    forall|p: int| 0 <= p < kernel.len() ==> holds_item(items, #[trigger] kernel[p])
}

/// What waits in a queue still waits after more has been queued.
pub proof fn lemma_queued_prefix(a: Seq<usize>, b: Seq<usize>, p: int)
    requires
        a.is_prefix_of(b),
        queued(a, p),
    ensures
        queued(b, p),
{
    let d = choose|d: int| 0 <= d < a.len() && #[trigger] a[d] == p;
    assert(b.subrange(0, a.len() as int)[d] == b[d]);
}

/// The beginning of a beginning of a list is a beginning of the list.
pub proof fn lemma_prefix_trans(a: Seq<usize>, b: Seq<usize>, c: Seq<usize>)
    requires
        a.is_prefix_of(b),
        b.is_prefix_of(c),
    ensures
        a.is_prefix_of(c),
{
    assert forall|d: int| 0 <= d < a.len() implies a[d] == c[d] by {
        assert(b.subrange(0, a.len() as int)[d] == b[d]);
        assert(c.subrange(0, b.len() as int)[d] == c[d]);
    }
    assert(a =~= c.subrange(0, a.len() as int));
}

/// Whether `after` holds the items of `before` in another order:
/// `perm` gives for each position of `after` that of the same item in
/// `before`, and `inv` the other way round.
pub open spec fn rearranged(
    before: Seq<Item>,
    after: Seq<Item>,
    perm: Seq<int>,
    inv: Seq<int>,
) -> bool {
    &&& after.len() == before.len()
    &&& perm.len() == before.len()
    &&& inv.len() == before.len()
    &&& forall|q: int|
        0 <= q < after.len() ==> 0 <= (#[trigger] perm[q]) < before.len() && inv[perm[q]] == q
            && after[q] == before[perm[q]]
    &&& forall|p: int|
        0 <= p < before.len() ==> 0 <= (#[trigger] inv[p]) < after.len() && perm[inv[p]] == p
}

/// Sorts items by rule, then by dot position, with `sort_by_key` of std on
/// slices. Trusted: the result holds the items that were there, each once,
/// in ascending order of that key.
#[verifier::external_body]
pub(crate) fn sort_items(items: &mut Vec<Item>)
    ensures
        sorted_by_core(final(items)@),
        exists|perm: Seq<int>, inv: Seq<int>| rearranged(old(items)@, final(items)@, perm, inv),
{
    items.sort_by_key(|it| (it.rule_index, it.dot_pos));
}

/// The first state of `states` from position `from` on that holds the cores
/// of `items`, or the length of `states` if none does.
pub open spec fn find_core(states: Seq<State>, items: Seq<Item>, from: int) -> int
    decreases states.len() - from,
{
    if from < 0 || from >= states.len() {
        states.len() as int
    } else if same_cores(items, states[from].items@) {
        from
    } else {
        find_core(states, items, from + 1)
    }
}

/// Whether `c` holds the items of `a`, each with the lookahead of the item
/// of `b` at its position added.
pub open spec fn merged(a: Seq<Item>, b: Seq<Item>, c: Seq<Item>) -> bool {
    &&& c.len() == a.len()
    &&& forall|k: int|
        0 <= k < a.len() ==> core_eq(#[trigger] c[k], a[k]) && c[k].lookahead@ == union(
            a[k].lookahead@,
            b[k].lookahead@,
        )
}

/// The item with the dot moved over one symbol.
pub open spec fn advanced(item: Item) -> Item {
    Item {
        rule_index: item.rule_index,
        dot_pos: (item.dot_pos + 1) as usize,
        lookahead: item.lookahead,
    }
}

/// The places left in the lookaheads of all states: what bounds the work
/// of the construction while no state is added.
pub open spec fn states_free(states: Seq<State>) -> nat
    decreases states.len(),
{
    if states.len() == 0 {
        0
    } else {
        states_free(states.drop_last()) + total_free(lookaheads_view(states.last().items@))
    }
}

/// Where lookaheads grow in one state and stay as they are in the others,
/// no more places are left than before, and fewer if a lookahead has
/// changed.
pub proof fn lemma_states_free_grow(before: Seq<State>, after: Seq<State>, j: int)
    requires
        before.len() == after.len(),
        0 <= j < before.len(),
        forall|s: int|
            0 <= s < before.len() && s != j ==> lookaheads_view((#[trigger] after[s]).items@)
                == lookaheads_view(before[s].items@),
        items_grow(before[j].items@, after[j].items@),
        before[j].items@.len() == after[j].items@.len(),
    ensures
        states_free(after) <= states_free(before),
        lookaheads_view(after[j].items@) != lookaheads_view(before[j].items@) ==> states_free(after)
            < states_free(before),
    decreases before.len(),
{
    let last = before.len() - 1;
    let a = lookaheads_view(before[j].items@);
    let b = lookaheads_view(after[j].items@);
    if j == last {
        assert forall|k: int| 0 <= k < a.len() implies subset(#[trigger] a[k], b[k]) by {
            assert(core_eq(before[j].items@[k], after[j].items@[k]));
        }
        lemma_total_free_grow(a, b);
        lemma_states_free_same(before.drop_last(), after.drop_last());
    } else {
        assert(lookaheads_view(after[last].items@) == lookaheads_view(before[last].items@));
        lemma_states_free_grow(before.drop_last(), after.drop_last(), j);
    }
}

/// States with the same lookaheads leave the same places.
pub proof fn lemma_states_free_same(before: Seq<State>, after: Seq<State>)
    requires
        before.len() == after.len(),
        forall|s: int|
            0 <= s < before.len() ==> lookaheads_view((#[trigger] after[s]).items@)
                == lookaheads_view(before[s].items@),
    ensures
        states_free(after) == states_free(before),
    decreases before.len(),
{
    if before.len() > 0 {
        let last = before.len() - 1;
        assert(lookaheads_view(after[last].items@) == lookaheads_view(before[last].items@));
        lemma_states_free_same(before.drop_last(), after.drop_last());
    }
}

/// Whether `after` holds the states of `before` at the same positions, each
/// with the same cores and at least its lookaheads, and possibly more
/// states after them.
pub open spec fn states_grow(before: Seq<State>, after: Seq<State>) -> bool {
    &&& before.len() <= after.len()
    &&& forall|t: int|
        0 <= t < before.len() ==> {
            &&& items_grow(before[t].items@, (#[trigger] after[t]).items@)
            &&& before[t].items@.len() == after[t].items@.len()
        }
}

/// Lookaheads that grow twice have grown.
pub proof fn lemma_items_grow_trans(a: Seq<Item>, b: Seq<Item>, c: Seq<Item>)
    requires
        items_grow(a, b),
        items_grow(b, c),
    ensures
        items_grow(a, c),
{
    assert forall|q: int| 0 <= q < a.len() implies core_eq(#[trigger] a[q], c[q]) && subset(
        a[q].lookahead@,
        c[q].lookahead@,
    ) by {
        assert(core_eq(a[q], b[q]));
        assert(core_eq(b[q], c[q]));
    }
}

/// States that grow twice have grown.
pub proof fn lemma_states_grow_trans(a: Seq<State>, b: Seq<State>, c: Seq<State>)
    requires
        states_grow(a, b),
        states_grow(b, c),
    ensures
        states_grow(a, c),
{
    assert forall|t: int| 0 <= t < a.len() implies {
        &&& items_grow(a[t].items@, (#[trigger] c[t]).items@)
        &&& a[t].items@.len() == c[t].items@.len()
    } by {
        assert(items_grow(a[t].items@, b[t].items@));
        assert(items_grow(b[t].items@, c[t].items@));
        lemma_items_grow_trans(a[t].items@, b[t].items@, c[t].items@);
    }
}

/// An item that is held stays held while lookaheads grow.
pub proof fn lemma_holds_grow(a: Seq<Item>, b: Seq<Item>, it: Item)
    requires
        items_grow(a, b),
        holds_item(a, it),
    ensures
        holds_item(b, it),
{
    let q = choose|q: int|
        0 <= q < a.len() && core_eq(#[trigger] a[q], it) && subset(it.lookahead@, a[q].lookahead@);
    assert(core_eq(b[q], it));
    assert(subset(it.lookahead@, b[q].lookahead@));
}

/// Whether `other` holds each item of `items` with at least its lookahead.
pub open spec fn within(items: Seq<Item>, other: Seq<Item>) -> bool {
    forall|p: int| 0 <= p < items.len() ==> holds_item(other, #[trigger] items[p])
}

/// Whether `after` is `before` with the lookahead `la` given to the item
/// that starts `rule`: added to the item if `before` holds it, with a new
/// item at the end if not.
pub open spec fn start_added(before: Seq<Item>, after: Seq<Item>, rule: int, la: Seq<bool>) -> bool {
    ||| exists|q: int|
        0 <= q < before.len() && after.len() == before.len() && (#[trigger] before[q]).rule_index
            == rule && before[q].dot_pos == 0 && core_eq(after[q], before[q])
            && after[q].lookahead@ == union(before[q].lookahead@, la) && forall|p: int|
            0 <= p < before.len() && p != q ==> #[trigger] after[p] == before[p]
    ||| {
        &&& after.len() == before.len() + 1
        &&& after[before.len() as int].rule_index == rule
        &&& after[before.len() as int].dot_pos == 0
        &&& after[before.len() as int].lookahead@ == la
        &&& forall|p: int| 0 <= p < before.len() ==> #[trigger] after[p] == before[p]
    }
}

/// What a list holds, a list that keeps its items holds too.
pub proof fn lemma_holds_kept(a: Seq<Item>, b: Seq<Item>, it: Item)
    requires
        kernel_kept(a, b),
        holds_item(a, it),
    ensures
        holds_item(b, it),
{
    let q = choose|q: int|
        0 <= q < a.len() && core_eq(#[trigger] a[q], it) && subset(it.lookahead@, a[q].lookahead@);
    assert(holds_item(b, a[q]));
    let r = choose|r: int|
        0 <= r < b.len() && core_eq(#[trigger] b[r], a[q]) && subset(
            a[q].lookahead@,
            b[r].lookahead@,
        );
    assert(core_eq(b[r], it));
    assert(subset(it.lookahead@, b[r].lookahead@));
}

/// Whether state `s` of `after` is new, or has other lookaheads than in
/// `before`.
pub open spec fn state_touched(before: Seq<State>, after: Seq<State>, s: int) -> bool {
    s >= before.len() || lookaheads_view(after[s].items@) != lookaheads_view(before[s].items@)
}

/// What one of two merged lists holds, the merged list holds.
pub proof fn lemma_holds_merged(a: Seq<Item>, b: Seq<Item>, c: Seq<Item>, it: Item)
    requires
        same_cores(b, a),
        merged(a, b, c),
        holds_item(b, it),
        forall|k: int|
            0 <= k < a.len() ==> (#[trigger] a[k]).lookahead@.len() == b[k].lookahead@.len(),
    ensures
        holds_item(c, it),
{
    let q = choose|q: int|
        0 <= q < b.len() && core_eq(#[trigger] b[q], it) && subset(it.lookahead@, b[q].lookahead@);
    assert(core_eq(b[q], a[q]));
    assert(core_eq(c[q], it));
    assert(a[q].lookahead@.len() == b[q].lookahead@.len());
    assert(subset(it.lookahead@, c[q].lookahead@));
}

/// Where no state is found, none holds the cores; where one is found, it
/// is the first that does.
pub proof fn lemma_find_core(states: Seq<State>, items: Seq<Item>, from: int)
    requires
        0 <= from <= states.len(),
    ensures
        from <= find_core(states, items, from) <= states.len(),
        find_core(states, items, from) < states.len() ==> same_cores(
            items,
            states[find_core(states, items, from)].items@,
        ),
        forall|t: int|
            from <= t < find_core(states, items, from) ==> !same_cores(
                items,
                (#[trigger] states[t]).items@,
            ),
    decreases states.len() - from,
{
    if from < states.len() && !same_cores(items, states[from].items@) {
        lemma_find_core(states, items, from + 1);
    }
}

/// The rules of a symbol among the first `i` do not depend on later rules.
pub proof fn lemma_rules_of_same(before: Seq<LalrRule>, after: Seq<LalrRule>, a: int, i: int)
    requires
        0 <= i <= before.len() <= after.len(),
        forall|k: int| 0 <= k < before.len() ==> (#[trigger] after[k]) == before[k],
    ensures
        rules_of(after, a, i) == rules_of(before, a, i),
    decreases i,
{
    if i > 0 {
        lemma_rules_of_same(before, after, a, i - 1);
        assert(after[i - 1] == before[i - 1]);
    }
}

} // verus!
