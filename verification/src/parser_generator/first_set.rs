//! Nullable symbols and FIRST sets of a grammar over symbol ids: what they
//! are, and the lemmas by which the table generator computes them.

use vstd::prelude::*;
use super::bison::ComponentId;
use super::lalr::LalrRule;
use super::terminal_set::{count, lemma_count_bound, lemma_count_subset, subset, union, TerminalSet};

verus! {

/// The flags of each set of a list, in order.
pub open spec fn sets_view(sets: Seq<TerminalSet>) -> Seq<Seq<bool>> {
    sets.map_values(|s: TerminalSet| s@)
}

/// Whether every symbol of `comps` at the positions `from..to` is nullable.
pub open spec fn span_nullable(
    nullable: Seq<bool>,
    comps: Seq<ComponentId>,
    from: int,
    to: int,
) -> bool {
    forall|k: int| from <= k < to ==> nullable[#[trigger] comps[k] as int]
}

/// Whether the first `j` symbols of the right-hand side of rule `i` are all
/// nullable.
pub open spec fn prefix_nullable(rules: Seq<LalrRule>, nullable: Seq<bool>, i: int, j: int) -> bool {
    span_nullable(nullable, rules[i].components@, 0, j)
}

/// Whether `nullable` has a flag for each of `n` symbols and `first` a set
/// over `nt` terminals for each of them.
pub open spec fn first_dims(n: int, nt: int, nullable: Seq<bool>, first: Seq<Seq<bool>>) -> bool {
    &&& nullable.len() == n
    &&& first.len() == n
    &&& forall|a: int| 0 <= a < n ==> (#[trigger] first[a]).len() == nt
}

/// Whether rules mention symbols below `n` only.
pub open spec fn rules_in_range(rules: Seq<LalrRule>, n: int) -> bool {
    forall|i: int|
        0 <= i < rules.len() ==> {
            &&& (#[trigger] rules[i]).name_id < n
            &&& forall|k: int|
                0 <= k < rules[i].components@.len() ==> (#[trigger] rules[i].components@[k]) < n
        }
}

/// Whether `nullable` and `first` satisfy the equations of rule `i`: the
/// FIRST set of the left-hand side holds that of each symbol of the
/// right-hand side that nullable symbols alone precede, and the left-hand
/// side is nullable if every symbol of the right-hand side is.
pub open spec fn rule_closed(
    rules: Seq<LalrRule>,
    nullable: Seq<bool>,
    first: Seq<Seq<bool>>,
    i: int,
) -> bool {
    &&& forall|j: int|
        0 <= j < rules[i].components@.len() && #[trigger] prefix_nullable(rules, nullable, i, j)
            ==> subset(first[rules[i].components@[j] as int], first[rules[i].name_id as int])
    &&& prefix_nullable(rules, nullable, i, rules[i].components@.len() as int)
        ==> nullable[rules[i].name_id as int]
}

/// Whether `nullable` and `first` satisfy the equations of the grammar:
/// a terminal is in its own FIRST set, and every rule is satisfied.
pub open spec fn first_closed(
    rules: Seq<LalrRule>,
    nt: int,
    nullable: Seq<bool>,
    first: Seq<Seq<bool>>,
) -> bool {
    &&& forall|t: int| 0 <= t < nt ==> (#[trigger] first[t])[t]
    &&& forall|i: int| 0 <= i < rules.len() ==> #[trigger] rule_closed(rules, nullable, first, i)
}

/// Whether the first solution claims nothing that the second does not.
pub open spec fn first_below(
    nullable: Seq<bool>,
    first: Seq<Seq<bool>>,
    nullable2: Seq<bool>,
    first2: Seq<Seq<bool>>,
) -> bool {
    &&& subset(nullable, nullable2)
    &&& first.len() == first2.len()
    &&& forall|a: int| 0 <= a < first.len() ==> subset(#[trigger] first[a], first2[a])
}

/// Whether a solution claims nothing that some solution of the equations
/// lacks.
pub open spec fn first_least(
    rules: Seq<LalrRule>,
    n: int,
    nt: int,
    nullable: Seq<bool>,
    first: Seq<Seq<bool>>,
) -> bool {
    forall|nullable2: Seq<bool>, first2: Seq<Seq<bool>>|
        first_dims(n, nt, nullable2, first2) && #[trigger] first_closed(
            rules,
            nt,
            nullable2,
            first2,
        ) ==> first_below(nullable, first, nullable2, first2)
}

/// The nullable symbols and FIRST sets of a grammar: the least solution of
/// its equations.
pub open spec fn is_first_solution(
    rules: Seq<LalrRule>,
    n: int,
    nt: int,
    nullable: Seq<bool>,
    first: Seq<Seq<bool>>,
) -> bool {
    &&& first_dims(n, nt, nullable, first)
    &&& first_closed(rules, nt, nullable, first)
    &&& first_least(rules, n, nt, nullable, first)
}

/// Whether two lists of rules differ in the precedence of rules at most.
pub open spec fn same_productions(a: Seq<LalrRule>, b: Seq<LalrRule>) -> bool {
    &&& a.len() == b.len()
    &&& forall|i: int|
        0 <= i < a.len() ==> (#[trigger] a[i]).name_id == b[i].name_id && a[i].components@
            == b[i].components@
}

/// What satisfies the equations of rules satisfies those of the same rules
/// with another precedence.
pub proof fn lemma_closed_by_productions(
    rules: Seq<LalrRule>,
    rules2: Seq<LalrRule>,
    nt: int,
    nullable: Seq<bool>,
    first: Seq<Seq<bool>>,
)
    requires
        same_productions(rules, rules2),
        first_closed(rules, nt, nullable, first),
    ensures
        first_closed(rules2, nt, nullable, first),
{
    assert forall|i: int| 0 <= i < rules2.len() implies #[trigger] rule_closed(
        rules2,
        nullable,
        first,
        i,
    ) by {
        assert(rule_closed(rules, nullable, first, i));
        assert(rules[i].name_id == rules2[i].name_id);
        assert(rules[i].components@ == rules2[i].components@);
        assert forall|j: int|
            0 <= j < rules2[i].components@.len() && #[trigger] prefix_nullable(
                rules2,
                nullable,
                i,
                j,
            ) implies subset(
            first[rules2[i].components@[j] as int],
            first[rules2[i].name_id as int],
        ) by {
            assert(prefix_nullable(rules, nullable, i, j));
        }
        assert(prefix_nullable(rules2, nullable, i, rules2[i].components@.len() as int)
            == prefix_nullable(rules, nullable, i, rules[i].components@.len() as int));
    }
}

/// Nullable symbols and FIRST sets do not depend on precedence: grammars
/// with the same rules, but for their precedence, have the same.
pub proof fn law_first_sets_by_productions(
    rules: Seq<LalrRule>,
    rules2: Seq<LalrRule>,
    n: int,
    nt: int,
    nullable: Seq<bool>,
    first: Seq<Seq<bool>>,
    nullable2: Seq<bool>,
    first2: Seq<Seq<bool>>,
)
    requires
        same_productions(rules, rules2),
        is_first_solution(rules, n, nt, nullable, first),
        is_first_solution(rules2, n, nt, nullable2, first2),
    ensures
        nullable == nullable2,
        first == first2,
{
    lemma_closed_by_productions(rules2, rules, nt, nullable2, first2);
    lemma_closed_by_productions(rules, rules2, nt, nullable, first);
    assert(first_below(nullable, first, nullable2, first2));
    assert(first_below(nullable2, first2, nullable, first));
    assert(nullable =~= nullable2);
    assert(first =~= first2) by {
        assert forall|a: int| 0 <= a < first.len() implies first[a] == first2[a] by {
            assert(subset(first[a], first2[a]));
            assert(subset(first2[a], first[a]));
            assert(first[a] =~= first2[a]);
        }
    }
}

/// Whether the symbols of `comps` from position `j` on are all nullable.
pub open spec fn spec_nullable_after(nullable: Seq<bool>, comps: Seq<ComponentId>, j: int) -> bool {
    span_nullable(nullable, comps, j, comps.len() as int)
}

/// Whether terminal `t` can begin what the symbols of `comps` from position
/// `j` on derive.
pub open spec fn spec_first_after(
    nullable: Seq<bool>,
    first: Seq<Seq<bool>>,
    comps: Seq<ComponentId>,
    j: int,
    t: int,
) -> bool {
    exists|k: int|
        j <= k < comps.len() && span_nullable(nullable, comps, j, k) && (#[trigger] first[comps[k] as int])[t]
}

/// The places left in all the sets of a list.
pub open spec fn total_free(first: Seq<Seq<bool>>) -> nat
    decreases first.len(),
{
    if first.len() == 0 {
        0
    } else {
        total_free(first.drop_last()) + (first.last().len() - count(first.last())) as nat
    }
}

/// Growing one set of a list leaves no more places than before, and fewer
/// if the set has changed.
pub proof fn lemma_total_free_update(first: Seq<Seq<bool>>, a: int, grown: Seq<bool>)
    requires
        0 <= a < first.len(),
        subset(first[a], grown),
    ensures
        total_free(first.update(a, grown)) <= total_free(first),
        grown != first[a] ==> total_free(first.update(a, grown)) < total_free(first),
    decreases first.len(),
{
    let updated = first.update(a, grown);
    if a == first.len() - 1 {
        assert(updated.drop_last() =~= first.drop_last());
        lemma_count_subset(first[a], grown);
        lemma_count_bound(grown);
        lemma_count_bound(first[a]);
    } else {
        assert(updated.drop_last() =~= first.drop_last().update(a, grown));
        assert(updated.last() == first.last());
        lemma_total_free_update(first.drop_last(), a, grown);
    }
}

/// Sets that grow leave no more places than before, and fewer if one of
/// them has changed.
pub proof fn lemma_total_free_grow(before: Seq<Seq<bool>>, after: Seq<Seq<bool>>)
    requires
        before.len() == after.len(),
        forall|a: int| 0 <= a < before.len() ==> subset(#[trigger] before[a], after[a]),
    ensures
        total_free(after) <= total_free(before),
        after != before ==> total_free(after) < total_free(before),
    decreases before.len(),
{
    if before.len() > 0 {
        lemma_total_free_grow(before.drop_last(), after.drop_last());
        let last = before.len() - 1;
        assert(subset(before[last], after[last]));
        lemma_count_subset(before.last(), after.last());
        lemma_count_bound(after.last());
        lemma_count_bound(before.last());
        if after != before {
            if after.drop_last() == before.drop_last() && after.last() == before.last() {
                assert(after =~= after.drop_last().push(after.last()));
                assert(before =~= before.drop_last().push(before.last()));
            }
        }
    } else {
        assert(after =~= before);
    }
}

/// The two sets of the next position give those of this one.
pub proof fn lemma_after_step(
    nullable: Seq<bool>,
    first: Seq<Seq<bool>>,
    comps: Seq<ComponentId>,
    j: int,
)
    requires
        0 <= j < comps.len(),
    ensures
        spec_nullable_after(nullable, comps, j) == (nullable[comps[j] as int]
            && spec_nullable_after(nullable, comps, j + 1)),
        forall|t: int|
            #[trigger] spec_first_after(nullable, first, comps, j, t) == (first[comps[j] as int][t]
                || (nullable[comps[j] as int] && spec_first_after(nullable, first, comps, j + 1, t))),
{
    if nullable[comps[j] as int] && spec_nullable_after(nullable, comps, j + 1) {
        assert forall|k: int| j <= k < comps.len() implies nullable[#[trigger] comps[k] as int] by {
            if k > j {
            }
        }
    }
    assert forall|t: int|
        #[trigger] spec_first_after(nullable, first, comps, j, t) == (first[comps[j] as int][t] || (
        nullable[comps[j] as int] && spec_first_after(nullable, first, comps, j + 1, t))) by {
        if spec_first_after(nullable, first, comps, j, t) {
            let k = choose|k: int|
                j <= k < comps.len() && span_nullable(nullable, comps, j, k) && (
                #[trigger] first[comps[k] as int])[t];
            if k > j {
                assert(nullable[comps[j] as int]);
                assert(span_nullable(nullable, comps, j + 1, k));
            }
        }
        if first[comps[j] as int][t] {
            assert(span_nullable(nullable, comps, j, j));
        }
        if nullable[comps[j] as int] && spec_first_after(nullable, first, comps, j + 1, t) {
            let k = choose|k: int|
                j + 1 <= k < comps.len() && span_nullable(nullable, comps, j + 1, k) && (
                #[trigger] first[comps[k] as int])[t];
            assert forall|m: int| j <= m < k implies nullable[#[trigger] comps[m] as int] by {
                if m > j {
                }
            }
            assert(span_nullable(nullable, comps, j, k));
        }
    }
}

/// Adding to the FIRST set of a left-hand side that of a symbol which
/// nullable symbols alone precede keeps a solution below every solution of
/// the equations.
pub proof fn lemma_least_union(
    rules: Seq<LalrRule>,
    n: int,
    nt: int,
    nullable: Seq<bool>,
    first: Seq<Seq<bool>>,
    i: int,
    j: int,
)
    requires
        first_dims(n, nt, nullable, first),
        rules_in_range(rules, n),
        first_least(rules, n, nt, nullable, first),
        0 <= i < rules.len(),
        0 <= j < rules[i].components@.len(),
        prefix_nullable(rules, nullable, i, j),
    ensures
        first_least(
            rules,
            n,
            nt,
            nullable,
            first.update(
                rules[i].name_id as int,
                union(first[rules[i].name_id as int], first[rules[i].components@[j] as int]),
            ),
        ),
{
    let lhs = rules[i].name_id as int;
    let c = rules[i].components@[j] as int;
    let grown = first.update(lhs, union(first[lhs], first[c]));
    assert forall|nullable2: Seq<bool>, first2: Seq<Seq<bool>>|
        first_dims(n, nt, nullable2, first2) && #[trigger] first_closed(
            rules,
            nt,
            nullable2,
            first2,
        ) implies first_below(nullable, grown, nullable2, first2) by {
        assert(first_below(nullable, first, nullable2, first2));
        assert(rule_closed(rules, nullable2, first2, i));
        assert(prefix_nullable(rules, nullable2, i, j));
        assert(subset(first2[c], first2[lhs]));
        assert(subset(first[c], first2[c]));
        assert(subset(first[lhs], first2[lhs]));
        assert forall|a: int| 0 <= a < grown.len() implies subset(
            #[trigger] grown[a],
            first2[a],
        ) by {
            if a != lhs {
                assert(grown[a] == first[a]);
            }
        }
    }
}

/// Marking as nullable a left-hand side whose right-hand side is nullable
/// keeps a solution below every solution of the equations.
pub proof fn lemma_least_nullable(
    rules: Seq<LalrRule>,
    n: int,
    nt: int,
    nullable: Seq<bool>,
    first: Seq<Seq<bool>>,
    i: int,
)
    requires
        first_dims(n, nt, nullable, first),
        rules_in_range(rules, n),
        first_least(rules, n, nt, nullable, first),
        0 <= i < rules.len(),
        prefix_nullable(rules, nullable, i, rules[i].components@.len() as int),
    ensures
        first_least(rules, n, nt, nullable.update(rules[i].name_id as int, true), first),
{
    let lhs = rules[i].name_id as int;
    let grown = nullable.update(lhs, true);
    assert forall|nullable2: Seq<bool>, first2: Seq<Seq<bool>>|
        first_dims(n, nt, nullable2, first2) && #[trigger] first_closed(
            rules,
            nt,
            nullable2,
            first2,
        ) implies first_below(grown, first, nullable2, first2) by {
        assert(first_below(nullable, first, nullable2, first2));
        assert(rule_closed(rules, nullable2, first2, i));
        assert(prefix_nullable(rules, nullable2, i, rules[i].components@.len() as int));
    }
}

/// Adds the set at position `c` of a list to the one at position `lhs`;
/// returns whether that one grew.
fn union_into(first: &mut Vec<TerminalSet>, lhs: usize, c: usize) -> (grew: bool)
    requires
        lhs < old(first)@.len(),
        c < old(first)@.len(),
        old(first)@[lhs as int]@.len() == old(first)@[c as int]@.len(),
    ensures
        sets_view(final(first)@) == sets_view(old(first)@).update(
            lhs as int,
            union(old(first)@[lhs as int]@, old(first)@[c as int]@),
        ),
        grew == (sets_view(final(first)@) != sets_view(old(first)@)),
{
    let set = first[c].clone();
    let mut target = first[lhs].clone();
    let grew = target.insert_all(&set);
    let ghost before = sets_view(first@);
    first.set(lhs, target);
    proof {
        assert(sets_view(first@) =~= before.update(
            lhs as int,
            union(before[lhs as int], before[c as int]),
        ));
        if !grew {
            assert(sets_view(first@) =~= before);
        } else {
            assert(sets_view(first@)[lhs as int] != before[lhs as int]);
        }
    }
    grew
}

/// The places left in a solution: what bounds the work of the solver.
pub open spec fn first_room(nullable: Seq<bool>, first: Seq<Seq<bool>>) -> nat {
    total_free(first) + (nullable.len() - count(nullable)) as nat
}

/// Computes the nullable symbols and the FIRST sets of a grammar over `n`
/// symbols of which the first `nt` are the terminals.
pub fn solve_first(rules: &Vec<LalrRule>, n: usize, nt: usize) -> (r: (Vec<bool>, Vec<TerminalSet>))
    requires
        nt <= n,
        n <= 0x10000,
        rules_in_range(rules@, n as int),
    ensures
        is_first_solution(rules@, n as int, nt as int, r.0@, sets_view(r.1@)),
{
    let mut nullable: Vec<bool> = Vec::new();
    let mut first: Vec<TerminalSet> = Vec::new();
    let mut a: usize = 0;
    while a < n
        invariant
            a <= n,
            nt <= n,
            n <= 0x10000,
            nullable@.len() == a,
            first@.len() == a,
            forall|k: int| 0 <= k < a ==> !#[trigger] nullable@[k],
            forall|k: int| 0 <= k < a ==> (#[trigger] first@[k])@.len() == nt,
            forall|k: int, t: int|
                0 <= k < a && 0 <= t < nt ==> (#[trigger] first@[k]@[t]) == (k == t),
        decreases n - a,
    {
        let mut s = TerminalSet::new(nt);
        if a < nt {
            s.insert(a as u16);
        }
        first.push(s);
        nullable.push(false);
        a += 1;
    }
    proof {
        let f = sets_view(first@);
        assert(first_dims(n as int, nt as int, nullable@, f));
        assert forall|nullable2: Seq<bool>, first2: Seq<Seq<bool>>|
            first_dims(n as int, nt as int, nullable2, first2) && #[trigger] first_closed(
                rules@,
                nt as int,
                nullable2,
                first2,
            ) implies first_below(nullable@, f, nullable2, first2) by {
            assert forall|a: int| 0 <= a < f.len() implies subset(#[trigger] f[a], first2[a]) by {
                assert forall|t: int| 0 <= t < f[a].len() && f[a][t] implies first2[a][t] by {
                    assert(first@[a]@[t] == (a == t));
                    assert(first2[t][t]);
                }
            }
        }
    }
    let mut done = false;
    while !done
        invariant
            nt <= n,
            n <= 0x10000,
            rules_in_range(rules@, n as int),
            first_dims(n as int, nt as int, nullable@, sets_view(first@)),
            first_least(rules@, n as int, nt as int, nullable@, sets_view(first@)),
            forall|t: int| 0 <= t < nt ==> (#[trigger] sets_view(first@)[t])[t],
            done ==> first_closed(rules@, nt as int, nullable@, sets_view(first@)),
        decreases
                if done {
                    0
                } else {
                    first_room(nullable@, sets_view(first@)) + 1
                },
    {
        let ghost room = first_room(nullable@, sets_view(first@));
        let mut updated = false;
        let mut ri: usize = 0;
        while ri < rules.len()
            invariant
                ri <= rules.len(),
                nt <= n,
                n <= 0x10000,
                rules_in_range(rules@, n as int),
                first_dims(n as int, nt as int, nullable@, sets_view(first@)),
                first_least(rules@, n as int, nt as int, nullable@, sets_view(first@)),
                forall|t: int| 0 <= t < nt ==> (#[trigger] sets_view(first@)[t])[t],
                first_room(nullable@, sets_view(first@)) <= room,
                updated ==> first_room(nullable@, sets_view(first@)) < room,
                !updated ==> forall|i: int|
                    0 <= i < ri ==> #[trigger] rule_closed(
                        rules@,
                        nullable@,
                        sets_view(first@),
                        i,
                    ),
            decreases rules.len() - ri,
        {
            assert(rules@[ri as int].name_id < n);
            let lhs = rules[ri].name_id as usize;
            let len = rules[ri].components.len();
            let mut i: usize = 0;
            let mut stop = false;
            while i < len && !stop
                invariant
                    i <= len,
                    ri < rules.len(),
                    len == rules@[ri as int].components@.len(),
                    lhs == rules@[ri as int].name_id,
                    lhs < n,
                    nt <= n,
                    n <= 0x10000,
                    rules_in_range(rules@, n as int),
                    first_dims(n as int, nt as int, nullable@, sets_view(first@)),
                    first_least(rules@, n as int, nt as int, nullable@, sets_view(first@)),
                    forall|t: int| 0 <= t < nt ==> (#[trigger] sets_view(first@)[t])[t],
                    first_room(nullable@, sets_view(first@)) <= room,
                    updated ==> first_room(nullable@, sets_view(first@)) < room,
                    !updated ==> forall|i: int|
                        0 <= i < ri ==> #[trigger] rule_closed(
                            rules@,
                            nullable@,
                            sets_view(first@),
                            i,
                        ),
                    prefix_nullable(rules@, nullable@, ri as int, i as int),
                    stop ==> i < len && !nullable@[rules@[ri as int].components@[i as int] as int],
                    !updated ==> forall|j: int|
                        0 <= j < i || (stop && j == i) ==> subset(
                            sets_view(first@)[(#[trigger] rules@[ri as int].components@[j]) as int],
                            sets_view(first@)[lhs as int],
                        ),
                decreases len - i + if stop { 0int } else { 1int },
            {
                assert(rules@[ri as int].components@[i as int] < n);
                let c = rules[ri].components[i] as usize;
                if c != lhs {
                    let ghost f = sets_view(first@);
                    proof {
                        lemma_least_union(
                            rules@,
                            n as int,
                            nt as int,
                            nullable@,
                            f,
                            ri as int,
                            i as int,
                        );
                        lemma_total_free_update(
                            f,
                            lhs as int,
                            union(f[lhs as int], f[c as int]),
                        );
                    }
                    let grew = union_into(&mut first, lhs, c);
                    if grew {
                        updated = true;
                        proof {
                            let u = union(f[lhs as int], f[c as int]);
                            if u == f[lhs as int] {
                                assert(f.update(lhs as int, u) =~= f);
                            }
                        }
                    }
                    assert(first_dims(n as int, nt as int, nullable@, sets_view(first@)));
                }
                assert(subset(
                    sets_view(first@)[c as int],
                    sets_view(first@)[lhs as int],
                ));
                if !nullable[c] {
                    stop = true;
                } else {
                    i += 1;
                }
            }
            if !stop && !nullable[lhs] {
                let ghost nb = nullable@;
                proof {
                    lemma_least_nullable(
                        rules@,
                        n as int,
                        nt as int,
                        nullable@,
                        sets_view(first@),
                        ri as int,
                    );
                }
                nullable.set(lhs, true);
                updated = true;
                proof {
                    assert(subset(nb, nullable@));
                    lemma_count_subset(nb, nullable@);
                    lemma_count_bound(nullable@);
                }
            }
            proof {
                if !updated {
                    let f = sets_view(first@);
                    assert forall|j: int|
                        0 <= j < len && #[trigger] prefix_nullable(
                            rules@,
                            nullable@,
                            ri as int,
                            j,
                        ) implies subset(
                        f[rules@[ri as int].components@[j] as int],
                        f[lhs as int],
                    ) by {
                        if stop && j > i {
                            assert(nullable@[rules@[ri as int].components@[i as int] as int]);
                        }
                    }
                    assert(rule_closed(rules@, nullable@, f, ri as int));
                }
            }
            ri += 1;
        }
        if !updated {
            done = true;
        }
    }
    (nullable, first)
}

/// Whether `nullable_row` and `first_row` hold, for each position of a
/// right-hand side and for its end, whether the rest is nullable and which
/// terminals can begin it.
pub open spec fn is_suffix_rows(
    nt: int,
    nullable: Seq<bool>,
    first: Seq<Seq<bool>>,
    comps: Seq<ComponentId>,
    nullable_row: Seq<bool>,
    first_row: Seq<Seq<bool>>,
) -> bool {
    &&& nullable_row.len() == comps.len() + 1
    &&& first_row.len() == comps.len() + 1
    &&& forall|j: int|
        0 <= j <= comps.len() ==> (#[trigger] nullable_row[j]) == spec_nullable_after(
            nullable,
            comps,
            j,
        )
    &&& forall|j: int| 0 <= j <= comps.len() ==> (#[trigger] first_row[j]).len() == nt
    &&& forall|j: int, t: int|
        0 <= j <= comps.len() && 0 <= t < nt ==> (#[trigger] first_row[j][t]) == spec_first_after(
            nullable,
            first,
            comps,
            j,
            t,
        )
}

/// Computes, for each position of a right-hand side and for its end,
/// whether the rest is nullable and which terminals can begin it.
pub fn suffix_rows(
    comps: &Vec<ComponentId>,
    nullable: &Vec<bool>,
    first: &Vec<TerminalSet>,
    nt: usize,
) -> (r: (Vec<bool>, Vec<TerminalSet>))
    requires
        first@.len() == nullable@.len(),
        forall|a: int| 0 <= a < first@.len() ==> (#[trigger] first@[a])@.len() == nt,
        forall|k: int| 0 <= k < comps@.len() ==> (#[trigger] comps@[k]) < nullable@.len(),
    ensures
        is_suffix_rows(nt as int, nullable@, sets_view(first@), comps@, r.0@, sets_view(r.1@)),
{
    let len = comps.len();
    let mut nullable_row: Vec<bool> = Vec::new();
    let mut first_row: Vec<TerminalSet> = Vec::new();
    let mut k: usize = 0;
    while k < len
        invariant
            k <= len,
            nullable_row@.len() == k,
            first_row@.len() == k,
            forall|j: int| 0 <= j < k ==> (#[trigger] first_row@[j])@.len() == nt,
        decreases len - k,
    {
        nullable_row.push(true);
        first_row.push(TerminalSet::new(nt));
        k += 1;
    }
    nullable_row.push(true);
    first_row.push(TerminalSet::new(nt));
    let ghost f = sets_view(first@);
    proof {
        assert forall|t: int| 0 <= t < nt implies !spec_first_after(
            nullable@,
            f,
            comps@,
            len as int,
            t,
        ) by {}
    }
    let mut j: usize = len;
    while j > 0
        invariant
            j <= len,
            len == comps@.len(),
            f == sets_view(first@),
            first@.len() == nullable@.len(),
            forall|a: int| 0 <= a < first@.len() ==> (#[trigger] first@[a])@.len() == nt,
            forall|k: int| 0 <= k < comps@.len() ==> (#[trigger] comps@[k]) < nullable@.len(),
            nullable_row@.len() == len + 1,
            first_row@.len() == len + 1,
            forall|m: int| 0 <= m <= len ==> (#[trigger] first_row@[m])@.len() == nt,
            forall|m: int|
                j <= m <= len ==> (#[trigger] nullable_row@[m]) == spec_nullable_after(
                    nullable@,
                    comps@,
                    m,
                ),
            forall|m: int, t: int|
                j <= m <= len && 0 <= t < nt ==> (#[trigger] first_row@[m]@[t]) == spec_first_after(
                    nullable@,
                    f,
                    comps@,
                    m,
                    t,
                ),
        decreases j,
    {
        j -= 1;
        let c = comps[j] as usize;
        proof {
            lemma_after_step(nullable@, f, comps@, j as int);
        }
        let mut set = if nullable[c] {
            first_row[j + 1].clone()
        } else {
            TerminalSet::new(nt)
        };
        let rest_nullable = nullable[c] && nullable_row[j + 1];
        set.insert_all(&first[c]);
        proof {
            assert forall|t: int| 0 <= t < nt implies (#[trigger] set@[t]) == spec_first_after(
                nullable@,
                f,
                comps@,
                j as int,
                t,
            ) by {
                assert(f[c as int][t] == first@[c as int]@[t]);
                if nullable@[c as int] {
                    assert(first_row@[j + 1]@[t] == spec_first_after(
                        nullable@,
                        f,
                        comps@,
                        j + 1,
                        t,
                    ));
                }
            }
        }
        first_row.set(j, set);
        nullable_row.set(j, rest_nullable);
    }
    proof {
        let fr = sets_view(first_row@);
        assert forall|j: int, t: int| 0 <= j <= comps@.len() && 0 <= t < nt implies (
        #[trigger] fr[j][t]) == spec_first_after(nullable@, f, comps@, j, t) by {
            assert(fr[j][t] == first_row@[j]@[t]);
        }
    }
    (nullable_row, first_row)
}

} // verus!
