//! From a grammar over names to one over symbol ids: the precedence of each
//! terminal and rule, the rules, and the faults that a grammar can have.

use vstd::prelude::*;
use super::bison::{Assoc, Bison, Component, ComponentId, ComponentView, GrammarError, Rule};
use super::id_mapper::IdMapper;
use super::lalr::LalrRule;
use super::lexer::{spec_token_kind_of, TokenKind};
use super::symbols::{
    assoc_symbol, in_assoc_upto, is_grammar_terminal, is_symbol, names_upto, symbol_count,
};

verus! {

/// What the first `a` associativity declarations say of terminal `c`: the
/// last of them that names it decides.
pub open spec fn declared_upto(bison: &Bison, c: ComponentView, a: int) -> Option<Assoc>
    decreases a,
{
    if a <= 0 {
        None
    } else if assoc_symbol(bison, a - 1) == c {
        Some(bison.assoc@[a - 1].1)
    } else {
        declared_upto(bison, c, a - 1)
    }
}

/// Whether two of the first `a` associativity declarations name one
/// terminal and differ.
pub open spec fn contradictory_upto(bison: &Bison, a: int) -> bool {
    exists|a1: int, a2: int|
        0 <= a1 < a2 < a && #[trigger] assoc_symbol(bison, a1) == #[trigger] assoc_symbol(bison, a2)
            && bison.assoc@[a1].1 != bison.assoc@[a2].1
}

/// What is declared of a terminal was declared by some declaration, and,
/// where no two declarations differ, by every declaration that names it.
pub proof fn lemma_declared(bison: &Bison, c: ComponentView, a: int)
    requires
        0 <= a <= bison.assoc@.len(),
    ensures
        declared_upto(bison, c, a) is Some ==> exists|a1: int|
            0 <= a1 < a && #[trigger] assoc_symbol(bison, a1) == c && bison.assoc@[a1].1
                == declared_upto(bison, c, a)->Some_0,
        declared_upto(bison, c, a) is None ==> forall|a1: int|
            0 <= a1 < a ==> #[trigger] assoc_symbol(bison, a1) != c,
        !contradictory_upto(bison, a) ==> forall|a1: int|
            0 <= a1 < a && #[trigger] assoc_symbol(bison, a1) == c ==> declared_upto(bison, c, a)
                == Some(bison.assoc@[a1].1),
    decreases a,
{
    if a > 0 {
        lemma_declared(bison, c, a - 1);
        if assoc_symbol(bison, a - 1) == c {
        } else if declared_upto(bison, c, a - 1) is Some {
            let a1 = choose|a1: int|
                0 <= a1 < a - 1 && #[trigger] assoc_symbol(bison, a1) == c && bison.assoc@[a1].1
                    == declared_upto(bison, c, a - 1)->Some_0;
            assert(assoc_symbol(bison, a1) == c);
        }
        if !contradictory_upto(bison, a) {
            if contradictory_upto(bison, a - 1) {
                let (a1, a2) = choose|a1: int, a2: int|
                    0 <= a1 < a2 < a - 1 && #[trigger] assoc_symbol(bison, a1)
                        == #[trigger] assoc_symbol(bison, a2) && bison.assoc@[a1].1
                        != bison.assoc@[a2].1;
                assert(contradictory_upto(bison, a));
            }
            assert forall|a1: int|
                0 <= a1 < a && #[trigger] assoc_symbol(bison, a1) == c implies declared_upto(
                bison,
                c,
                a,
            ) == Some(bison.assoc@[a1].1) by {
                if assoc_symbol(bison, a - 1) == c && a1 < a - 1 {
                    if bison.assoc@[a1].1 != bison.assoc@[a - 1].1 {
                        assert(assoc_symbol(bison, a1) == assoc_symbol(bison, a - 1));
                        assert(contradictory_upto(bison, a));
                    }
                }
            }
        }
    }
}

/// The declared precedence of each symbol, by id; or the fault of two
/// declarations that name one terminal and differ.
pub fn build_assoc(bison: &Bison, mapper: &IdMapper) -> (r: Result<Vec<Option<Assoc>>, GrammarError>)
    requires
        mapper.wf(),
        forall|c: ComponentView| #[trigger] mapper@.contains(c) <==> is_symbol(bison, c),
    ensures
        match r {
            Ok(assoc) => {
                &&& !contradictory_upto(bison, bison.assoc@.len() as int)
                &&& assoc@.len() == mapper@.len()
                &&& forall|id: int|
                    0 <= id < assoc@.len() ==> (#[trigger] assoc@[id]) == declared_upto(
                        bison,
                        mapper@[id],
                        bison.assoc@.len() as int,
                    )
            },
            Err(e) => e == GrammarError::ContradictoryAssociativity && contradictory_upto(
                bison,
                bison.assoc@.len() as int,
            ),
        },
{
    let n = mapper.len();
    let mut assoc: Vec<Option<Assoc>> = Vec::new();
    let mut k: usize = 0;
    while k < n
        invariant
            k <= n,
            assoc@.len() == k,
            forall|id: int| 0 <= id < k ==> (#[trigger] assoc@[id]) is None,
        decreases n - k,
    {
        assoc.push(None);
        k += 1;
    }
    let mut a: usize = 0;
    while a < bison.assoc.len()
        invariant
            a <= bison.assoc@.len(),
            n == mapper@.len(),
            mapper.wf(),
            forall|c: ComponentView| #[trigger] mapper@.contains(c) <==> is_symbol(bison, c),
            assoc@.len() == n,
            !contradictory_upto(bison, a as int),
            forall|id: int|
                0 <= id < n ==> (#[trigger] assoc@[id]) == declared_upto(
                    bison,
                    mapper@[id],
                    a as int,
                ),
        decreases bison.assoc@.len() - a,
    {
        let kind = TokenKind::from_name(bison.assoc[a].0.as_str());
        let symbol = Component::Terminal(kind);
        let declared = bison.assoc[a].1;
        proof {
            assert(symbol@ == assoc_symbol(bison, a as int));
            assert(in_assoc_upto(bison, symbol@, bison.assoc@.len() as int));
            assert(is_grammar_terminal(bison, symbol@));
            assert(mapper@.contains(symbol@));
            lemma_declared(bison, symbol@, a as int);
        }
        match mapper.to_component_id(&symbol) {
            Ok(id) => {
                match assoc[id as usize] {
                    Some(earlier) => {
                        if earlier != declared {
                            proof {
                                let a1 = choose|a1: int|
                                    0 <= a1 < a && #[trigger] assoc_symbol(bison, a1) == symbol@
                                        && bison.assoc@[a1].1 == earlier;
                                assert(assoc_symbol(bison, a1) == assoc_symbol(bison, a as int));
                                assert(contradictory_upto(bison, a + 1));
                                let (b1, b2) = choose|b1: int, b2: int|
                                    0 <= b1 < b2 < a + 1 && #[trigger] assoc_symbol(bison, b1)
                                        == #[trigger] assoc_symbol(bison, b2) && bison.assoc@[b1].1
                                        != bison.assoc@[b2].1;
                                assert(contradictory_upto(bison, bison.assoc@.len() as int));
                            }
                            return Err(GrammarError::ContradictoryAssociativity);
                        }
                    },
                    None => {},
                }
                let ghost before = assoc@;
                assoc.set(id as usize, Some(declared));
                proof {
                    assert(!contradictory_upto(bison, a + 1)) by {
                        if contradictory_upto(bison, a + 1) {
                            let (b1, b2) = choose|b1: int, b2: int|
                                0 <= b1 < b2 < a + 1 && #[trigger] assoc_symbol(bison, b1)
                                    == #[trigger] assoc_symbol(bison, b2) && bison.assoc@[b1].1
                                    != bison.assoc@[b2].1;
                            if b2 < a {
                                assert(contradictory_upto(bison, a as int));
                            } else {
                                assert(assoc_symbol(bison, b1) == symbol@);
                                assert(before[id as int] == Some(bison.assoc@[b1].1));
                            }
                        }
                    }
                    assert forall|j: int| 0 <= j < n implies (#[trigger] assoc@[j]) == declared_upto(
                        bison,
                        mapper@[j],
                        a + 1,
                    ) by {
                        if j != id {
                            assert(before[j] == assoc@[j]);
                            assert(mapper@[j] != mapper@[id as int]);
                        }
                    }
                }
            },
            Err(_) => {
                assert(false);
            },
        }
        a += 1;
    }
    Ok(assoc)
}

/// The precedence of the last symbol among the first `k` of a right-hand
/// side that is a terminal with a declared precedence.
pub open spec fn last_declared(
    assoc: Seq<Option<Assoc>>,
    comps: Seq<ComponentId>,
    nt: int,
    k: int,
) -> Option<Assoc>
    decreases k,
{
    if k <= 0 {
        None
    } else if comps[k - 1] < nt && assoc[comps[k - 1] as int] is Some {
        assoc[comps[k - 1] as int]
    } else {
        last_declared(assoc, comps, nt, k - 1)
    }
}

/// The precedence at which a rule reduces: that of the terminal of its
/// `%prec` tag, if it has one; else that of the last terminal of its
/// right-hand side that has a declared precedence.
pub open spec fn spec_reduce_priority(
    assoc: Seq<Option<Assoc>>,
    comps: Seq<ComponentId>,
    nt: int,
    prec: Option<ComponentId>,
) -> Option<Assoc> {
    match prec {
        Some(id) => assoc[id as int],
        None => last_declared(assoc, comps, nt, comps.len() as int),
    }
}

/// Computes the precedence at which a rule reduces.
pub fn reduce_priority(
    assoc: &Vec<Option<Assoc>>,
    comps: &Vec<ComponentId>,
    nt: usize,
    prec: Option<ComponentId>,
) -> (r: Option<Assoc>)
    requires
        nt <= assoc@.len(),
        prec is Some ==> prec->Some_0 < assoc@.len(),
    ensures
        r == spec_reduce_priority(assoc@, comps@, nt as int, prec),
{
    match prec {
        Some(id) => assoc[id as usize],
        None => {
            let mut k: usize = comps.len();
            while k > 0
                invariant
                    k <= comps@.len(),
                    nt <= assoc@.len(),
                    prec is None,
                    last_declared(assoc@, comps@, nt as int, comps@.len() as int) == last_declared(
                        assoc@,
                        comps@,
                        nt as int,
                        k as int,
                    ),
                decreases k,
            {
                let c = comps[k - 1] as usize;
                if c < nt {
                    match assoc[c] {
                        Some(a) => {
                            assert(last_declared(assoc@, comps@, nt as int, k as int)
                                == assoc@[c as int]);
                            return Some(a);
                        },
                        None => {},
                    }
                }
                assert(last_declared(assoc@, comps@, nt as int, k as int) == last_declared(
                    assoc@,
                    comps@,
                    nt as int,
                    k - 1,
                ));
                k -= 1;
            }
            None
        },
    }
}

/// The fault of rule `i`, if it has one: a symbol on its right-hand side
/// that the grammar does not know, or else a `%prec` tag that names a
/// terminal that the grammar does not know.
pub open spec fn rule_fault(bison: &Bison, i: int) -> Option<GrammarError> {
    let rule = bison.rules@[i];
    if exists|k: int|
        0 <= k < rule.components@.len() && !is_symbol(bison, (#[trigger] rule.components@[k])@) {
        Some(GrammarError::UndefinedNonTerminal)
    } else if rule.prec is Some && !is_symbol(bison, prec_symbol(rule)) {
        Some(GrammarError::UnknownSymbol)
    } else {
        None
    }
}

/// The terminal that the `%prec` tag of a rule names.
pub open spec fn prec_symbol(rule: Rule) -> ComponentView {
    ComponentView::Terminal(spec_token_kind_of(rule.prec->Some_0@))
}

/// The fault of the first rule from rule `from` on that has one.
pub open spec fn first_fault(bison: &Bison, from: int) -> Option<GrammarError>
    decreases bison.rules@.len() - from,
{
    if from < 0 || from >= bison.rules@.len() {
        None
    } else if rule_fault(bison, from) is Some {
        rule_fault(bison, from)
    } else {
        first_fault(bison, from + 1)
    }
}

/// The fault of a grammar, if it has one: more symbols than there are ids;
/// or else two associativity declarations that name one terminal and
/// differ; or else the fault of its first rule that has one.
pub open spec fn spec_error(bison: &Bison) -> Option<GrammarError> {
    if symbol_count(bison) > 0x10000 {
        Some(GrammarError::TooManySymbols)
    } else if contradictory_upto(bison, bison.assoc@.len() as int) {
        Some(GrammarError::ContradictoryAssociativity)
    } else {
        first_fault(bison, 0)
    }
}

/// The rules among the first `i` that have symbol `a` on the left, in
/// ascending order.
pub open spec fn rules_of(rules: Seq<LalrRule>, a: int, i: int) -> Seq<usize>
    decreases i,
{
    if i <= 0 {
        Seq::empty()
    } else if rules[i - 1].name_id == a {
        rules_of(rules, a, i - 1).push((i - 1) as usize)
    } else {
        rules_of(rules, a, i - 1)
    }
}

/// The rules of a symbol are among the rules, and have it on the left.
pub proof fn lemma_rules_of(rules: Seq<LalrRule>, a: int, i: int)
    requires
        0 <= i <= rules.len(),
        rules.len() <= usize::MAX,
    ensures
        forall|k: int|
            0 <= k < rules_of(rules, a, i).len() ==> (#[trigger] rules_of(rules, a, i)[k]) < i
                && rules[rules_of(rules, a, i)[k] as int].name_id == a,
        forall|r: int|
            0 <= r < i && (#[trigger] rules[r]).name_id == a ==> rules_of(rules, a, i).contains(
                r as usize,
            ),
    decreases i,
{
    if i > 0 {
        lemma_rules_of(rules, a, i - 1);
        let prev = rules_of(rules, a, i - 1);
        let cur = rules_of(rules, a, i);
        assert forall|k: int| 0 <= k < cur.len() implies (#[trigger] cur[k]) < i
            && rules[cur[k] as int].name_id == a by {
            if k < prev.len() {
                assert(cur[k] == prev[k]);
            }
        }
        assert forall|r: int| 0 <= r < i && (#[trigger] rules[r]).name_id == a implies cur.contains(
            r as usize,
        ) by {
            if r < i - 1 {
                let k = choose|k: int| 0 <= k < prev.len() && prev[k] == r as usize;
                assert(cur[k] == r as usize);
            } else {
                assert(cur[cur.len() - 1] == r as usize);
            }
        }
    }
}

/// Whether rule `i` is the rule of that position of the grammar, over ids.
pub open spec fn rule_matches(
    bison: &Bison,
    mapper: Seq<ComponentView>,
    assoc: Seq<Option<Assoc>>,
    nt: int,
    rule: LalrRule,
    i: int,
) -> bool {
    let from = bison.rules@[i];
    &&& rule.name_id < mapper.len()
    &&& mapper[rule.name_id as int] == ComponentView::NonTerminal(from.name@)
    &&& rule.components@.len() == from.components@.len()
    &&& forall|k: int|
        0 <= k < rule.components@.len() ==> (#[trigger] rule.components@[k]) < mapper.len()
            && mapper[rule.components@[k] as int] == from.components@[k]@
    &&& match from.prec {
        Some(p) => exists|id: ComponentId|
            id < mapper.len() && #[trigger] mapper[id as int] == prec_symbol(from)
                && rule.reduce_priority == assoc[id as int],
        None => rule.reduce_priority == last_declared(
            assoc,
            rule.components@,
            nt,
            rule.components@.len() as int,
        ),
    }
}

/// Turns rule `i` of a grammar into a rule over ids, or finds its fault.
pub fn convert_rule(
    bison: &Bison,
    mapper: &IdMapper,
    assoc: &Vec<Option<Assoc>>,
    nt: usize,
    i: usize,
) -> (r: Result<LalrRule, GrammarError>)
    requires
        mapper.wf(),
        forall|c: ComponentView| #[trigger] mapper@.contains(c) <==> is_symbol(bison, c),
        forall|id: int|
            0 <= id < mapper@.len() ==> ((#[trigger] mapper@[id]) is Terminal) == (id < nt),
        assoc@.len() == mapper@.len(),
        nt <= mapper@.len(),
        i < bison.rules@.len(),
    ensures
        match r {
            Ok(rule) => {
                &&& rule_fault(bison, i as int) is None
                &&& rule_matches(bison, mapper@, assoc@, nt as int, rule, i as int)
                &&& rule.name_id >= nt
            },
            Err(e) => rule_fault(bison, i as int) == Some(e),
        },
{
    let from = &bison.rules[i];
    let mut components: Vec<ComponentId> = Vec::new();
    let mut k: usize = 0;
    while k < from.components.len()
        invariant
            k <= from.components@.len(),
            *from == bison.rules@[i as int],
            mapper.wf(),
            forall|c: ComponentView| #[trigger] mapper@.contains(c) <==> is_symbol(bison, c),
            components@.len() == k,
            forall|m: int|
                0 <= m < k ==> (#[trigger] components@[m]) < mapper@.len()
                    && mapper@[components@[m] as int] == from.components@[m]@,
            forall|m: int| 0 <= m < k ==> mapper@.contains((#[trigger] from.components@[m])@),
        decreases from.components@.len() - k,
    {
        match mapper.to_component_id(&from.components[k]) {
            Ok(id) => {
                components.push(id);
            },
            Err(_) => {
                proof {
                    assert(!is_symbol(bison, from.components@[k as int]@));
                }
                return Err(GrammarError::UndefinedNonTerminal);
            },
        }
        k += 1;
    }
    proof {
        assert forall|m: int| 0 <= m < from.components@.len() implies is_symbol(
            bison,
            (#[trigger] from.components@[m])@,
        ) by {
            assert(mapper@.contains(from.components@[m]@));
        }
    }
    let prec = match &from.prec {
        Some(p) => {
            let symbol = Component::Terminal(TokenKind::from_name(p.as_str()));
            assert(symbol@ == prec_symbol(*from));
            match mapper.to_component_id(&symbol) {
                Ok(id) => Some(id),
                Err(_) => {
                    return Err(GrammarError::UnknownSymbol);
                },
            }
        },
        None => None,
    };
    let name = Component::NonTerminal(from.name.clone());
    proof {
        assert(names_upto(bison.rules@, name@, bison.rules@.len() as int));
        assert(is_symbol(bison, name@));
        assert(mapper@.contains(name@));
        if from.prec is Some {
            assert(mapper@.contains(prec_symbol(*from)));
        }
    }
    match mapper.to_component_id(&name) {
        Ok(name_id) => {
            let priority = reduce_priority(assoc, &components, nt, prec);
            Ok(LalrRule { name_id, components, reduce_priority: priority })
        },
        Err(_) => {
            assert(false);
            Err(GrammarError::UndefinedNonTerminal)
        },
    }
}

/// Whether `after` holds the rule indices of `before`, each one higher.
pub open spec fn indices_shifted(before: Seq<Vec<usize>>, after: Seq<Vec<usize>>) -> bool {
    &&& after.len() == before.len()
    &&& forall|a: int| 0 <= a < before.len() ==> (#[trigger] after[a])@.len() == before[a]@.len()
    &&& forall|a: int, k: int|
        0 <= a < before.len() && 0 <= k < before[a]@.len() ==> (#[trigger] after[a]@[k])
            == before[a]@[k] + 1
}

/// The rule indices that each symbol knows, each one higher: what they are
/// once a rule stands before the others.
pub fn shift_indices(rows: &Vec<Vec<usize>>, bound: usize) -> (shifted: Vec<Vec<usize>>)
    requires
        forall|a: int, k: int|
            0 <= a < rows@.len() && 0 <= k < rows@[a]@.len() ==> (#[trigger] rows@[a]@[k]) < bound,
    ensures
        indices_shifted(rows@, shifted@),
{
    let mut shifted: Vec<Vec<usize>> = Vec::new();
    let mut a: usize = 0;
    while a < rows.len()
        invariant
            a <= rows@.len(),
            forall|b: int, k: int|
                0 <= b < rows@.len() && 0 <= k < rows@[b]@.len() ==> (#[trigger] rows@[b]@[k])
                    < bound,
            shifted@.len() == a,
            forall|b: int| 0 <= b < a ==> (#[trigger] shifted@[b])@.len() == rows@[b]@.len(),
            forall|b: int, k: int|
                0 <= b < a && 0 <= k < rows@[b]@.len() ==> (#[trigger] shifted@[b]@[k]) == rows@[b]@[k]
                    + 1,
        decreases rows@.len() - a,
    {
        let mut row: Vec<usize> = Vec::new();
        let mut k: usize = 0;
        while k < rows[a].len()
            invariant
                a < rows@.len(),
                k <= rows@[a as int]@.len(),
                forall|j: int| 0 <= j < rows@[a as int]@.len() ==> (#[trigger] rows@[a as int]@[j]) < bound,
                row@.len() == k,
                forall|j: int| 0 <= j < k ==> (#[trigger] row@[j]) == rows@[a as int]@[j] + 1,
            decreases rows@[a as int]@.len() - k,
        {
            row.push(rows[a][k] + 1);
            k += 1;
        }
        shifted.push(row);
        a += 1;
    }
    shifted
}

} // verus!
