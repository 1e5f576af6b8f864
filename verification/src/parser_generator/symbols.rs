//! The order in which terminals get their ids: by the bytes of their names.

use vstd::prelude::*;
use vstd::string::StringSliceAdditionalSpecFns;
use vstd::utf8::encode_utf8;
use super::bison::{Bison, Component, ComponentView, Rule};
use super::id_mapper::IdMapper;
use super::lexer::{spec_token_kind_of, TokenKind, TokenKindView};

verus! {

/// Whether `a` comes no later than `b` in the order of byte strings: at the
/// first position where they differ `a` has the smaller byte, or `a` is a
/// prefix of `b`.
pub open spec fn lex_le(a: Seq<u8>, b: Seq<u8>) -> bool
    decreases a.len(),
{
    if a.len() == 0 {
        true
    } else if b.len() == 0 {
        false
    } else if a[0] != b[0] {
        a[0] < b[0]
    } else {
        lex_le(a.skip(1), b.skip(1))
    }
}

/// Of two byte strings one comes no later than the other.
pub proof fn lemma_lex_total(a: Seq<u8>, b: Seq<u8>)
    ensures
        lex_le(a, b) || lex_le(b, a),
    decreases a.len(),
{
    if a.len() > 0 && b.len() > 0 && a[0] == b[0] {
        lemma_lex_total(a.skip(1), b.skip(1));
    }
}

/// The order of byte strings is transitive.
pub proof fn lemma_lex_trans(a: Seq<u8>, b: Seq<u8>, c: Seq<u8>)
    requires
        lex_le(a, b),
        lex_le(b, c),
    ensures
        lex_le(a, c),
    decreases a.len(),
{
    if a.len() > 0 && b.len() > 0 && c.len() > 0 && a[0] == b[0] && b[0] == c[0] {
        lemma_lex_trans(a.skip(1), b.skip(1), c.skip(1));
    }
}

/// Compares two byte strings.
pub fn bytes_le(a: &[u8], b: &[u8]) -> (r: bool)
    ensures
        r == lex_le(a@, b@),
{
    let mut i: usize = 0;
    assert(a@.skip(0) =~= a@ && b@.skip(0) =~= b@);
    while i < a.len() && i < b.len()
        invariant
            i <= a@.len(),
            i <= b@.len(),
            lex_le(a@, b@) == lex_le(a@.skip(i as int), b@.skip(i as int)),
        decreases a@.len() - i,
    {
        let ghost ra = a@.skip(i as int);
        let ghost rb = b@.skip(i as int);
        assert(ra[0] == a@[i as int] && rb[0] == b@[i as int]);
        if a[i] != b[i] {
            return a[i] < b[i];
        }
        assert(ra.skip(1) =~= a@.skip(i + 1));
        assert(rb.skip(1) =~= b@.skip(i + 1));
        i += 1;
    }
    assert(a@.skip(i as int).len() == a@.len() - i);
    assert(b@.skip(i as int).len() == b@.len() - i);
    i == a.len()
}

/// The bytes by which a symbol is ordered: those of its name.
pub open spec fn sort_key(c: ComponentView) -> Seq<u8> {
    encode_utf8(c.name())
}

/// Whether symbols are in the order of their names.
pub open spec fn sorted_by_name(symbols: Seq<ComponentView>) -> bool {
    forall|a: int, b: int|
        0 <= a < b < symbols.len() ==> lex_le(sort_key(#[trigger] symbols[a]), sort_key(#[trigger] symbols[b]))
}

/// The views of a list of symbols, in order.
pub open spec fn views(symbols: Seq<Component>) -> Seq<ComponentView> {
    symbols.map_values(|c: Component| c@)
}

/// The place of a symbol in a list: behind the leading symbols whose names
/// come no later than its own.
pub open spec fn insert_at(list: Seq<ComponentView>, c: ComponentView) -> int
    decreases list.len(),
{
    if list.len() == 0 || !lex_le(sort_key(list[0]), sort_key(c)) {
        0
    } else {
        1 + insert_at(list.skip(1), c)
    }
}

/// A list with one more symbol at its place, unless the list holds it
/// already.
pub open spec fn with_symbol(list: Seq<ComponentView>, c: ComponentView) -> Seq<ComponentView> {
    if list.contains(c) {
        list
    } else {
        list.insert(insert_at(list, c), c)
    }
}

/// Puts a symbol into a list that is in the order of names and holds no
/// symbol twice: after the symbols whose names come no later than its own,
/// unless the list holds it already.
pub fn insert_sorted(symbols: &mut Vec<Component>, c: Component)
    requires
        sorted_by_name(views(old(symbols)@)),
        views(old(symbols)@).no_duplicates(),
    ensures
        views(final(symbols)@) == with_symbol(views(old(symbols)@), c@),
        sorted_by_name(views(final(symbols)@)),
        views(final(symbols)@).no_duplicates(),
        old(symbols)@.len() <= final(symbols)@.len() <= old(symbols)@.len() + 1,
        forall|x: ComponentView|
            #[trigger] views(final(symbols)@).contains(x) <==> (views(old(symbols)@).contains(x) || x
                == c@),
{
    let ghost before = views(symbols@);
    let mut k: usize = 0;
    while k < symbols.len()
        invariant
            k <= symbols@.len(),
            symbols@ == old(symbols)@,
            before == views(symbols@),
            sorted_by_name(before),
            before.no_duplicates(),
            forall|m: int| 0 <= m < k ==> (#[trigger] before[m]) != c@,
        decreases symbols@.len() - k,
    {
        if symbols[k].same(&c) {
            assert(before[k as int] == c@);
            return ;
        }
        k += 1;
    }
    assert(!before.contains(c@));
    let mut pos: usize = 0;
    let mut stop = false;
    assert(before.skip(0) =~= before);
    while pos < symbols.len() && !stop
        invariant
            pos <= symbols@.len(),
            symbols@ == old(symbols)@,
            before == views(symbols@),
            insert_at(before, c@) == pos + insert_at(before.skip(pos as int), c@),
            forall|m: int|
                0 <= m < pos ==> lex_le(sort_key(#[trigger] before[m]), sort_key(c@)),
            stop ==> pos < symbols@.len() && !lex_le(sort_key(before[pos as int]), sort_key(c@)),
        decreases symbols@.len() - pos + if stop { 0int } else { 1int },
    {
        let le = bytes_le(
            symbols[pos].to_rule_identifier().as_str().as_bytes(),
            c.to_rule_identifier().as_str().as_bytes(),
        );
        assert(before.skip(pos as int)[0] == before[pos as int]);
        if le {
            assert(before.skip(pos as int).skip(1) =~= before.skip(pos + 1));
            pos += 1;
        } else {
            stop = true;
        }
    }
    assert(insert_at(before, c@) == pos);
    symbols.insert(pos, c);
    proof {
        let after = views(symbols@);
        assert(after =~= before.insert(pos as int, c@));
        assert forall|a: int, b: int| 0 <= a < b < after.len() implies lex_le(
            sort_key(#[trigger] after[a]),
            sort_key(#[trigger] after[b]),
        ) by {
            if b == pos {
                assert(after[a] == before[a]);
            } else if a == pos {
                assert(after[b] == before[b - 1]);
                lemma_lex_total(sort_key(before[pos as int]), sort_key(c@));
                if b - 1 > pos {
                    lemma_lex_trans(
                        sort_key(c@),
                        sort_key(before[pos as int]),
                        sort_key(before[b - 1]),
                    );
                }
            } else {
                let a0 = if a < pos { a } else { a - 1 };
                let b0 = if b < pos { b } else { b - 1 };
                assert(after[a] == before[a0]);
                assert(after[b] == before[b0]);
            }
        }
        assert forall|a: int, b: int| 0 <= a < b < after.len() implies after[a] != after[b] by {
            let a0 = if a < pos { a } else { a - 1 };
            let b0 = if b < pos { b } else { b - 1 };
            if a != pos && b != pos {
                assert(after[a] == before[a0]);
                assert(after[b] == before[b0]);
            } else if a == pos {
                assert(after[b] == before[b0]);
            } else {
                assert(after[a] == before[a0]);
            }
        }
        assert forall|x: ComponentView| #[trigger] after.contains(x) <==> (before.contains(x) || x
            == c@) by {
            if after.contains(x) {
                let m = choose|m: int| 0 <= m < after.len() && after[m] == x;
                if m < pos {
                    assert(before[m] == x);
                } else if m > pos {
                    assert(before[m - 1] == x);
                }
            }
            if before.contains(x) {
                let m = choose|m: int| 0 <= m < before.len() && before[m] == x;
                if m < pos {
                    assert(after[m] == x);
                } else {
                    assert(after[m + 1] == x);
                }
            }
            if x == c@ {
                assert(after[pos as int] == x);
            }
        }
    }
}

/// The terminal that marks the end of the input.
pub open spec fn end_symbol() -> ComponentView {
    ComponentView::Terminal(TokenKindView::RAW("$end"@))
}

/// The non-terminal that derives the start symbol.
pub open spec fn accept_symbol() -> ComponentView {
    ComponentView::NonTerminal("$accept"@)
}

/// Whether `c` stands on the right-hand side of one of the first `i` rules,
/// or among the first `k` symbols of the right-hand side of rule `i`.
pub open spec fn in_rules_upto(rules: Seq<Rule>, c: ComponentView, i: int, k: int) -> bool {
    exists|i2: int, k2: int|
        ((0 <= i2 < i && 0 <= k2 < rules[i2].components@.len()) || (i2 == i && 0 <= k2 < k))
            && (#[trigger] rules[i2].components@[k2])@ == c
}

/// The terminal that an associativity declaration names.
pub open spec fn assoc_symbol(bison: &Bison, a: int) -> ComponentView {
    ComponentView::Terminal(spec_token_kind_of(bison.assoc@[a].0@))
}

/// Whether one of the first `a` associativity declarations names `c`.
pub open spec fn in_assoc_upto(bison: &Bison, c: ComponentView, a: int) -> bool {
    exists|a2: int| 0 <= a2 < a && #[trigger] assoc_symbol(bison, a2) == c
}

/// Whether `c` is a terminal of the grammar: one on a right-hand side, one
/// with a declared associativity, or the end marker.
pub open spec fn is_grammar_terminal(bison: &Bison, c: ComponentView) -> bool {
    c is Terminal && (in_rules_upto(bison.rules@, c, bison.rules@.len() as int, 0) || in_assoc_upto(
        bison,
        c,
        bison.assoc@.len() as int,
    ) || c == end_symbol())
}

/// Whether one of the first `i` rules has the non-terminal `c` on the left.
pub open spec fn names_upto(rules: Seq<Rule>, c: ComponentView, i: int) -> bool {
    exists|i2: int| 0 <= i2 < i && ComponentView::NonTerminal((#[trigger] rules[i2]).name@) == c
}

/// Whether `c` is a non-terminal of the grammar: the left-hand side of a
/// rule, or the non-terminal that derives the start symbol.
pub open spec fn is_grammar_nonterminal(bison: &Bison, c: ComponentView) -> bool {
    names_upto(bison.rules@, c, bison.rules@.len() as int) || c == accept_symbol()
}

/// Whether `c` is a symbol of the grammar.
pub open spec fn is_symbol(bison: &Bison, c: ComponentView) -> bool {
    is_grammar_terminal(bison, c) || is_grammar_nonterminal(bison, c)
}

/// A list with one more symbol at its place, if the symbol is a terminal.
pub open spec fn with_terminal(list: Seq<ComponentView>, c: ComponentView) -> Seq<ComponentView> {
    if c is Terminal {
        with_symbol(list, c)
    } else {
        list
    }
}

/// The terminals on the right-hand sides of the first `i` rules and among
/// the first `k` symbols of the right-hand side of rule `i`, each put at its
/// place in the order in which the rules mention them.
pub open spec fn terminals_of_rules(rules: Seq<Rule>, i: int, k: int) -> Seq<ComponentView>
    decreases i, k,
{
    if k > 0 {
        with_terminal(terminals_of_rules(rules, i, k - 1), rules[i].components@[k - 1]@)
    } else if i > 0 {
        terminals_of_rules(rules, i - 1, rules[i - 1].components@.len() as int)
    } else {
        Seq::empty()
    }
}

/// The terminals of the rules and of the first `a` associativity
/// declarations.
pub open spec fn terminals_upto(bison: &Bison, a: int) -> Seq<ComponentView>
    decreases a,
{
    if a <= 0 {
        terminals_of_rules(bison.rules@, bison.rules@.len() as int, 0)
    } else {
        with_symbol(terminals_upto(bison, a - 1), assoc_symbol(bison, a - 1))
    }
}

/// The terminals of a grammar in the order of their ids: those of the
/// rules, those of the associativity declarations and the end marker, each
/// put at its place in this order of mention.
pub open spec fn spec_terminals(bison: &Bison) -> Seq<ComponentView> {
    with_symbol(terminals_upto(bison, bison.assoc@.len() as int), end_symbol())
}

/// The left-hand sides of the first `i` rules, each once, in the order in
/// which the rules first name them.
pub open spec fn names_of_rules(rules: Seq<Rule>, i: int) -> Seq<ComponentView>
    decreases i,
{
    if i <= 0 {
        Seq::empty()
    } else {
        let before = names_of_rules(rules, i - 1);
        let c = ComponentView::NonTerminal(rules[i - 1].name@);
        if before.contains(c) {
            before
        } else {
            before.push(c)
        }
    }
}

/// The non-terminals of a grammar in the order of their ids: the left-hand
/// sides of the rules, then the non-terminal that derives the start symbol.
pub open spec fn spec_nonterminals(bison: &Bison) -> Seq<ComponentView> {
    let names = names_of_rules(bison.rules@, bison.rules@.len() as int);
    if names.contains(accept_symbol()) {
        names
    } else {
        names.push(accept_symbol())
    }
}

/// The number of symbols of a grammar.
pub open spec fn symbol_count(bison: &Bison) -> nat {
    spec_terminals(bison).len() + spec_nonterminals(bison).len()
}

/// The terminals of a grammar, each once, in the order of their names;
/// among terminals of one name, in the order in which the grammar first
/// mentions them.
pub fn collect_terminals(bison: &Bison) -> (terminals: Vec<Component>)
    ensures
        views(terminals@) == spec_terminals(bison),
        sorted_by_name(views(terminals@)),
        views(terminals@).no_duplicates(),
        forall|c: ComponentView|
            #[trigger] views(terminals@).contains(c) <==> is_grammar_terminal(bison, c),
{
    let mut terminals: Vec<Component> = Vec::new();
    let mut i: usize = 0;
    assert(views(terminals@) =~= Seq::<ComponentView>::empty());
    while i < bison.rules.len()
        invariant
            i <= bison.rules@.len(),
            sorted_by_name(views(terminals@)),
            views(terminals@).no_duplicates(),
            views(terminals@) == terminals_of_rules(bison.rules@, i as int, 0),
            forall|c: ComponentView|
                #[trigger] views(terminals@).contains(c) <==> (c is Terminal && in_rules_upto(
                    bison.rules@,
                    c,
                    i as int,
                    0,
                )),
        decreases bison.rules@.len() - i,
    {
        let mut k: usize = 0;
        while k < bison.rules[i].components.len()
            invariant
                i < bison.rules@.len(),
                k <= bison.rules@[i as int].components@.len(),
                sorted_by_name(views(terminals@)),
                views(terminals@).no_duplicates(),
                views(terminals@) == terminals_of_rules(bison.rules@, i as int, k as int),
                forall|c: ComponentView|
                    #[trigger] views(terminals@).contains(c) <==> (c is Terminal && in_rules_upto(
                        bison.rules@,
                        c,
                        i as int,
                        k as int,
                    )),
            decreases bison.rules@[i as int].components@.len() - k,
        {
            let ghost before = views(terminals@);
            let ghost this = bison.rules@[i as int].components@[k as int]@;
            if bison.rules[i].components[k].is_terminal() {
                insert_sorted(&mut terminals, bison.rules[i].components[k].clone());
            }
            proof {
                let after = views(terminals@);
                assert forall|c: ComponentView| #[trigger] after.contains(c) <==> (c is Terminal
                    && in_rules_upto(bison.rules@, c, i as int, k + 1)) by {
                    if in_rules_upto(bison.rules@, c, i as int, k + 1) {
                        let (i2, k2) = choose|i2: int, k2: int|
                            ((0 <= i2 < i && 0 <= k2 < bison.rules@[i2].components@.len()) || (i2
                                == i && 0 <= k2 < k + 1)) && (
                            #[trigger] bison.rules@[i2].components@[k2])@ == c;
                        if !(i2 == i && k2 == k) {
                            assert(in_rules_upto(bison.rules@, c, i as int, k as int));
                        }
                    }
                    if in_rules_upto(bison.rules@, c, i as int, k as int) {
                        let (i2, k2) = choose|i2: int, k2: int|
                            ((0 <= i2 < i && 0 <= k2 < bison.rules@[i2].components@.len()) || (i2
                                == i && 0 <= k2 < k)) && (
                            #[trigger] bison.rules@[i2].components@[k2])@ == c;
                        assert(in_rules_upto(bison.rules@, c, i as int, k + 1));
                    }
                    if c == this {
                        assert(bison.rules@[i as int].components@[k as int]@ == c);
                        assert(in_rules_upto(bison.rules@, c, i as int, k + 1));
                    }
                }
            }
            k += 1;
        }
        proof {
            let len = bison.rules@[i as int].components@.len() as int;
            assert forall|c: ComponentView|
                in_rules_upto(bison.rules@, c, i as int, len) <==> in_rules_upto(
                    bison.rules@,
                    c,
                    i + 1,
                    0,
                ) by {
                if in_rules_upto(bison.rules@, c, i as int, len) {
                    let (i2, k2) = choose|i2: int, k2: int|
                        ((0 <= i2 < i && 0 <= k2 < bison.rules@[i2].components@.len()) || (i2 == i
                            && 0 <= k2 < len)) && (#[trigger] bison.rules@[i2].components@[k2])@
                            == c;
                    assert(in_rules_upto(bison.rules@, c, i + 1, 0));
                }
                if in_rules_upto(bison.rules@, c, i + 1, 0) {
                    let (i2, k2) = choose|i2: int, k2: int|
                        ((0 <= i2 < i + 1 && 0 <= k2 < bison.rules@[i2].components@.len()) || (i2
                            == i + 1 && 0 <= k2 < 0)) && (
                        #[trigger] bison.rules@[i2].components@[k2])@ == c;
                    assert(in_rules_upto(bison.rules@, c, i as int, len));
                }
            }
        }
        i += 1;
    }
    let mut a: usize = 0;
    while a < bison.assoc.len()
        invariant
            a <= bison.assoc@.len(),
            sorted_by_name(views(terminals@)),
            views(terminals@).no_duplicates(),
            views(terminals@) == terminals_upto(bison, a as int),
            forall|c: ComponentView|
                #[trigger] views(terminals@).contains(c) <==> (c is Terminal && (in_rules_upto(
                    bison.rules@,
                    c,
                    bison.rules@.len() as int,
                    0,
                ) || in_assoc_upto(bison, c, a as int))),
        decreases bison.assoc@.len() - a,
    {
        let kind = TokenKind::from_name(bison.assoc[a].0.as_str());
        let ghost this = assoc_symbol(bison, a as int);
        insert_sorted(&mut terminals, Component::Terminal(kind));
        proof {
            let after = views(terminals@);
            assert forall|c: ComponentView| #[trigger] after.contains(c) <==> (c is Terminal && (
            in_rules_upto(bison.rules@, c, bison.rules@.len() as int, 0) || in_assoc_upto(
                bison,
                c,
                a + 1,
            ))) by {
                if in_assoc_upto(bison, c, a + 1) {
                    let a2 = choose|a2: int| 0 <= a2 < a + 1 && #[trigger] assoc_symbol(bison, a2) == c;
                    if a2 != a {
                        assert(in_assoc_upto(bison, c, a as int));
                    }
                }
                if in_assoc_upto(bison, c, a as int) {
                    let a2 = choose|a2: int| 0 <= a2 < a && #[trigger] assoc_symbol(bison, a2) == c;
                    assert(in_assoc_upto(bison, c, a + 1));
                }
                if c == this {
                    assert(in_assoc_upto(bison, c, a + 1));
                }
            }
        }
        a += 1;
    }
    let ghost before = views(terminals@);
    insert_sorted(&mut terminals, end_component());
    proof {
        let after = views(terminals@);
        assert forall|c: ComponentView| #[trigger] after.contains(c) <==> is_grammar_terminal(bison, c) by {
            assert(after.contains(c) <==> (before.contains(c) || c == end_symbol()));
            assert(before.contains(c) <==> (c is Terminal && (in_rules_upto(
                bison.rules@,
                c,
                bison.rules@.len() as int,
                0,
            ) || in_assoc_upto(bison, c, bison.assoc@.len() as int))));
        }
    }
    terminals
}

/// A list of terminals followed by other symbols holds a non-terminal
/// exactly if the second part holds it.
proof fn lemma_contains_behind(front: Seq<ComponentView>, back: Seq<ComponentView>, c: ComponentView)
    requires
        forall|m: int| 0 <= m < front.len() ==> (#[trigger] front[m]) is Terminal,
        !(c is Terminal),
    ensures
        (front + back).contains(c) == back.contains(c),
{
    let all = front + back;
    if all.contains(c) {
        let m = choose|m: int| 0 <= m < all.len() && all[m] == c;
        assert(m >= front.len());
        assert(back[m - front.len()] == c);
    }
    if back.contains(c) {
        let m = choose|m: int| 0 <= m < back.len() && back[m] == c;
        assert(all[m + front.len()] == c);
    }
}

/// The first rules name no more non-terminals than more of them do.
pub proof fn lemma_names_grow(rules: Seq<Rule>, i: int, j: int)
    requires
        0 <= i <= j,
    ensures
        names_of_rules(rules, i).len() <= names_of_rules(rules, j).len(),
    decreases j,
{
    if i < j {
        lemma_names_grow(rules, i, j - 1);
    }
}

/// Gives every symbol of a grammar its id: the terminals in the order
/// given, then the left-hand sides of the rules in the order in which the
/// rules first name them, then the non-terminal that derives the start
/// symbol. There is no numbering where the symbols are more than the ids.
pub fn number_symbols(bison: &Bison, terminals: &Vec<Component>) -> (r: Option<IdMapper>)
    requires
        views(terminals@).no_duplicates(),
        forall|c: ComponentView|
            #[trigger] views(terminals@).contains(c) <==> is_grammar_terminal(bison, c),
    ensures
        match r {
            Some(mapper) => {
                &&& mapper.wf()
                &&& mapper@ == views(terminals@) + spec_nonterminals(bison)
                &&& terminals@.len() < mapper@.len()
                &&& mapper@.subrange(0, terminals@.len() as int) == views(terminals@)
                &&& forall|id: int|
                    0 <= id < mapper@.len() ==> ((#[trigger] mapper@[id]) is Terminal) == (id
                        < terminals@.len())
                &&& forall|c: ComponentView| #[trigger] mapper@.contains(c) <==> is_symbol(bison, c)
            },
            None => terminals@.len() + spec_nonterminals(bison).len() > 0x10000,
        },
{
    let mut mapper = IdMapper::new();
    let nt = terminals.len();
    let ghost tv = views(terminals@);
    if nt > 0x10000 {
        return None;
    }
    let mut k: usize = 0;
    while k < nt
        invariant
            k <= nt,
            nt == terminals@.len(),
            tv == views(terminals@),
            tv.no_duplicates(),
            nt <= 0x10000,
            mapper.wf(),
            mapper@ == tv.subrange(0, k as int),
        decreases nt - k,
    {
        let ghost before = mapper@;
        proof {
            if before.contains(tv[k as int]) {
                let m = choose|m: int| 0 <= m < before.len() && before[m] == tv[k as int];
                assert(tv[m] == tv[k as int]);
            }
        }
        mapper.insert(terminals[k].clone());
        assert(mapper@ =~= tv.subrange(0, k + 1));
        k += 1;
    }
    assert(mapper@ =~= tv);
    assert(mapper@ =~= tv + names_of_rules(bison.rules@, 0));
    proof {
        assert forall|id: int| 0 <= id < mapper@.len() implies (#[trigger] mapper@[id]) is Terminal by {
            assert(tv.contains(tv[id]));
        }
    }
    let mut i: usize = 0;
    while i < bison.rules.len()
        invariant
            i <= bison.rules@.len(),
            nt == terminals@.len(),
            tv == views(terminals@),
            nt <= 0x10000,
            mapper.wf(),
            nt <= mapper@.len() <= nt + i,
            mapper@.subrange(0, nt as int) == tv,
            mapper@ == tv + names_of_rules(bison.rules@, i as int),
            forall|c: ComponentView| #[trigger] tv.contains(c) <==> is_grammar_terminal(bison, c),
            forall|id: int|
                0 <= id < mapper@.len() ==> ((#[trigger] mapper@[id]) is Terminal) == (id < nt),
            forall|c: ComponentView|
                #[trigger] mapper@.contains(c) <==> (tv.contains(c) || names_upto(
                    bison.rules@,
                    c,
                    i as int,
                )),
        decreases bison.rules@.len() - i,
    {
        let ghost before = mapper@;
        let name = Component::NonTerminal(bison.rules[i].name.clone());
        let ghost this = name@;
        if mapper.len() >= 0x10000 {
            match mapper.to_component_id(&name) {
                Ok(_) => {},
                Err(_) => {
                    proof {
                        lemma_contains_behind(tv, names_of_rules(bison.rules@, i as int), this);
                        lemma_names_grow(bison.rules@, i + 1, bison.rules@.len() as int);
                    }
                    return None;
                },
            }
        }
        mapper.insert(name);
        proof {
            let after = mapper@;
            let names = names_of_rules(bison.rules@, i as int);
            assert(after.subrange(0, nt as int) =~= before.subrange(0, nt as int));
            lemma_contains_behind(tv, names, this);
            assert((tv + names).push(this) =~= tv + names.push(this));
            assert forall|c: ComponentView| #[trigger] after.contains(c) <==> (tv.contains(c)
                || names_upto(bison.rules@, c, i + 1)) by {
                if after.contains(c) {
                    let m = choose|m: int| 0 <= m < after.len() && after[m] == c;
                    if m < before.len() {
                        assert(before[m] == c);
                        assert(before.contains(c));
                    } else {
                        assert(c == this);
                    }
                }
                if before.contains(c) {
                    let m = choose|m: int| 0 <= m < before.len() && before[m] == c;
                    assert(after[m] == c);
                }
                if names_upto(bison.rules@, c, i + 1) {
                    let i2 = choose|i2: int|
                        0 <= i2 < i + 1 && ComponentView::NonTerminal(
                            (#[trigger] bison.rules@[i2]).name@,
                        ) == c;
                    if i2 != i {
                        assert(names_upto(bison.rules@, c, i as int));
                    } else {
                        assert(c == this);
                        if !before.contains(this) {
                            assert(after[before.len() as int] == this);
                        }
                    }
                }
                if names_upto(bison.rules@, c, i as int) {
                    let i2 = choose|i2: int|
                        0 <= i2 < i && ComponentView::NonTerminal(
                            (#[trigger] bison.rules@[i2]).name@,
                        ) == c;
                    assert(names_upto(bison.rules@, c, i + 1));
                }
                if c == this {
                    assert(ComponentView::NonTerminal(bison.rules@[i as int].name@) == c);
                    assert(names_upto(bison.rules@, c, i + 1));
                }
            }
            assert forall|id: int| 0 <= id < after.len() implies ((#[trigger] after[id]) is Terminal)
                == (id < nt) by {
                if id < before.len() {
                    assert(after[id] == before[id]);
                }
            }
        }
        i += 1;
    }
    let ghost before = mapper@;
    if mapper.len() >= 0x10000 {
        match mapper.to_component_id(&accept_component()) {
            Ok(_) => {},
            Err(_) => {
                proof {
                    lemma_contains_behind(
                        tv,
                        names_of_rules(bison.rules@, bison.rules@.len() as int),
                        accept_symbol(),
                    );
                }
                return None;
            },
        }
    }
    mapper.insert(accept_component());
    proof {
        let after = mapper@;
        let names = names_of_rules(bison.rules@, bison.rules@.len() as int);
        assert(after.subrange(0, nt as int) =~= before.subrange(0, nt as int));
        lemma_contains_behind(tv, names, accept_symbol());
        assert((tv + names).push(accept_symbol()) =~= tv + names.push(accept_symbol()));
        assert(!tv.contains(accept_symbol())) by {
            if tv.contains(accept_symbol()) {
                assert(is_grammar_terminal(bison, accept_symbol()));
            }
        }
        if before.contains(accept_symbol()) {
            let m = choose|m: int| 0 <= m < before.len() && before[m] == accept_symbol();
            if m < nt {
                assert(tv[m] == before.subrange(0, nt as int)[m]);
                assert(tv.contains(accept_symbol()));
            }
        }
        assert(after.len() > nt);
        assert forall|c: ComponentView| #[trigger] after.contains(c) <==> is_symbol(bison, c) by {
            if after.contains(c) {
                let m = choose|m: int| 0 <= m < after.len() && after[m] == c;
                if m < before.len() {
                    assert(before[m] == c);
                    assert(before.contains(c));
                }
            }
            if before.contains(c) {
                let m = choose|m: int| 0 <= m < before.len() && before[m] == c;
                assert(after[m] == c);
            }
            if c == accept_symbol() && !before.contains(c) {
                assert(after[before.len() as int] == c);
            }
        }
        assert forall|id: int| 0 <= id < after.len() implies ((#[trigger] after[id]) is Terminal)
            == (id < nt) by {
            if id < before.len() {
                assert(after[id] == before[id]);
            }
        }
    }
    Some(mapper)
}

/// The terminal that marks the end of the input.
pub fn end_component() -> (c: Component)
    ensures
        c@ == end_symbol(),
{
    Component::Terminal(TokenKind::RAW("$end".to_owned()))
}

/// The non-terminal that derives the start symbol.
pub fn accept_component() -> (c: Component)
    ensures
        c@ == accept_symbol(),
{
    Component::NonTerminal("$accept".to_owned())
}

} // verus!
