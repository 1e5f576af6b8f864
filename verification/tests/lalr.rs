use postgresql_cst_parser::parser_generator::bison::{
    Action, Assoc, AssocDirective, Bison, Component, ComponentId, GrammarError, Rule,
};
use postgresql_cst_parser::parser_generator::id_mapper::{IdMapper, UnknownSymbol};
use postgresql_cst_parser::parser_generator::lalr::{Item, Lalr, State};
use postgresql_cst_parser::parser_generator::lexer::TokenKind;
use postgresql_cst_parser::parser_generator::table::{resolve_conflict, Resolution};
use postgresql_cst_parser::parser_generator::terminal_set::TerminalSet;
use std::collections::HashMap;

fn term(name: &str) -> Component {
    Component::Terminal(TokenKind::from_name(name))
}

fn non_term(name: &str) -> Component {
    Component::NonTerminal(name.to_string())
}

fn rule(name: &str, components: Vec<Component>) -> Rule {
    Rule { name: name.to_string(), components, prec: None }
}

fn assoc(name: &str, priority: usize, directive: AssocDirective) -> (String, Assoc) {
    (name.to_string(), Assoc { priority, directive })
}

/// E -> E + E | E * E | E ^ E | E < E | - E | ( E ) | NUM
fn expressions() -> Bison {
    Bison {
        rules: vec![
            rule("E", vec![non_term("E"), term("+"), non_term("E")]),
            rule("E", vec![non_term("E"), term("*"), non_term("E")]),
            rule("E", vec![non_term("E"), term("^"), non_term("E")]),
            rule("E", vec![non_term("E"), term("<"), non_term("E")]),
            Rule {
                name: "E".to_string(),
                components: vec![term("-"), non_term("E")],
                prec: Some("UMINUS".to_string()),
            },
            rule("E", vec![term("("), non_term("E"), term(")")]),
            rule("E", vec![term("NUM")]),
        ],
        assoc: vec![
            assoc("<", 1, AssocDirective::NonAssoc),
            assoc("+", 2, AssocDirective::Left),
            assoc("-", 2, AssocDirective::Left),
            assoc("*", 3, AssocDirective::Left),
            assoc("^", 4, AssocDirective::Right),
            assoc("UMINUS", 5, AssocDirective::Right),
        ],
    }
}

fn tables(bison: &Bison) -> Lalr {
    let mut lalr = Lalr::new(bison).unwrap();
    lalr.build_lalr1_parse_table().unwrap();
    lalr
}

fn id_of(lalr: &Lalr, c: &Component) -> ComponentId {
    lalr.id_mapper.to_component_id(c).unwrap()
}

/// Runs the tables on tokens; numbers are tokens named by their digits.
/// Returns the rules by which it reduced, or the position at which no
/// action was found.
fn parse(lalr: &Lalr, input: &[&str]) -> Result<Vec<usize>, usize> {
    let mut stack: Vec<usize> = vec![0];
    let mut reductions = Vec::new();
    let mut pos = 0;
    loop {
        let token = if pos < input.len() {
            let name = input[pos];
            if name.chars().all(|c| c.is_ascii_digit()) {
                term("NUM")
            } else {
                term(name)
            }
        } else {
            Component::Terminal(TokenKind::RAW("$end".to_string()))
        };
        let t = match lalr.id_mapper.to_component_id(&token) {
            Ok(t) => t,
            Err(UnknownSymbol) => return Err(pos),
        };
        let state = *stack.last().unwrap();
        match lalr.action_table[state].get(&t) {
            Some(Action::Shift(next)) => {
                stack.push(*next);
                pos += 1;
            }
            Some(Action::Reduce(r)) => {
                let rule = &lalr.rules[*r];
                for _ in 0..rule.components.len() {
                    stack.pop();
                }
                let top = *stack.last().unwrap();
                stack.push(lalr.goto_table[top][&rule.name_id]);
                reductions.push(*r);
            }
            Some(Action::Accept) => return Ok(reductions),
            Some(Action::Error) | None => return Err(pos),
        }
    }
}

/// The value of an expression as the tables group it.
fn value(lalr: &Lalr, input: &[&str]) -> Result<i64, usize> {
    let reductions = parse(lalr, input)?;
    let mut numbers: Vec<i64> = input.iter().filter_map(|t| t.parse().ok()).collect();
    numbers.reverse();
    // numbers are shifted from left to right, so a reduction of NUM takes the next one
    let mut values: Vec<i64> = Vec::new();
    for r in reductions {
        match r {
            7 => values.push(numbers.pop().unwrap()),
            6 => {}
            5 => {
                let a = values.pop().unwrap();
                values.push(-a);
            }
            _ => {
                let b = values.pop().unwrap();
                let a = values.pop().unwrap();
                values.push(match r {
                    1 => a + b,
                    2 => a * b,
                    3 => a.pow(b as u32),
                    _ => (a < b) as i64,
                });
            }
        }
    }
    assert_eq!(values.len(), 1);
    Ok(values[0])
}

#[test]
fn symbols_are_numbered_terminals_first_and_by_name() {
    let lalr = Lalr::new(&expressions()).unwrap();
    let names: Vec<String> = lalr
        .id_mapper
        .components
        .iter()
        .map(|c| c.to_rule_identifier().clone())
        .collect();
    assert_eq!(
        names,
        vec!["$end", "(", ")", "*", "+", "-", "<", "NUM", "UMINUS", "^", "E", "$accept"]
    );
    assert_eq!(lalr.all_terminal, (0..10).collect::<Vec<ComponentId>>());
    assert_eq!(lalr.end_rule_component_id, 0);
    assert_eq!(lalr.accept_rule_component_id, 11);
    assert!(lalr.id_mapper.components[7].is_terminal());
    assert!(!lalr.id_mapper.components[10].is_terminal());
    assert!(lalr.id_mapper.components[7].same(&term("NUM")));
    assert_eq!(lalr.rules.len(), 7);
    assert_eq!(lalr.rules[0].name_id, 10);
    assert_eq!(lalr.rules[0].components, vec![10, 4, 10]);
    assert_eq!(lalr.rules[4].components, vec![5, 10]);
    assert_eq!(lalr.rules[6].components, vec![7]);
    assert_eq!(lalr.rule_indices_by_name_id[10], vec![0, 1, 2, 3, 4, 5, 6]);
    assert!(lalr.rule_indices_by_name_id[11].is_empty());
    assert!(lalr.rule_indices_by_name_id[4].is_empty());
}

#[test]
fn rules_reduce_at_the_precedence_of_their_tag_or_last_declared_terminal() {
    let lalr = Lalr::new(&expressions()).unwrap();
    let left = |priority| Some(Assoc { priority, directive: AssocDirective::Left });
    assert_eq!(lalr.rules[0].reduce_priority, left(2));
    assert_eq!(lalr.rules[1].reduce_priority, left(3));
    assert_eq!(
        lalr.rules[2].reduce_priority,
        Some(Assoc { priority: 4, directive: AssocDirective::Right })
    );
    assert_eq!(
        lalr.rules[3].reduce_priority,
        Some(Assoc { priority: 1, directive: AssocDirective::NonAssoc })
    );
    // the tag wins over the minus sign
    assert_eq!(
        lalr.rules[4].reduce_priority,
        Some(Assoc { priority: 5, directive: AssocDirective::Right })
    );
    // neither parenthesis is declared, nor is NUM
    assert_eq!(lalr.rules[5].reduce_priority, None);
    assert_eq!(lalr.rules[6].reduce_priority, None);
    assert_eq!(lalr.assoc[4], left(2));
    assert_eq!(lalr.assoc[7], None);
    assert_eq!(lalr.assoc[10], None);

    // a terminal without precedence after one with precedence: the declared one counts
    let bison = Bison {
        rules: vec![rule("S", vec![term("a"), term("b")])],
        assoc: vec![assoc("a", 7, AssocDirective::Left)],
    };
    let lalr = Lalr::new(&bison).unwrap();
    assert_eq!(lalr.rules[0].reduce_priority, left(7));
}

#[test]
fn tables_group_by_precedence_and_associativity() {
    let lalr = tables(&expressions());
    // the rule that derives the start symbol stands before the rules of the grammar
    assert_eq!(lalr.rules.len(), 8);
    assert_eq!(lalr.rules[0].name_id, lalr.accept_rule_component_id);
    assert_eq!(lalr.rules[0].components, vec![10]);
    assert_eq!(lalr.rules[0].reduce_priority, None);
    assert_eq!(lalr.rules[1].components, vec![10, 4, 10]);
    assert_eq!(lalr.rules[7].components, vec![7]);
    assert_eq!(lalr.rule_indices_by_name_id[10], vec![1, 2, 3, 4, 5, 6, 7]);
    assert!(lalr.rule_indices_by_name_id[11].is_empty());
    assert_eq!(value(&lalr, &["1", "+", "2", "*", "3"]), Ok(7));
    assert_eq!(value(&lalr, &["1", "*", "2", "+", "3"]), Ok(5));
    assert_eq!(value(&lalr, &["10", "+", "2", "+", "3"]), Ok(15));
    // left: (2 - ... is not in the grammar; powers group to the right
    assert_eq!(value(&lalr, &["2", "^", "3", "^", "2"]), Ok(512));
    assert_eq!(value(&lalr, &["(", "2", "^", "3", ")", "^", "2"]), Ok(64));
    assert_eq!(value(&lalr, &["-", "2", "^", "2"]), Ok(4));
    assert_eq!(value(&lalr, &["-", "2", "*", "3"]), Ok(-6));
    assert_eq!(value(&lalr, &["1", "<", "2", "+", "3"]), Ok(1));
    // a non-associative terminal does not chain
    assert_eq!(value(&lalr, &["1", "<", "2", "<", "3"]), Err(3));
    assert_eq!(value(&lalr, &["1", "+"]), Err(2));
    assert_eq!(value(&lalr, &["1", "2"]), Err(1));
    assert_eq!(value(&lalr, &[")"]), Err(0));
    assert_eq!(value(&lalr, &[]), Err(0));
}

#[test]
fn raising_a_level_loses_no_action_without_non_associative_terminals() {
    let grammar = |plus: usize, times: usize| Bison {
        rules: vec![
            rule("E", vec![non_term("E"), term("+"), non_term("E")]),
            rule("E", vec![non_term("E"), term("*"), non_term("E")]),
            rule("E", vec![term("NUM")]),
        ],
        assoc: vec![
            assoc("+", plus, AssocDirective::Left),
            assoc("*", times, AssocDirective::Left),
        ],
    };
    let low = tables(&grammar(1, 2));
    let high = tables(&grammar(5, 2));
    assert_eq!(low.state_set.states.len(), high.state_set.states.len());
    for (a, b) in low.action_table.iter().zip(&high.action_table) {
        let mut keys_a: Vec<_> = a.keys().collect();
        let mut keys_b: Vec<_> = b.keys().collect();
        keys_a.sort();
        keys_b.sort();
        assert_eq!(keys_a, keys_b);
        assert!(a.values().chain(b.values()).all(|action| *action != Action::Error));
    }
    assert_eq!(parse(&high, &["1", "+", "2", "*", "3"]), Ok(vec![3, 3, 1, 3, 2]));
    assert_eq!(parse(&low, &["1", "+", "2", "*", "3"]), Ok(vec![3, 3, 3, 2, 1]));
}

#[test]
fn conflicts_resolve_as_declared() {
    let a = |priority, directive| Some(Assoc { priority, directive });
    let (left, right, non_assoc) = (AssocDirective::Left, AssocDirective::Right, AssocDirective::NonAssoc);
    assert_eq!(resolve_conflict(a(1, left), a(2, left)), Resolution::Shift);
    assert_eq!(resolve_conflict(a(3, left), a(2, left)), Resolution::Reduce);
    assert_eq!(resolve_conflict(a(2, right), a(2, left)), Resolution::Reduce);
    assert_eq!(resolve_conflict(a(2, left), a(2, right)), Resolution::Shift);
    assert_eq!(resolve_conflict(a(2, left), a(2, non_assoc)), Resolution::Error);
    assert_eq!(resolve_conflict(None, a(2, non_assoc)), Resolution::Shift);
    assert_eq!(resolve_conflict(a(2, left), None), Resolution::Shift);
    assert_eq!(resolve_conflict(None, None), Resolution::Shift);
}

#[test]
fn the_earlier_rule_wins_between_two_reductions() {
    // both A and B derive x, and both may stand before the end
    let bison = Bison {
        rules: vec![
            rule("S", vec![non_term("A")]),
            rule("S", vec![non_term("B")]),
            rule("A", vec![term("x")]),
            rule("B", vec![term("x")]),
        ],
        assoc: vec![],
    };
    let lalr = tables(&bison);
    assert_eq!(parse(&lalr, &["x"]), Ok(vec![3, 1]));
}

#[test]
fn nullable_symbols_and_first_sets() {
    // S -> A B c ; A -> | a ; B -> | b
    let bison = Bison {
        rules: vec![
            rule("S", vec![non_term("A"), non_term("B"), term("c")]),
            rule("A", vec![]),
            rule("A", vec![term("a")]),
            rule("B", vec![]),
            rule("B", vec![term("b")]),
        ],
        assoc: vec![],
    };
    let mut lalr = Lalr::new(&bison).unwrap();
    lalr.build_first_set();
    let id = |c: &Component| id_of(&lalr, c);
    let (end, a, b, c) = (0, id(&term("a")), id(&term("b")), id(&term("c")));
    let (s, na, nb) = (id(&non_term("S")), id(&non_term("A")), id(&non_term("B")));
    assert_eq!((a, b, c), (1, 2, 3));
    let members = |set: &TerminalSet| -> Vec<ComponentId> {
        (0..set.universe() as ComponentId).filter(|t| set.contains(*t)).collect()
    };
    assert_eq!(lalr.nullable_symbol[na as usize], true);
    assert_eq!(lalr.nullable_symbol[nb as usize], true);
    assert_eq!(lalr.nullable_symbol[s as usize], false);
    assert_eq!(lalr.nullable_symbol[a as usize], false);
    assert_eq!(members(&lalr.first_set[s as usize]), vec![a, b, c]);
    assert_eq!(members(&lalr.first_set[na as usize]), vec![a]);
    assert_eq!(members(&lalr.first_set[nb as usize]), vec![b]);
    assert_eq!(members(&lalr.first_set[c as usize]), vec![c]);
    assert_eq!(members(&lalr.first_set[end as usize]), vec![end]);
    // the rest of S -> A B c from each position on
    assert_eq!(lalr.nullable[0], vec![false, false, false, true]);
    assert_eq!(members(&lalr.first_set_after[0][0]), vec![a, b, c]);
    assert_eq!(members(&lalr.first_set_after[0][1]), vec![b, c]);
    assert_eq!(members(&lalr.first_set_after[0][2]), vec![c]);
    assert_eq!(members(&lalr.first_set_after[0][3]), Vec::<ComponentId>::new());
    assert_eq!(lalr.nullable[1], vec![true]);

    let lalr = tables(&bison);
    assert_eq!(parse(&lalr, &["c"]), Ok(vec![2, 4, 1]));
    assert_eq!(parse(&lalr, &["a", "c"]), Ok(vec![3, 4, 1]));
    assert_eq!(parse(&lalr, &["a", "b", "c"]), Ok(vec![3, 5, 1]));
    assert_eq!(parse(&lalr, &["b", "a", "c"]), Err(1));
}

#[test]
fn states_are_closed_and_followed() {
    let lalr = tables(&expressions());
    let states = &lalr.state_set.states;
    assert!(lalr.state_set.need_update.is_empty());
    assert_eq!(lalr.action_table.len(), states.len());
    assert_eq!(lalr.goto_table.len(), states.len());
    // the first state holds the item that starts the rule of the start symbol
    let first = &states[0].items;
    assert!(first
        .iter()
        .any(|it| it.rule_index == 0 && it.dot_pos == 0 && it.lookahead.contains(0)));
    for (i, state) in states.iter().enumerate() {
        for (p, item) in state.items.iter().enumerate() {
            for other in &state.items[p + 1..] {
                assert!((item.rule_index, item.dot_pos) < (other.rule_index, other.dot_pos));
            }
            let rule = &lalr.rules[item.rule_index];
            if item.dot_pos < rule.components.len() {
                let x = rule.components[item.dot_pos];
                let target = &states[state.edge[&x]];
                let moved = target
                    .items
                    .iter()
                    .find(|it| it.rule_index == item.rule_index && it.dot_pos == item.dot_pos + 1)
                    .unwrap();
                for t in 0..10 {
                    assert!(!item.lookahead.contains(t) || moved.lookahead.contains(t));
                }
                if x >= 10 {
                    for r in &lalr.rule_indices_by_name_id[x as usize] {
                        assert!(state.items.iter().any(|it| it.rule_index == *r && it.dot_pos == 0));
                    }
                    assert_eq!(lalr.goto_table[i][&x], state.edge[&x]);
                } else {
                    assert!(lalr.action_table[i].contains_key(&x));
                }
            }
        }
        for other in &states[i + 1..] {
            assert!(!state.equals_without_lookahead(other));
        }
    }
}

#[test]
fn faults_of_a_grammar() {
    let undefined = Bison { rules: vec![rule("S", vec![non_term("T")])], assoc: vec![] };
    assert_eq!(Lalr::new(&undefined).err(), Some(GrammarError::UndefinedNonTerminal));

    let contradictory = Bison {
        rules: vec![rule("S", vec![term("a")])],
        assoc: vec![assoc("a", 1, AssocDirective::Left), assoc("a", 2, AssocDirective::Left)],
    };
    assert_eq!(Lalr::new(&contradictory).err(), Some(GrammarError::ContradictoryAssociativity));
    let repeated = Bison {
        rules: vec![rule("S", vec![term("a")])],
        assoc: vec![assoc("a", 1, AssocDirective::Left), assoc("a", 1, AssocDirective::Left)],
    };
    assert!(Lalr::new(&repeated).is_ok());

    let unknown = Bison {
        rules: vec![Rule {
            name: "S".to_string(),
            components: vec![term("a")],
            prec: Some("b".to_string()),
        }],
        assoc: vec![],
    };
    assert_eq!(Lalr::new(&unknown).err(), Some(GrammarError::UnknownSymbol));
    // an unknown symbol on the right comes before an unknown tag
    let both = Bison {
        rules: vec![Rule {
            name: "S".to_string(),
            components: vec![non_term("T")],
            prec: Some("b".to_string()),
        }],
        assoc: vec![],
    };
    assert_eq!(Lalr::new(&both).err(), Some(GrammarError::UndefinedNonTerminal));

    let empty = Bison { rules: vec![], assoc: vec![] };
    let mut lalr = Lalr::new(&empty).unwrap();
    assert_eq!(lalr.build_lalr1_parse_table(), Err(GrammarError::EmptyNonTerminal));
    assert!(lalr.rules.is_empty());
    assert!(lalr.state_set.states.is_empty());
}

#[test]
fn items_are_written_with_a_dot() {
    let lalr = Lalr::new(&expressions()).unwrap();
    let item = |rule_index, dot_pos| Item { rule_index, dot_pos, lookahead: TerminalSet::new(10) };
    assert_eq!(item(0, 0).display(&lalr), "E -> . E + E");
    assert_eq!(item(0, 1).display(&lalr), "E -> E . + E");
    assert_eq!(item(0, 3).display(&lalr), "E -> E + E .");
    assert_eq!(item(4, 1).display(&lalr), "E -> - . E");
    assert_eq!(item(6, 1).display(&lalr), "E -> NUM .");
}

#[test]
fn items_and_states_compare_by_core_and_lookahead() {
    let mut one = TerminalSet::new(4);
    assert!(one.insert(1));
    assert!(!one.insert(1));
    let mut two = TerminalSet::new(4);
    two.insert(2);
    let mut item = Item { rule_index: 3, dot_pos: 0, lookahead: one.clone() };
    assert!(!item.insert_lookaheads(&one));
    assert!(item.insert_lookaheads(&two));
    assert!(!item.insert_lookaheads(&two));
    assert!(item.lookahead.contains(1) && item.lookahead.contains(2));
    assert!(!item.lookahead.contains(0) && !item.lookahead.contains(3) && !item.lookahead.contains(9));
    assert!(!item.lookahead.equals(&one));
    assert!(one.equals(&one.clone()));
    assert!(!one.equals(&TerminalSet::new(5)));

    let state = |items: Vec<Item>| {
        let mut s = State { items: vec![], edge: HashMap::new(), item_indices: HashMap::new() };
        for it in items {
            s.push_item(it);
        }
        s
    };
    let a = state(vec![item.clone(), Item { rule_index: 1, dot_pos: 2, lookahead: one.clone() }]);
    let b = state(vec![
        Item { rule_index: 3, dot_pos: 0, lookahead: one.clone() },
        Item { rule_index: 1, dot_pos: 2, lookahead: one.clone() },
    ]);
    assert_eq!(a.item_indices.get(&3), Some(&0));
    assert_eq!(a.item_indices.get(&1), None);
    assert!(a.equals_without_lookahead(&b));
    assert!(!a.equals(&b));
    assert!(a.equals(&a));
    assert!(!a.equals_without_lookahead(&state(vec![item.clone()])));
    assert!(!a.equals_without_lookahead(&state(vec![
        item.clone(),
        Item { rule_index: 1, dot_pos: 1, lookahead: one.clone() }
    ])));
}

#[test]
fn names_denote_keywords_or_raw_tokens() {
    assert!(TokenKind::from_name("SELECT").same(&TokenKind::KEYWORD("SELECT".to_string())));
    assert!(TokenKind::from_name("_x").same(&TokenKind::KEYWORD("_x".to_string())));
    assert!(TokenKind::from_name(",").same(&TokenKind::RAW(",".to_string())));
    assert!(TokenKind::from_name("$end").same(&TokenKind::RAW("$end".to_string())));
    assert!(TokenKind::from_name("").same(&TokenKind::RAW(String::new())));
    assert!(!TokenKind::from_name("a").same(&TokenKind::RAW("a".to_string())));
    assert_eq!(TokenKind::from_name("IDENT").to_rule_identifier(), "IDENT");
}

#[test]
fn symbols_get_one_id_each() {
    let mut mapper = IdMapper::new();
    mapper.insert(term("b"));
    mapper.insert(term("a"));
    mapper.insert(term("b"));
    mapper.insert(non_term("a"));
    assert_eq!(mapper.len(), 3);
    assert_eq!(mapper.to_component_id(&term("a")), Ok(1));
    assert_eq!(mapper.to_component_id(&term("b")), Ok(0));
    assert_eq!(mapper.to_component_id(&non_term("a")), Ok(2));
    assert_eq!(mapper.to_component_id(&non_term("b")), Err(UnknownSymbol));
}

#[test]
fn symbols_of_one_name_are_numbered_as_first_mentioned() {
    // a keyword and a raw token of one name; a prefix comes before a longer
    // name; the left-hand sides follow in the order of the rules
    let bison = Bison {
        rules: vec![
            rule("s", vec![non_term("t"), Component::Terminal(TokenKind::KEYWORD("ab".to_string()))]),
            rule("t", vec![Component::Terminal(TokenKind::RAW("ab".to_string())), term("a")]),
            rule("s", vec![Component::Terminal(TokenKind::KEYWORD("ab".to_string())), term("abc")]),
            rule("u", vec![]),
        ],
        assoc: vec![assoc("B", 1, AssocDirective::Left)],
    };
    let lalr = Lalr::new(&bison).unwrap();
    let symbols = &lalr.id_mapper.components;
    assert_eq!(symbols.len(), 10);
    assert!(symbols[0].same(&Component::Terminal(TokenKind::RAW("$end".to_string()))));
    assert!(symbols[1].same(&term("B")));
    assert!(symbols[2].same(&term("a")));
    assert!(symbols[3].same(&Component::Terminal(TokenKind::KEYWORD("ab".to_string()))));
    assert!(symbols[4].same(&Component::Terminal(TokenKind::RAW("ab".to_string()))));
    assert!(symbols[5].same(&term("abc")));
    assert!(symbols[6].same(&non_term("s")));
    assert!(symbols[7].same(&non_term("t")));
    assert!(symbols[8].same(&non_term("u")));
    assert!(symbols[9].same(&non_term("$accept")));
    assert_eq!(lalr.rules[1].components, vec![4, 2]);
    assert_eq!(lalr.rules[2].components, vec![3, 5]);
}

#[test]
fn a_grammar_with_more_symbols_than_ids_is_refused() {
    // the end marker, these names and the non-terminal that derives the
    // start symbol are more than the 65536 ids
    let rules: Vec<Rule> = (0..0x10000).map(|i| rule(&format!("n{i}"), vec![])).collect();
    let refused = Lalr::new(&Bison { rules, assoc: vec![] });
    assert_eq!(refused.err(), Some(GrammarError::TooManySymbols));
}

#[test]
fn the_start_rule_alone_accepts() {
    let lalr = tables(&expressions());
    let mut accepting = Vec::new();
    for (s, row) in lalr.action_table.iter().enumerate() {
        for (t, action) in row {
            if *action == Action::Accept {
                accepting.push((s, *t));
            }
            assert_ne!(*action, Action::Reduce(0));
        }
    }
    assert_eq!(accepting.len(), 1);
    let (s, t) = accepting[0];
    assert_eq!(t, lalr.end_rule_component_id);
    assert!(lalr.state_set.states[s].items.iter().any(|it| it.rule_index == 0 && it.dot_pos == 1));
}
