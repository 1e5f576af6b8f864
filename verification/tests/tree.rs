use cstree::{RawSyntaxKind, Syntax};
use postgresql_cst_parser::cst::{
    build_tree, checked_tree, GreenNodeBuilder, NodeOrToken, ResolvedNode, TreeEvent,
};
use postgresql_cst_parser::syntax_kind::SyntaxKind;
use postgresql_cst_parser::tree_sitter::convert::{get_ts_tree_and_range_map, RangeMap};
use postgresql_cst_parser::tree_sitter::dump::dump_entries;
use postgresql_cst_parser::tree_sitter::shape::{walk_and_build, Shaping};
use postgresql_cst_parser::tree_sitter::transform::transform_cst;
use postgresql_cst_parser::tree_sitter::{as_tree_sitter_cursor, traverse_pre_order, TreeCursor};

// The trees below are written as a parser for PostgreSQL builds them: a
// kind with its children in parentheses for a node, a kind with its text
// in quotes for a token.

fn kind_named(name: &str) -> SyntaxKind {
    let mut code = 0;
    loop {
        let kind = SyntaxKind::from_raw(RawSyntaxKind(code));
        if format!("{:?}", kind) == name {
            return kind;
        }
        assert!(kind != SyntaxKind::Root, "no kind is named {name}");
        code += 1;
    }
}

fn read_tree(notation: &str) -> Vec<TreeEvent> {
    let chars: Vec<char> = notation.chars().collect();
    let mut events = Vec::new();
    let mut i = 0;
    while i < chars.len() {
        let c = chars[i];
        if c == ' ' {
            i += 1;
        } else if c == ')' {
            events.push(TreeEvent::FinishNode);
            i += 1;
        } else {
            let start = i;
            while chars[i] != '(' && chars[i] != '"' {
                i += 1;
            }
            let kind = kind_named(&chars[start..i].iter().collect::<String>());
            if chars[i] == '(' {
                events.push(TreeEvent::StartNode(kind));
                i += 1;
            } else {
                let mut text = String::new();
                i += 1;
                while chars[i] != '"' {
                    if chars[i] == '\\' {
                        i += 1;
                        text.push(match chars[i] {
                            'n' => '\n',
                            't' => '\t',
                            other => other,
                        });
                    } else {
                        text.push(chars[i]);
                    }
                    i += 1;
                }
                i += 1;
                events.push(TreeEvent::Token(kind, text));
            }
        }
    }
    events
}

/// The tree of an input, which must be the text of the tree.
fn tree_of(input: &str, notation: &str) -> ResolvedNode {
    let root = build_tree(&read_tree(notation)).expect("the notation is one tree");
    assert_eq!(root.text(), input);
    root
}

fn children(node: &NodeOrToken) -> Vec<NodeOrToken> {
    let mut found = Vec::new();
    let mut next = node.first_child_or_token();
    while let Some(child) = next {
        next = child.next_sibling_or_token();
        found.push(child);
    }
    found
}

/// The nodes of a tree in document order, without its tokens.
fn descendants(node: &NodeOrToken) -> Vec<NodeOrToken> {
    let mut found = Vec::new();
    if node.is_node() {
        found.push(node.clone());
        for child in children(node) {
            found.extend(descendants(&child));
        }
    }
    found
}

fn find(root: &ResolvedNode, kind: SyntaxKind) -> ResolvedNode {
    descendants(root).into_iter().find(|x| x.kind() == kind).unwrap()
}

/// Asserts that there is at least one node of the specified `SyntaxKind` in the given syntax tree.
fn assert_exists(root: &ResolvedNode, kind: SyntaxKind) {
    let exists = descendants(root).iter().any(|node| node.kind() == kind);
    assert!(
        exists,
        "Expected at least one node of kind {kind:?}, but none was found."
    )
}

/// Asserts that there are no nodes of the specified `SyntaxKind` in the given syntax tree.
fn assert_not_exists(root: &ResolvedNode, kind: SyntaxKind) {
    let exists = descendants(root).iter().any(|node| node.kind() == kind);
    assert!(
        !exists,
        "Expected no nodes of kind {kind:?}, but at least one was found."
    )
}

/// Asserts that the exact number of nodes of the specified `SyntaxKind` matches the given count.
fn assert_node_count(root: &ResolvedNode, kind: SyntaxKind, expected_count: usize) {
    let actual_count = descendants(root)
        .iter()
        .filter(|node| node.kind() == kind)
        .count();
    assert_eq!(
        actual_count, expected_count,
        "Expected {expected_count} nodes of kind {kind:?}, but found {actual_count}."
    )
}

/// Asserts that there are no directly nested nodes of the specified `SyntaxKind`.
fn assert_no_direct_nested_kind(root: &ResolvedNode, kind: SyntaxKind) {
    for node in descendants(root).iter().filter(|node| node.kind() == kind) {
        if let Some(parent) = node.parent() {
            assert!(
                !(node.kind() == kind && parent.kind() == kind),
                "Found a `{}` node that directly contains another {kind:?} node as a child.",
                parent.debug()
            )
        }
    }
}

/// Asserts that there is at least one directly nested node of the specified `SyntaxKind`.
fn assert_direct_nested_kind(root: &ResolvedNode, kind: SyntaxKind) {
    let has_direct_nesting = descendants(root)
        .iter()
        .filter(|node| node.kind() == kind)
        .any(|node| {
            if let Some(parent) = node.parent() {
                node.kind() == kind && parent.kind() == kind
            } else {
                false
            }
        });

    assert!(
        has_direct_nesting,
        "Expected at least one directly nested {kind:?} node, but none was found."
    );
}

fn select_a() -> ResolvedNode {
    tree_of(
        "select a;",
        "Root(parse_toplevel(stmtmulti(stmtmulti(toplevel_stmt(stmt(SelectStmt(select_no_parens(simple_select(SELECT\"select\" Whitespace\" \" opt_target_list(target_list(target_el(a_expr(c_expr(columnref(ColId(IDENT\"a\"))))))))))))) Semicolon\";\")))",
    )
}

fn select_abc() -> ResolvedNode {
    tree_of(
        "select a,b,c;",
        "Root(parse_toplevel(stmtmulti(stmtmulti(toplevel_stmt(stmt(SelectStmt(select_no_parens(simple_select(SELECT\"select\" Whitespace\" \" opt_target_list(target_list(target_list(target_list(target_el(a_expr(c_expr(columnref(ColId(IDENT\"a\")))))) Comma\",\" target_el(a_expr(c_expr(columnref(ColId(IDENT\"b\")))))) Comma\",\" target_el(a_expr(c_expr(columnref(ColId(IDENT\"c\"))))))))))))) Semicolon\";\")))",
    )
}

fn select_abc_from_t() -> ResolvedNode {
    tree_of(
        "select a, b, c from t;",
        "Root(parse_toplevel(stmtmulti(stmtmulti(toplevel_stmt(stmt(SelectStmt(select_no_parens(simple_select(SELECT\"select\" Whitespace\" \" opt_target_list(target_list(target_list(target_list(target_el(a_expr(c_expr(columnref(ColId(IDENT\"a\")))))) Comma\",\" Whitespace\" \" target_el(a_expr(c_expr(columnref(ColId(IDENT\"b\")))))) Comma\",\" Whitespace\" \" target_el(a_expr(c_expr(columnref(ColId(IDENT\"c\"))))))) Whitespace\" \" from_clause(FROM\"from\" Whitespace\" \" from_list(table_ref(relation_expr(qualified_name(ColId(IDENT\"t\")))))))))))) Semicolon\";\")))",
    )
}

fn select_abc_from_tbl() -> ResolvedNode {
    tree_of(
        "select a, b, c from tbl;",
        "Root(parse_toplevel(stmtmulti(stmtmulti(toplevel_stmt(stmt(SelectStmt(select_no_parens(simple_select(SELECT\"select\" Whitespace\" \" opt_target_list(target_list(target_list(target_list(target_el(a_expr(c_expr(columnref(ColId(IDENT\"a\")))))) Comma\",\" Whitespace\" \" target_el(a_expr(c_expr(columnref(ColId(IDENT\"b\")))))) Comma\",\" Whitespace\" \" target_el(a_expr(c_expr(columnref(ColId(IDENT\"c\"))))))) Whitespace\" \" from_clause(FROM\"from\" Whitespace\" \" from_list(table_ref(relation_expr(qualified_name(ColId(IDENT\"tbl\")))))))))))) Semicolon\";\")))",
    )
}

fn select_abc_from_tbl_tight() -> ResolvedNode {
    tree_of(
        "select a,b,c from tbl;",
        "Root(parse_toplevel(stmtmulti(stmtmulti(toplevel_stmt(stmt(SelectStmt(select_no_parens(simple_select(SELECT\"select\" Whitespace\" \" opt_target_list(target_list(target_list(target_list(target_el(a_expr(c_expr(columnref(ColId(IDENT\"a\")))))) Comma\",\" target_el(a_expr(c_expr(columnref(ColId(IDENT\"b\")))))) Comma\",\" target_el(a_expr(c_expr(columnref(ColId(IDENT\"c\"))))))) Whitespace\" \" from_clause(FROM\"from\" Whitespace\" \" from_list(table_ref(relation_expr(qualified_name(ColId(IDENT\"tbl\")))))))))))) Semicolon\";\")))",
    )
}

fn lines() -> ResolvedNode {
    tree_of(
        "\nSELECT\n\t1 as X\n,\t2\n,\t3\nFROM\n\tA\n,\tB",
        "Root(Whitespace\"\\n\" parse_toplevel(stmtmulti(toplevel_stmt(stmt(SelectStmt(select_no_parens(simple_select(SELECT\"SELECT\" Whitespace\"\\n\\t\" opt_target_list(target_list(target_list(target_list(target_el(a_expr(c_expr(AexprConst(Iconst(ICONST\"1\")))) Whitespace\" \" AS\"as\" Whitespace\" \" ColLabel(IDENT\"X\"))) Whitespace\"\\n\" Comma\",\" Whitespace\"\\t\" target_el(a_expr(c_expr(AexprConst(Iconst(ICONST\"2\")))))) Whitespace\"\\n\" Comma\",\" Whitespace\"\\t\" target_el(a_expr(c_expr(AexprConst(Iconst(ICONST\"3\"))))))) Whitespace\"\\n\" from_clause(FROM\"FROM\" Whitespace\"\\n\\t\" from_list(from_list(table_ref(relation_expr(qualified_name(ColId(IDENT\"A\"))))) Whitespace\"\\n\" Comma\",\" Whitespace\"\\t\" table_ref(relation_expr(qualified_name(ColId(IDENT\"B\"))))))))))))))",
    )
}

fn lines_comments() -> ResolvedNode {
    tree_of(
        "\n-- comment\nSELECT\n\t1 as X\n,\t2 -- comment\n,\t3\nFROM\n\tA\n,\tB",
        "Root(Whitespace\"\\n\" SQL_COMMENT\"-- comment\" Whitespace\"\\n\" parse_toplevel(stmtmulti(toplevel_stmt(stmt(SelectStmt(select_no_parens(simple_select(SELECT\"SELECT\" Whitespace\"\\n\\t\" opt_target_list(target_list(target_list(target_list(target_el(a_expr(c_expr(AexprConst(Iconst(ICONST\"1\")))) Whitespace\" \" AS\"as\" Whitespace\" \" ColLabel(IDENT\"X\"))) Whitespace\"\\n\" Comma\",\" Whitespace\"\\t\" target_el(a_expr(c_expr(AexprConst(Iconst(ICONST\"2\")))))) Whitespace\" \" SQL_COMMENT\"-- comment\" Whitespace\"\\n\" Comma\",\" Whitespace\"\\t\" target_el(a_expr(c_expr(AexprConst(Iconst(ICONST\"3\"))))))) Whitespace\"\\n\" from_clause(FROM\"FROM\" Whitespace\"\\n\\t\" from_list(from_list(table_ref(relation_expr(qualified_name(ColId(IDENT\"A\"))))) Whitespace\"\\n\" Comma\",\" Whitespace\"\\t\" table_ref(relation_expr(qualified_name(ColId(IDENT\"B\"))))))))))))))",
    )
}

fn lines_rows() -> ResolvedNode {
    tree_of(
        "select\n\t1 as X\n,\t2 -- c\n,\t3 FROM A,B",
        "Root(parse_toplevel(stmtmulti(toplevel_stmt(stmt(SelectStmt(select_no_parens(simple_select(SELECT\"select\" Whitespace\"\\n\\t\" opt_target_list(target_list(target_list(target_list(target_el(a_expr(c_expr(AexprConst(Iconst(ICONST\"1\")))) Whitespace\" \" AS\"as\" Whitespace\" \" ColLabel(IDENT\"X\"))) Whitespace\"\\n\" Comma\",\" Whitespace\"\\t\" target_el(a_expr(c_expr(AexprConst(Iconst(ICONST\"2\")))))) Whitespace\" \" SQL_COMMENT\"-- c\" Whitespace\"\\n\" Comma\",\" Whitespace\"\\t\" target_el(a_expr(c_expr(AexprConst(Iconst(ICONST\"3\"))))))) Whitespace\" \" from_clause(FROM\"FROM\" Whitespace\" \" from_list(from_list(table_ref(relation_expr(qualified_name(ColId(IDENT\"A\"))))) Comma\",\" table_ref(relation_expr(qualified_name(ColId(IDENT\"B\"))))))))))))))",
    )
}

fn for_update_limit() -> ResolvedNode {
    tree_of(
        "select a from t for update limit 5 offset 5;",
        "Root(parse_toplevel(stmtmulti(stmtmulti(toplevel_stmt(stmt(SelectStmt(select_no_parens(select_clause(simple_select(SELECT\"select\" Whitespace\" \" opt_target_list(target_list(target_el(a_expr(c_expr(columnref(ColId(IDENT\"a\"))))))) Whitespace\" \" from_clause(FROM\"from\" Whitespace\" \" from_list(table_ref(relation_expr(qualified_name(ColId(IDENT\"t\")))))))) Whitespace\" \" for_locking_clause(for_locking_items(for_locking_item(for_locking_strength(FOR\"for\" Whitespace\" \" UPDATE\"update\")))) Whitespace\" \" opt_select_limit(select_limit(limit_clause(LIMIT\"limit\" Whitespace\" \" select_limit_value(a_expr(c_expr(AexprConst(Iconst(ICONST\"5\")))))) Whitespace\" \" offset_clause(OFFSET\"offset\" Whitespace\" \" select_offset_value(a_expr(c_expr(AexprConst(Iconst(ICONST\"5\"))))))))))))) Semicolon\";\")))",
    )
}

fn order_limit() -> ResolvedNode {
    tree_of(
        "select a from t order by a desc limit 5;",
        "Root(parse_toplevel(stmtmulti(stmtmulti(toplevel_stmt(stmt(SelectStmt(select_no_parens(select_clause(simple_select(SELECT\"select\" Whitespace\" \" opt_target_list(target_list(target_el(a_expr(c_expr(columnref(ColId(IDENT\"a\"))))))) Whitespace\" \" from_clause(FROM\"from\" Whitespace\" \" from_list(table_ref(relation_expr(qualified_name(ColId(IDENT\"t\")))))))) Whitespace\" \" opt_sort_clause(sort_clause(ORDER\"order\" Whitespace\" \" BY\"by\" Whitespace\" \" sortby_list(sortby(a_expr(c_expr(columnref(ColId(IDENT\"a\")))) Whitespace\" \" opt_asc_desc(DESC\"desc\"))))) Whitespace\" \" select_limit(limit_clause(LIMIT\"limit\" Whitespace\" \" select_limit_value(a_expr(c_expr(AexprConst(Iconst(ICONST\"5\")))))))))))) Semicolon\";\")))",
    )
}

fn limit() -> ResolvedNode {
    tree_of(
        "select a from t limit 5;",
        "Root(parse_toplevel(stmtmulti(stmtmulti(toplevel_stmt(stmt(SelectStmt(select_no_parens(select_clause(simple_select(SELECT\"select\" Whitespace\" \" opt_target_list(target_list(target_el(a_expr(c_expr(columnref(ColId(IDENT\"a\"))))))) Whitespace\" \" from_clause(FROM\"from\" Whitespace\" \" from_list(table_ref(relation_expr(qualified_name(ColId(IDENT\"t\")))))))) Whitespace\" \" select_limit(limit_clause(LIMIT\"limit\" Whitespace\" \" select_limit_value(a_expr(c_expr(AexprConst(Iconst(ICONST\"5\")))))))))))) Semicolon\";\")))",
    )
}

fn two_statements() -> ResolvedNode {
    tree_of(
        "select a,b,c;\nselect d,e from t;",
        "Root(parse_toplevel(stmtmulti(stmtmulti(stmtmulti(toplevel_stmt(stmt(SelectStmt(select_no_parens(simple_select(SELECT\"select\" Whitespace\" \" opt_target_list(target_list(target_list(target_list(target_el(a_expr(c_expr(columnref(ColId(IDENT\"a\")))))) Comma\",\" target_el(a_expr(c_expr(columnref(ColId(IDENT\"b\")))))) Comma\",\" target_el(a_expr(c_expr(columnref(ColId(IDENT\"c\"))))))))))))) Semicolon\";\" Whitespace\"\\n\" toplevel_stmt(stmt(SelectStmt(select_no_parens(simple_select(SELECT\"select\" Whitespace\" \" opt_target_list(target_list(target_list(target_el(a_expr(c_expr(columnref(ColId(IDENT\"d\")))))) Comma\",\" target_el(a_expr(c_expr(columnref(ColId(IDENT\"e\"))))))) Whitespace\" \" from_clause(FROM\"from\" Whitespace\" \" from_list(table_ref(relation_expr(qualified_name(ColId(IDENT\"t\")))))))))))) Semicolon\";\")))",
    )
}

fn from_list() -> ResolvedNode {
    tree_of(
        "select * from t1, t2;",
        "Root(parse_toplevel(stmtmulti(stmtmulti(toplevel_stmt(stmt(SelectStmt(select_no_parens(simple_select(SELECT\"select\" Whitespace\" \" opt_target_list(target_list(target_el(Star\"*\"))) Whitespace\" \" from_clause(FROM\"from\" Whitespace\" \" from_list(from_list(table_ref(relation_expr(qualified_name(ColId(IDENT\"t1\"))))) Comma\",\" Whitespace\" \" table_ref(relation_expr(qualified_name(ColId(IDENT\"t2\")))))))))))) Semicolon\";\")))",
    )
}

fn indirection() -> ResolvedNode {
    tree_of(
        "select t.a, t.b.c, t1.*, a[1], a[4][5], a[2:5], a[3].b, a[3][4].b, a[3:5].b;",
        "Root(parse_toplevel(stmtmulti(stmtmulti(toplevel_stmt(stmt(SelectStmt(select_no_parens(simple_select(SELECT\"select\" Whitespace\" \" opt_target_list(target_list(target_list(target_list(target_list(target_list(target_list(target_list(target_list(target_list(target_el(a_expr(c_expr(columnref(ColId(IDENT\"t\") indirection(indirection_el(Dot\".\" attr_name(ColLabel(IDENT\"a\"))))))))) Comma\",\" Whitespace\" \" target_el(a_expr(c_expr(columnref(ColId(IDENT\"t\") indirection(indirection(indirection_el(Dot\".\" attr_name(ColLabel(IDENT\"b\")))) indirection_el(Dot\".\" attr_name(ColLabel(IDENT\"c\"))))))))) Comma\",\" Whitespace\" \" target_el(a_expr(c_expr(columnref(ColId(IDENT\"t1\") indirection(indirection_el(Dot\".\" Star\"*\"))))))) Comma\",\" Whitespace\" \" target_el(a_expr(c_expr(columnref(ColId(IDENT\"a\") indirection(indirection_el(LBracket\"[\" a_expr(c_expr(AexprConst(Iconst(ICONST\"1\")))) RBracket\"]\"))))))) Comma\",\" Whitespace\" \" target_el(a_expr(c_expr(columnref(ColId(IDENT\"a\") indirection(indirection(indirection_el(LBracket\"[\" a_expr(c_expr(AexprConst(Iconst(ICONST\"4\")))) RBracket\"]\")) indirection_el(LBracket\"[\" a_expr(c_expr(AexprConst(Iconst(ICONST\"5\")))) RBracket\"]\"))))))) Comma\",\" Whitespace\" \" target_el(a_expr(c_expr(columnref(ColId(IDENT\"a\") indirection(indirection_el(LBracket\"[\" opt_slice_bound(a_expr(c_expr(AexprConst(Iconst(ICONST\"2\"))))) Colon\":\" opt_slice_bound(a_expr(c_expr(AexprConst(Iconst(ICONST\"5\"))))) RBracket\"]\"))))))) Comma\",\" Whitespace\" \" target_el(a_expr(c_expr(columnref(ColId(IDENT\"a\") indirection(indirection(indirection_el(LBracket\"[\" a_expr(c_expr(AexprConst(Iconst(ICONST\"3\")))) RBracket\"]\")) indirection_el(Dot\".\" attr_name(ColLabel(IDENT\"b\"))))))))) Comma\",\" Whitespace\" \" target_el(a_expr(c_expr(columnref(ColId(IDENT\"a\") indirection(indirection(indirection(indirection_el(LBracket\"[\" a_expr(c_expr(AexprConst(Iconst(ICONST\"3\")))) RBracket\"]\")) indirection_el(LBracket\"[\" a_expr(c_expr(AexprConst(Iconst(ICONST\"4\")))) RBracket\"]\")) indirection_el(Dot\".\" attr_name(ColLabel(IDENT\"b\"))))))))) Comma\",\" Whitespace\" \" target_el(a_expr(c_expr(columnref(ColId(IDENT\"a\") indirection(indirection(indirection_el(LBracket\"[\" opt_slice_bound(a_expr(c_expr(AexprConst(Iconst(ICONST\"3\"))))) Colon\":\" opt_slice_bound(a_expr(c_expr(AexprConst(Iconst(ICONST\"5\"))))) RBracket\"]\")) indirection_el(Dot\".\" attr_name(ColLabel(IDENT\"b\")))))))))))))))) Semicolon\";\")))",
    )
}

fn expr_list() -> ResolvedNode {
    tree_of(
        "select a from t where a in (1,2,3);",
        "Root(parse_toplevel(stmtmulti(stmtmulti(toplevel_stmt(stmt(SelectStmt(select_no_parens(simple_select(SELECT\"select\" Whitespace\" \" opt_target_list(target_list(target_el(a_expr(c_expr(columnref(ColId(IDENT\"a\"))))))) Whitespace\" \" from_clause(FROM\"from\" Whitespace\" \" from_list(table_ref(relation_expr(qualified_name(ColId(IDENT\"t\")))))) Whitespace\" \" where_clause(WHERE\"where\" Whitespace\" \" a_expr(a_expr(c_expr(columnref(ColId(IDENT\"a\")))) Whitespace\" \" IN_P\"in\" Whitespace\" \" in_expr(LParen\"(\" expr_list(expr_list(expr_list(a_expr(c_expr(AexprConst(Iconst(ICONST\"1\"))))) Comma\",\" a_expr(c_expr(AexprConst(Iconst(ICONST\"2\"))))) Comma\",\" a_expr(c_expr(AexprConst(Iconst(ICONST\"3\"))))) RParen\")\"))))))))) Semicolon\";\")))",
    )
}

fn func_arg_list() -> ResolvedNode {
    tree_of(
        "select func(1, 2, func2(3, 4), 5);",
        "Root(parse_toplevel(stmtmulti(stmtmulti(toplevel_stmt(stmt(SelectStmt(select_no_parens(simple_select(SELECT\"select\" Whitespace\" \" opt_target_list(target_list(target_el(a_expr(c_expr(func_expr(func_application(func_name(type_function_name(IDENT\"func\")) LParen\"(\" func_arg_list(func_arg_list(func_arg_list(func_arg_list(func_arg_expr(a_expr(c_expr(AexprConst(Iconst(ICONST\"1\")))))) Comma\",\" Whitespace\" \" func_arg_expr(a_expr(c_expr(AexprConst(Iconst(ICONST\"2\")))))) Comma\",\" Whitespace\" \" func_arg_expr(a_expr(c_expr(func_expr(func_application(func_name(type_function_name(IDENT\"func2\")) LParen\"(\" func_arg_list(func_arg_list(func_arg_expr(a_expr(c_expr(AexprConst(Iconst(ICONST\"3\")))))) Comma\",\" Whitespace\" \" func_arg_expr(a_expr(c_expr(AexprConst(Iconst(ICONST\"4\")))))) RParen\")\")))))) Comma\",\" Whitespace\" \" func_arg_expr(a_expr(c_expr(AexprConst(Iconst(ICONST\"5\")))))) RParen\")\"))))))))))))) Semicolon\";\")))",
    )
}

fn when_clause_list() -> ResolvedNode {
    tree_of(
        "select case when a then b when c then d when e then f else g end;",
        "Root(parse_toplevel(stmtmulti(stmtmulti(toplevel_stmt(stmt(SelectStmt(select_no_parens(simple_select(SELECT\"select\" Whitespace\" \" opt_target_list(target_list(target_el(a_expr(c_expr(case_expr(CASE\"case\" Whitespace\" \" when_clause_list(when_clause_list(when_clause_list(when_clause(WHEN\"when\" Whitespace\" \" a_expr(c_expr(columnref(ColId(IDENT\"a\")))) Whitespace\" \" THEN\"then\" Whitespace\" \" a_expr(c_expr(columnref(ColId(IDENT\"b\")))))) Whitespace\" \" when_clause(WHEN\"when\" Whitespace\" \" a_expr(c_expr(columnref(ColId(IDENT\"c\")))) Whitespace\" \" THEN\"then\" Whitespace\" \" a_expr(c_expr(columnref(ColId(IDENT\"d\")))))) Whitespace\" \" when_clause(WHEN\"when\" Whitespace\" \" a_expr(c_expr(columnref(ColId(IDENT\"e\")))) Whitespace\" \" THEN\"then\" Whitespace\" \" a_expr(c_expr(columnref(ColId(IDENT\"f\")))))) Whitespace\" \" case_default(ELSE\"else\" Whitespace\" \" a_expr(c_expr(columnref(ColId(IDENT\"g\"))))) Whitespace\" \" END_P\"end\")))))))))))) Semicolon\";\")))",
    )
}

fn sortby_list() -> ResolvedNode {
    tree_of(
        "select * from t order by a, b, c;",
        "Root(parse_toplevel(stmtmulti(stmtmulti(toplevel_stmt(stmt(SelectStmt(select_no_parens(select_clause(simple_select(SELECT\"select\" Whitespace\" \" opt_target_list(target_list(target_el(Star\"*\"))) Whitespace\" \" from_clause(FROM\"from\" Whitespace\" \" from_list(table_ref(relation_expr(qualified_name(ColId(IDENT\"t\")))))))) Whitespace\" \" sort_clause(ORDER\"order\" Whitespace\" \" BY\"by\" Whitespace\" \" sortby_list(sortby_list(sortby_list(sortby(a_expr(c_expr(columnref(ColId(IDENT\"a\")))))) Comma\",\" Whitespace\" \" sortby(a_expr(c_expr(columnref(ColId(IDENT\"b\")))))) Comma\",\" Whitespace\" \" sortby(a_expr(c_expr(columnref(ColId(IDENT\"c\")))))))))))) Semicolon\";\")))",
    )
}

fn group_by_list() -> ResolvedNode {
    tree_of(
        "select a, b, c from t group by a, b, c;",
        "Root(parse_toplevel(stmtmulti(stmtmulti(toplevel_stmt(stmt(SelectStmt(select_no_parens(simple_select(SELECT\"select\" Whitespace\" \" opt_target_list(target_list(target_list(target_list(target_el(a_expr(c_expr(columnref(ColId(IDENT\"a\")))))) Comma\",\" Whitespace\" \" target_el(a_expr(c_expr(columnref(ColId(IDENT\"b\")))))) Comma\",\" Whitespace\" \" target_el(a_expr(c_expr(columnref(ColId(IDENT\"c\"))))))) Whitespace\" \" from_clause(FROM\"from\" Whitespace\" \" from_list(table_ref(relation_expr(qualified_name(ColId(IDENT\"t\")))))) Whitespace\" \" group_clause(GROUP_P\"group\" Whitespace\" \" BY\"by\" Whitespace\" \" group_by_list(group_by_list(group_by_list(group_by_item(a_expr(c_expr(columnref(ColId(IDENT\"a\")))))) Comma\",\" Whitespace\" \" group_by_item(a_expr(c_expr(columnref(ColId(IDENT\"b\")))))) Comma\",\" Whitespace\" \" group_by_item(a_expr(c_expr(columnref(ColId(IDENT\"c\"))))))))))))) Semicolon\";\")))",
    )
}

fn for_locking_items() -> ResolvedNode {
    tree_of(
        "select * from t1, t2 for update of t1 for update of t2;",
        "Root(parse_toplevel(stmtmulti(stmtmulti(toplevel_stmt(stmt(SelectStmt(select_no_parens(select_clause(simple_select(SELECT\"select\" Whitespace\" \" opt_target_list(target_list(target_el(Star\"*\"))) Whitespace\" \" from_clause(FROM\"from\" Whitespace\" \" from_list(from_list(table_ref(relation_expr(qualified_name(ColId(IDENT\"t1\"))))) Comma\",\" Whitespace\" \" table_ref(relation_expr(qualified_name(ColId(IDENT\"t2\")))))))) Whitespace\" \" for_locking_clause(for_locking_items(for_locking_items(for_locking_item(for_locking_strength(FOR\"for\" Whitespace\" \" UPDATE\"update\") Whitespace\" \" locked_rels_list(OF\"of\" Whitespace\" \" qualified_name_list(qualified_name(ColId(IDENT\"t1\")))))) Whitespace\" \" for_locking_item(for_locking_strength(FOR\"for\" Whitespace\" \" UPDATE\"update\") Whitespace\" \" locked_rels_list(OF\"of\" Whitespace\" \" qualified_name_list(qualified_name(ColId(IDENT\"t2\")))))))))))) Semicolon\";\")))",
    )
}

fn qualified_name_list() -> ResolvedNode {
    tree_of(
        "select a from t for update of t.a, t.b;",
        "Root(parse_toplevel(stmtmulti(stmtmulti(toplevel_stmt(stmt(SelectStmt(select_no_parens(select_clause(simple_select(SELECT\"select\" Whitespace\" \" opt_target_list(target_list(target_el(a_expr(c_expr(columnref(ColId(IDENT\"a\"))))))) Whitespace\" \" from_clause(FROM\"from\" Whitespace\" \" from_list(table_ref(relation_expr(qualified_name(ColId(IDENT\"t\")))))))) Whitespace\" \" for_locking_clause(for_locking_items(for_locking_item(for_locking_strength(FOR\"for\" Whitespace\" \" UPDATE\"update\") Whitespace\" \" locked_rels_list(OF\"of\" Whitespace\" \" qualified_name_list(qualified_name_list(qualified_name(ColId(IDENT\"t\") indirection(indirection_el(Dot\".\" attr_name(ColLabel(IDENT\"a\")))))) Comma\",\" Whitespace\" \" qualified_name(ColId(IDENT\"t\") indirection(indirection_el(Dot\".\" attr_name(ColLabel(IDENT\"b\"))))))))))))))) Semicolon\";\")))",
    )
}

fn cte_list() -> ResolvedNode {
    tree_of(
        "with a as (select 1), b as (select 2) select * from a, b;",
        "Root(parse_toplevel(stmtmulti(stmtmulti(toplevel_stmt(stmt(SelectStmt(select_no_parens(with_clause(WITH\"with\" Whitespace\" \" cte_list(cte_list(common_table_expr(name(ColId(IDENT\"a\")) Whitespace\" \" AS\"as\" Whitespace\" \" LParen\"(\" PreparableStmt(SelectStmt(select_no_parens(simple_select(SELECT\"select\" Whitespace\" \" opt_target_list(target_list(target_el(a_expr(c_expr(AexprConst(Iconst(ICONST\"1\"))))))))))) RParen\")\")) Comma\",\" Whitespace\" \" common_table_expr(name(ColId(IDENT\"b\")) Whitespace\" \" AS\"as\" Whitespace\" \" LParen\"(\" PreparableStmt(SelectStmt(select_no_parens(simple_select(SELECT\"select\" Whitespace\" \" opt_target_list(target_list(target_el(a_expr(c_expr(AexprConst(Iconst(ICONST\"2\"))))))))))) RParen\")\"))) Whitespace\" \" select_clause(simple_select(SELECT\"select\" Whitespace\" \" opt_target_list(target_list(target_el(Star\"*\"))) Whitespace\" \" from_clause(FROM\"from\" Whitespace\" \" from_list(from_list(table_ref(relation_expr(qualified_name(ColId(IDENT\"a\"))))) Comma\",\" Whitespace\" \" table_ref(relation_expr(qualified_name(ColId(IDENT\"b\"))))))))))))) Semicolon\";\")))",
    )
}

fn name_list() -> ResolvedNode {
    tree_of(
        "with t (a, b) as (select 1) select * from t;",
        "Root(parse_toplevel(stmtmulti(stmtmulti(toplevel_stmt(stmt(SelectStmt(select_no_parens(with_clause(WITH\"with\" Whitespace\" \" cte_list(common_table_expr(name(ColId(IDENT\"t\")) Whitespace\" \" opt_name_list(LParen\"(\" name_list(name_list(name(ColId(IDENT\"a\"))) Comma\",\" Whitespace\" \" name(ColId(IDENT\"b\"))) RParen\")\") Whitespace\" \" AS\"as\" Whitespace\" \" LParen\"(\" PreparableStmt(SelectStmt(select_no_parens(simple_select(SELECT\"select\" Whitespace\" \" opt_target_list(target_list(target_el(a_expr(c_expr(AexprConst(Iconst(ICONST\"1\"))))))))))) RParen\")\"))) Whitespace\" \" select_clause(simple_select(SELECT\"select\" Whitespace\" \" opt_target_list(target_list(target_el(Star\"*\"))) Whitespace\" \" from_clause(FROM\"from\" Whitespace\" \" from_list(table_ref(relation_expr(qualified_name(ColId(IDENT\"t\"))))))))))))) Semicolon\";\")))",
    )
}

fn set_clause_list() -> ResolvedNode {
    tree_of(
        "update t set a = 1, b = 2, c = 3;",
        "Root(parse_toplevel(stmtmulti(stmtmulti(toplevel_stmt(stmt(UpdateStmt(UPDATE\"update\" Whitespace\" \" relation_expr_opt_alias(relation_expr(qualified_name(ColId(IDENT\"t\")))) Whitespace\" \" SET\"set\" Whitespace\" \" set_clause_list(set_clause_list(set_clause_list(set_clause(set_target(ColId(IDENT\"a\")) Whitespace\" \" Equals\"=\" Whitespace\" \" a_expr(c_expr(AexprConst(Iconst(ICONST\"1\")))))) Comma\",\" Whitespace\" \" set_clause(set_target(ColId(IDENT\"b\")) Whitespace\" \" Equals\"=\" Whitespace\" \" a_expr(c_expr(AexprConst(Iconst(ICONST\"2\")))))) Comma\",\" Whitespace\" \" set_clause(set_target(ColId(IDENT\"c\")) Whitespace\" \" Equals\"=\" Whitespace\" \" a_expr(c_expr(AexprConst(Iconst(ICONST\"3\")))))))))) Semicolon\";\")))",
    )
}

fn set_target_list() -> ResolvedNode {
    tree_of(
        "update t set (a, b, c) = (1, 2, 3) where id = 1;",
        "Root(parse_toplevel(stmtmulti(stmtmulti(toplevel_stmt(stmt(UpdateStmt(UPDATE\"update\" Whitespace\" \" relation_expr_opt_alias(relation_expr(qualified_name(ColId(IDENT\"t\")))) Whitespace\" \" SET\"set\" Whitespace\" \" set_clause_list(set_clause(LParen\"(\" set_target_list(set_target_list(set_target_list(set_target(ColId(IDENT\"a\"))) Comma\",\" Whitespace\" \" set_target(ColId(IDENT\"b\"))) Comma\",\" Whitespace\" \" set_target(ColId(IDENT\"c\"))) RParen\")\" Whitespace\" \" Equals\"=\" Whitespace\" \" a_expr(c_expr(implicit_row(LParen\"(\" expr_list(expr_list(a_expr(c_expr(AexprConst(Iconst(ICONST\"1\"))))) Comma\",\" Whitespace\" \" a_expr(c_expr(AexprConst(Iconst(ICONST\"2\"))))) Comma\",\" Whitespace\" \" a_expr(c_expr(AexprConst(Iconst(ICONST\"3\")))) RParen\")\"))))) Whitespace\" \" where_or_current_clause(WHERE\"where\" Whitespace\" \" a_expr(a_expr(c_expr(columnref(ColId(IDENT\"id\")))) Whitespace\" \" Equals\"=\" Whitespace\" \" a_expr(c_expr(AexprConst(Iconst(ICONST\"1\")))))))))) Semicolon\";\")))",
    )
}

fn insert_column_list() -> ResolvedNode {
    tree_of(
        "insert into t (a, b, c) values (1, 2, 3);",
        "Root(parse_toplevel(stmtmulti(stmtmulti(toplevel_stmt(stmt(InsertStmt(INSERT\"insert\" Whitespace\" \" INTO\"into\" Whitespace\" \" insert_target(qualified_name(ColId(IDENT\"t\"))) Whitespace\" \" insert_rest(LParen\"(\" insert_column_list(insert_column_list(insert_column_list(insert_column_item(ColId(IDENT\"a\"))) Comma\",\" Whitespace\" \" insert_column_item(ColId(IDENT\"b\"))) Comma\",\" Whitespace\" \" insert_column_item(ColId(IDENT\"c\"))) RParen\")\" Whitespace\" \" SelectStmt(select_no_parens(simple_select(values_clause(VALUES\"values\" Whitespace\" \" LParen\"(\" expr_list(expr_list(expr_list(a_expr(c_expr(AexprConst(Iconst(ICONST\"1\"))))) Comma\",\" Whitespace\" \" a_expr(c_expr(AexprConst(Iconst(ICONST\"2\"))))) Comma\",\" Whitespace\" \" a_expr(c_expr(AexprConst(Iconst(ICONST\"3\"))))) RParen\")\"))))))))) Semicolon\";\")))",
    )
}

fn index_params() -> ResolvedNode {
    tree_of(
        "insert into t (a, b, c) values (1, 2, 3) on conflict (a, b) do nothing;",
        "Root(parse_toplevel(stmtmulti(stmtmulti(toplevel_stmt(stmt(InsertStmt(INSERT\"insert\" Whitespace\" \" INTO\"into\" Whitespace\" \" insert_target(qualified_name(ColId(IDENT\"t\"))) Whitespace\" \" insert_rest(LParen\"(\" insert_column_list(insert_column_list(insert_column_list(insert_column_item(ColId(IDENT\"a\"))) Comma\",\" Whitespace\" \" insert_column_item(ColId(IDENT\"b\"))) Comma\",\" Whitespace\" \" insert_column_item(ColId(IDENT\"c\"))) RParen\")\" Whitespace\" \" SelectStmt(select_no_parens(simple_select(values_clause(VALUES\"values\" Whitespace\" \" LParen\"(\" expr_list(expr_list(expr_list(a_expr(c_expr(AexprConst(Iconst(ICONST\"1\"))))) Comma\",\" Whitespace\" \" a_expr(c_expr(AexprConst(Iconst(ICONST\"2\"))))) Comma\",\" Whitespace\" \" a_expr(c_expr(AexprConst(Iconst(ICONST\"3\"))))) RParen\")\"))))) Whitespace\" \" opt_on_conflict(ON\"on\" Whitespace\" \" CONFLICT\"conflict\" Whitespace\" \" opt_conf_expr(LParen\"(\" index_params(index_params(index_elem(ColId(IDENT\"a\"))) Comma\",\" Whitespace\" \" index_elem(ColId(IDENT\"b\"))) RParen\")\") Whitespace\" \" DO\"do\" Whitespace\" \" NOTHING\"nothing\"))))) Semicolon\";\")))",
    )
}

fn values_clause() -> ResolvedNode {
    tree_of(
        "values (1,2,3), (4,5,6), (7,8,9);",
        "Root(parse_toplevel(stmtmulti(stmtmulti(toplevel_stmt(stmt(SelectStmt(select_no_parens(simple_select(values_clause(values_clause(values_clause(VALUES\"values\" Whitespace\" \" LParen\"(\" expr_list(expr_list(expr_list(a_expr(c_expr(AexprConst(Iconst(ICONST\"1\"))))) Comma\",\" a_expr(c_expr(AexprConst(Iconst(ICONST\"2\"))))) Comma\",\" a_expr(c_expr(AexprConst(Iconst(ICONST\"3\"))))) RParen\")\") Comma\",\" Whitespace\" \" LParen\"(\" expr_list(expr_list(expr_list(a_expr(c_expr(AexprConst(Iconst(ICONST\"4\"))))) Comma\",\" a_expr(c_expr(AexprConst(Iconst(ICONST\"5\"))))) Comma\",\" a_expr(c_expr(AexprConst(Iconst(ICONST\"6\"))))) RParen\")\") Comma\",\" Whitespace\" \" LParen\"(\" expr_list(expr_list(expr_list(a_expr(c_expr(AexprConst(Iconst(ICONST\"7\"))))) Comma\",\" a_expr(c_expr(AexprConst(Iconst(ICONST\"8\"))))) Comma\",\" a_expr(c_expr(AexprConst(Iconst(ICONST\"9\"))))) RParen\")\"))))))) Semicolon\";\")))",
    )
}

fn table_func_element_list() -> ResolvedNode {
    tree_of(
        "select * from unnest(a) as (x int, y text);",
        "Root(parse_toplevel(stmtmulti(stmtmulti(toplevel_stmt(stmt(SelectStmt(select_no_parens(simple_select(SELECT\"select\" Whitespace\" \" opt_target_list(target_list(target_el(Star\"*\"))) Whitespace\" \" from_clause(FROM\"from\" Whitespace\" \" from_list(table_ref(func_table(func_expr_windowless(func_application(func_name(type_function_name(IDENT\"unnest\")) LParen\"(\" func_arg_list(func_arg_expr(a_expr(c_expr(columnref(ColId(IDENT\"a\")))))) RParen\")\"))) Whitespace\" \" func_alias_clause(AS\"as\" Whitespace\" \" LParen\"(\" TableFuncElementList(TableFuncElementList(TableFuncElement(ColId(IDENT\"x\") Whitespace\" \" Typename(SimpleTypename(Numeric(INT_P\"int\"))))) Comma\",\" Whitespace\" \" TableFuncElement(ColId(IDENT\"y\") Whitespace\" \" Typename(SimpleTypename(GenericType(type_function_name(unreserved_keyword(TEXT_P\"text\"))))))) RParen\")\")))))))))) Semicolon\";\")))",
    )
}

#[test]
fn test_assert_exists_passes() {
    let input = "select a, b, c from t;";
    let root = select_abc_from_t();
    assert_eq!(root.text(), input);
    assert_exists(&root, SyntaxKind::SelectStmt);
    assert_exists(&root, SyntaxKind::from_clause);
}

#[test]
#[should_panic(expected = "Expected at least one node of kind InsertStmt, but none was found.")]
fn test_assert_exists_fails() {
    let input = "select a, b, c from t;";
    let root = select_abc_from_t();
    assert_eq!(root.text(), input);
    assert_exists(&root, SyntaxKind::InsertStmt);
}

#[test]
fn test_assert_not_exists_passes() {
    let input = "select a, b, c from t;";
    let root = select_abc_from_t();
    assert_eq!(root.text(), input);
    assert_not_exists(&root, SyntaxKind::InsertStmt);
    assert_not_exists(&root, SyntaxKind::with_clause);
}

#[test]
#[should_panic(expected = "Expected no nodes of kind from_clause, but at least one was found.")]
fn test_assert_not_exists_fails() {
    let input = "select a, b, c from t;";
    let root = select_abc_from_t();
    assert_eq!(root.text(), input);
    assert_not_exists(&root, SyntaxKind::from_clause);
}

#[test]
fn test_assert_node_count_passes() {
    let input = "select a, b, c from t;";
    let root = select_abc_from_t();
    assert_eq!(root.text(), input);

    assert_node_count(&root, SyntaxKind::SelectStmt, 1);
    assert_node_count(&root, SyntaxKind::target_el, 3);
    assert_node_count(&root, SyntaxKind::from_clause, 1);
    assert_node_count(&root, SyntaxKind::DeleteStmt, 0);
}

#[test]
#[should_panic(expected = "Expected 0 nodes of kind SelectStmt, but found 1.")]
fn test_assert_node_count_fails() {
    let input = "select a, b, c from t;";
    let root = select_abc_from_t();
    assert_eq!(root.text(), input);

    assert_node_count(&root, SyntaxKind::SelectStmt, 0);
}

#[test]
fn test_no_direct_nested_kind_passes() {
    let input = "select a;";
    let root = select_a();
    assert_eq!(root.text(), input);

    assert_no_direct_nested_kind(&root, SyntaxKind::target_list);
}

#[test]
#[should_panic(
    expected = "Found a `target_list@7..12` node that directly contains another target_list node as a child."
)]
fn test_no_direct_nested_kind_fails() {
    let input = "select a,b,c;";
    let root = select_abc();
    assert_eq!(root.text(), input);

    assert_no_direct_nested_kind(&root, SyntaxKind::target_list);
}

#[test]
fn test_direct_nested_kind_passes() {
    let input = "select a,b,c;";
    let root = select_abc();
    assert_eq!(root.text(), input);

    assert_direct_nested_kind(&root, SyntaxKind::target_list);
}

#[test]
#[should_panic(
    expected = "Expected at least one directly nested SelectStmt node, but none was found."
)]
fn test_direct_nested_kind_fails() {
    let input = "select a;";
    let root = select_a();
    assert_eq!(root.text(), input);

    assert_direct_nested_kind(&root, SyntaxKind::SelectStmt);
}

#[test]
fn simple_format() {
    let input = "select a;";
    let root = select_a();

    let actual = root.text();
    let expected = "select a;";
    assert_eq!(actual, expected);
    assert_eq!(actual, input);
}

#[test]
fn debug_formmat() {
    let input = "select a;";
    let root = select_a();
    assert_eq!(root.text(), input);

    let actual = root.debug();
    let expected = "Root@0..9";
    assert_eq!(actual, expected);
}

#[test]
fn pretty_debug_formmat() {
    let input = "select a;";
    let root = select_a();
    assert_eq!(root.text(), input);

    let actual = root.debug_pretty();
    let expected = r#"Root@0..9
  parse_toplevel@0..9
    stmtmulti@0..9
      stmtmulti@0..8
        toplevel_stmt@0..8
          stmt@0..8
            SelectStmt@0..8
              select_no_parens@0..8
                simple_select@0..8
                  SELECT@0..6 "select"
                  Whitespace@6..7 " "
                  opt_target_list@7..8
                    target_list@7..8
                      target_el@7..8
                        a_expr@7..8
                          c_expr@7..8
                            columnref@7..8
                              ColId@7..8
                                IDENT@7..8 "a"
      Semicolon@8..9 ";"
"#;
    assert_eq!(actual, expected);
}

#[test]
fn restored_texts_are_equal() {
    let input = "\nSELECT\n\t1 as X\n,\t2\n,\t3\nFROM\n\tA\n,\tB";
    let root = lines();
    assert_eq!(root.text(), input);

    let new_root = transform_cst(&root).unwrap();

    assert_eq!(root.text(), new_root.text());
}

#[test]
fn opt_target_list() {
    let input = "select a,b,c;";
    let root = select_abc();
    assert_eq!(root.text(), input);
    let new_root = transform_cst(&root).unwrap();

    let printed_new_tree = new_root.debug_pretty();
    assert!(!printed_new_tree.contains("opt_target_list"))
}

#[test]
fn target_list() {
    let input = "select a,b,c;";
    let root = select_abc();
    assert_eq!(root.text(), input);
    let new_root = transform_cst(&root).unwrap();

    let actual = new_root.debug_pretty();
    let expected = r#"Root@0..13
  parse_toplevel@0..13
    stmtmulti@0..13
      toplevel_stmt@0..12
        stmt@0..12
          SelectStmt@0..12
            select_no_parens@0..12
              simple_select@0..12
                SELECT@0..6 "select"
                Whitespace@6..7 " "
                target_list@7..12
                  target_el@7..8
                    a_expr@7..8
                      c_expr@7..8
                        columnref@7..8
                          ColId@7..8
                            IDENT@7..8 "a"
                  Comma@8..9 ","
                  target_el@9..10
                    a_expr@9..10
                      c_expr@9..10
                        columnref@9..10
                          ColId@9..10
                            IDENT@9..10 "b"
                  Comma@10..11 ","
                  target_el@11..12
                    a_expr@11..12
                      c_expr@11..12
                        columnref@11..12
                          ColId@11..12
                            IDENT@11..12 "c"
      Semicolon@12..13 ";"
"#;

    assert_eq!(actual, expected);
}

#[test]
fn whitespace_is_removed() {
    let input = "\nSELECT\n\t1 as X\n,\t2\n,\t3\nFROM\n\tA\n,\tB";

    let root = lines();
    assert_eq!(root.text(), input);
    let (new_root, _) = get_ts_tree_and_range_map(input, &root).unwrap();

    let whitespace_removed: String = input.split_whitespace().collect();
    // Lossless property of the CST is broken.
    assert_eq!(new_root.text(), whitespace_removed.as_str());
}

#[test]
fn no_opt_target_list() {
    let input = "select a,b,c;";
    let root = select_abc();
    assert_eq!(root.text(), input);
    assert_exists(&root, SyntaxKind::opt_target_list);

    let (new_root, _) = get_ts_tree_and_range_map(input, &root).unwrap();
    assert_not_exists(&new_root, SyntaxKind::opt_target_list);
}

#[test]
fn no_opt_select_limit() {
    let input = "select a from t for update limit 5 offset 5;";
    let root = for_update_limit();
    assert_eq!(root.text(), input);
    assert_exists(&root, SyntaxKind::opt_select_limit);

    let (new_root, _) = get_ts_tree_and_range_map(input, &root).unwrap();
    assert_not_exists(&new_root, SyntaxKind::opt_select_limit);
}

#[test]
fn no_opt_sort_clause() {
    let input = "select a from t order by a desc limit 5;";
    let root = order_limit();
    assert_eq!(root.text(), input);
    assert_exists(&root, SyntaxKind::opt_sort_clause);

    let (new_root, _) = get_ts_tree_and_range_map(input, &root).unwrap();
    assert_not_exists(&new_root, SyntaxKind::opt_sort_clause);
}

#[test]
fn no_select_limit() {
    let input = "select a from t limit 5;";
    let root = limit();
    assert_eq!(root.text(), input);
    assert_exists(&root, SyntaxKind::select_limit);

    let (new_root, _) = get_ts_tree_and_range_map(input, &root).unwrap();
    assert_not_exists(&new_root, SyntaxKind::select_limit);
}

#[test]
fn no_nested_target_list() {
    let input = "select a,b,c;";

    let root = select_abc();
    assert_eq!(root.text(), input);
    assert_node_count(&root, SyntaxKind::target_list, 3);
    assert_direct_nested_kind(&root, SyntaxKind::target_list);

    let (new_root, _) = get_ts_tree_and_range_map(input, &root).unwrap();
    assert_node_count(&new_root, SyntaxKind::target_list, 1);
    assert_no_direct_nested_kind(&new_root, SyntaxKind::target_list);
}

#[test]
fn no_nested_stmtmulti() {
    let input = "select a,b,c;\nselect d,e from t;";
    let root = two_statements();
    assert_eq!(root.text(), input);
    assert_direct_nested_kind(&root, SyntaxKind::stmtmulti);

    let (new_root, _) = get_ts_tree_and_range_map(input, &root).unwrap();
    assert_no_direct_nested_kind(&new_root, SyntaxKind::stmtmulti);
}

#[test]
fn no_nested_from_list() {
    let input = "select * from t1, t2;";
    let root = from_list();
    assert_eq!(root.text(), input);
    assert_direct_nested_kind(&root, SyntaxKind::from_list);

    let (new_root, _) = get_ts_tree_and_range_map(input, &root).unwrap();
    assert_no_direct_nested_kind(&new_root, SyntaxKind::from_list);
}

#[test]
fn no_nested_indirection() {
    let input = "select t.a, t.b.c, t1.*, a[1], a[4][5], a[2:5], a[3].b, a[3][4].b, a[3:5].b;";
    let root = indirection();
    assert_eq!(root.text(), input);
    assert_direct_nested_kind(&root, SyntaxKind::indirection);

    let (new_root, _) = get_ts_tree_and_range_map(input, &root).unwrap();
    assert_no_direct_nested_kind(&new_root, SyntaxKind::indirection);
}

#[test]
fn no_nested_expr_list() {
    let input = "select a from t where a in (1,2,3);";
    let root = expr_list();
    assert_eq!(root.text(), input);
    assert_direct_nested_kind(&root, SyntaxKind::expr_list);

    let (new_root, _) = get_ts_tree_and_range_map(input, &root).unwrap();
    assert_no_direct_nested_kind(&new_root, SyntaxKind::expr_list);
}

#[test]
fn no_nested_func_arg_list() {
    let input = "select func(1, 2, func2(3, 4), 5);";
    let root = func_arg_list();
    assert_eq!(root.text(), input);
    assert_direct_nested_kind(&root, SyntaxKind::func_arg_list);

    let (new_root, _) = get_ts_tree_and_range_map(input, &root).unwrap();
    assert_no_direct_nested_kind(&new_root, SyntaxKind::func_arg_list);
}

#[test]
fn no_nested_when_clause_list() {
    let input = "select case when a then b when c then d when e then f else g end;";
    let root = when_clause_list();
    assert_eq!(root.text(), input);
    assert_direct_nested_kind(&root, SyntaxKind::when_clause_list);

    let (new_root, _) = get_ts_tree_and_range_map(input, &root).unwrap();
    assert_no_direct_nested_kind(&new_root, SyntaxKind::when_clause_list);
}

#[test]
fn no_nested_sortby_list() {
    let input = "select * from t order by a, b, c;";
    let root = sortby_list();
    assert_eq!(root.text(), input);
    assert_direct_nested_kind(&root, SyntaxKind::sortby_list);

    let (new_root, _) = get_ts_tree_and_range_map(input, &root).unwrap();
    assert_no_direct_nested_kind(&new_root, SyntaxKind::sortby_list);
}

#[test]
fn no_nested_groupby_list() {
    let input = "select a, b, c from t group by a, b, c;";
    let root = group_by_list();
    assert_eq!(root.text(), input);
    assert_direct_nested_kind(&root, SyntaxKind::group_by_list);

    let (new_root, _) = get_ts_tree_and_range_map(input, &root).unwrap();
    assert_no_direct_nested_kind(&new_root, SyntaxKind::group_by_list);
}

#[test]
fn no_nested_for_locking_items() {
    let input = "select * from t1, t2 for update of t1 for update of t2;";
    let root = for_locking_items();
    assert_eq!(root.text(), input);
    assert_direct_nested_kind(&root, SyntaxKind::for_locking_items);

    let (new_root, _) = get_ts_tree_and_range_map(input, &root).unwrap();
    assert_no_direct_nested_kind(&new_root, SyntaxKind::for_locking_items);
}

#[test]
fn no_nested_qualified_name_list() {
    let input = "select a from t for update of t.a, t.b;";
    let root = qualified_name_list();
    assert_eq!(root.text(), input);
    assert_direct_nested_kind(&root, SyntaxKind::qualified_name_list);

    let (new_root, _) = get_ts_tree_and_range_map(input, &root).unwrap();
    assert_no_direct_nested_kind(&new_root, SyntaxKind::qualified_name_list);
}

#[test]
fn no_nested_cte_list() {
    let input = "with a as (select 1), b as (select 2) select * from a, b;";
    let root = cte_list();
    assert_eq!(root.text(), input);
    assert_direct_nested_kind(&root, SyntaxKind::cte_list);

    let (new_root, _) = get_ts_tree_and_range_map(input, &root).unwrap();
    assert_no_direct_nested_kind(&new_root, SyntaxKind::cte_list);
}

#[test]
fn no_nested_name_list() {
    let input = "with t (a, b) as (select 1) select * from t;";
    let root = name_list();
    assert_eq!(root.text(), input);
    assert_direct_nested_kind(&root, SyntaxKind::name_list);

    let (new_root, _) = get_ts_tree_and_range_map(input, &root).unwrap();
    assert_no_direct_nested_kind(&new_root, SyntaxKind::name_list);
}

#[test]
fn no_nested_set_clause_list() {
    let input = "update t set a = 1, b = 2, c = 3;";
    let root = set_clause_list();
    assert_eq!(root.text(), input);
    assert_direct_nested_kind(&root, SyntaxKind::set_clause_list);

    let (new_root, _) = get_ts_tree_and_range_map(input, &root).unwrap();
    assert_no_direct_nested_kind(&new_root, SyntaxKind::set_clause_list);
}

#[test]
fn no_nested_set_target_list() {
    let input = "update t set (a, b, c) = (1, 2, 3) where id = 1;";
    let root = set_target_list();
    assert_eq!(root.text(), input);
    assert_direct_nested_kind(&root, SyntaxKind::set_target_list);

    let (new_root, _) = get_ts_tree_and_range_map(input, &root).unwrap();
    assert_no_direct_nested_kind(&new_root, SyntaxKind::set_target_list);
}

#[test]
fn no_nested_insert_column_list() {
    let input = "insert into t (a, b, c) values (1, 2, 3);";
    let root = insert_column_list();
    assert_eq!(root.text(), input);
    assert_direct_nested_kind(&root, SyntaxKind::insert_column_list);

    let (new_root, _) = get_ts_tree_and_range_map(input, &root).unwrap();
    assert_no_direct_nested_kind(&new_root, SyntaxKind::insert_column_list);
}

#[test]
fn no_nested_index_params() {
    let input = "insert into t (a, b, c) values (1, 2, 3) on conflict (a, b) do nothing;";
    let root = index_params();
    assert_eq!(root.text(), input);
    assert_direct_nested_kind(&root, SyntaxKind::index_params);

    let (new_root, _) = get_ts_tree_and_range_map(input, &root).unwrap();
    assert_no_direct_nested_kind(&new_root, SyntaxKind::index_params);
}

#[test]
fn no_nested_values_clause() {
    let input = "values (1,2,3), (4,5,6), (7,8,9);";
    let root = values_clause();
    assert_eq!(root.text(), input);
    assert_direct_nested_kind(&root, SyntaxKind::values_clause);

    let (new_root, _) = get_ts_tree_and_range_map(input, &root).unwrap();
    assert_no_direct_nested_kind(&new_root, SyntaxKind::values_clause);
}

#[test]
fn no_nested_table_func_element_list() {
    let input = "select * from unnest(a) as (x int, y text);";
    let root = table_func_element_list();
    assert_eq!(root.text(), input);
    assert_direct_nested_kind(&root, SyntaxKind::TableFuncElementList);

    let (new_root, _) = get_ts_tree_and_range_map(input, &root).unwrap();
    assert_no_direct_nested_kind(&new_root, SyntaxKind::TableFuncElementList);
}

fn visit(cursor: &mut TreeCursor, depth: usize, lines: &mut Vec<String>) {
    const UNIT: usize = 2;
    let mut line = " ".repeat(depth * UNIT);
    line += &format!("{:?}", cursor.node().kind());
    if cursor.node().child_count() == 0 {
        line += &format!(" \"{}\"", cursor.node().text().unwrap().escape_default());
    }
    let range = cursor.node().range().unwrap();
    line += &format!(
        " [({}, {})-({}, {})]",
        range.start_position.row,
        range.start_position.column,
        range.end_position.row,
        range.end_position.column
    );
    println!("{line}");
    lines.push(line);

    if cursor.goto_first_child() {
        visit(cursor, depth + 1, lines);
        while cursor.goto_next_sibling() {
            visit(cursor, depth + 1, lines);
        }
        cursor.goto_parent();
    }
}

#[test]
fn test() {
    let input = "\nSELECT\n\t1 as X\n,\t2\n,\t3\nFROM\n\tA\n,\tB";
    let node = lines();
    assert_eq!(node.text(), input);

    let (node, range_map) = get_ts_tree_and_range_map(input, &node).unwrap();
    let mut cursor = as_tree_sitter_cursor(input, &node, &range_map);

    let mut depth = 0;
    let mut seen = 0;
    loop {
        println!("{:?} {:?} {depth}", cursor.node().kind(), cursor.node().text());
        seen += 1;

        if cursor.goto_first_child() {
            depth += 1;
        } else if cursor.goto_next_sibling() {
        } else {
            loop {
                if !cursor.goto_parent() {
                    assert_eq!(depth, 0);
                    assert_eq!(seen, traverse_pre_order(&node).len());
                    return;
                }

                depth -= 1;
                if cursor.goto_next_sibling() {
                    break;
                }
            }
        }
    }
}

#[test]
fn tree_sitter_like_traverse() {
    let src = "\n-- comment\nSELECT\n\t1 as X\n,\t2 -- comment\n,\t3\nFROM\n\tA\n,\tB";

    let node = lines_comments();
    assert_eq!(node.text(), src);
    let (node, range_map) = get_ts_tree_and_range_map(&src, &node).unwrap();
    let mut cursor = as_tree_sitter_cursor(src, &node, &range_map);

    let mut lines = Vec::new();
    visit(&mut cursor, 0, &mut lines);
    assert_eq!(lines[0], "Root [(0, 0)-(8, 3)]");
    assert_eq!(lines[1], "  SQL_COMMENT \"-- comment\" [(1, 0)-(1, 10)]");
    assert_eq!(lines.last().unwrap(), "                  IDENT \"B\" [(8, 2)-(8, 3)]");
}

#[test]
fn goto_first_child_from_token() {
    let src = "select a, b, c from tbl;";
    let (root, range_map) = get_ts_tree_and_range_map(&src, &select_abc_from_tbl()).unwrap();
    let column_id_node = find(&root, SyntaxKind::ColId);

    let mut cursor = as_tree_sitter_cursor(&src, &column_id_node, &range_map);
    cursor.goto_first_child();
    assert_eq!(cursor.node().kind(), SyntaxKind::IDENT);

    assert!(!cursor.goto_first_child());
    assert_eq!(cursor.node().kind(), SyntaxKind::IDENT);
}

#[test]
fn goto_parent_from_root() {
    let src = "select a, b, c from tbl;";
    let (root, range_map) = get_ts_tree_and_range_map(&src, &select_abc_from_tbl()).unwrap();

    let mut cursor = as_tree_sitter_cursor(src, &root, &range_map);

    assert_eq!(cursor.node().kind(), SyntaxKind::Root);
    assert!(!cursor.goto_parent());
    assert_eq!(cursor.node().kind(), SyntaxKind::Root);
}

#[test]
fn goto_parent_from_node() {
    let src = "select a, b, c from tbl;";
    let (root, range_map) = get_ts_tree_and_range_map(&src, &select_abc_from_tbl()).unwrap();

    let target_element = find(&root, SyntaxKind::target_el);
    let mut cursor = as_tree_sitter_cursor(src, &target_element, &range_map);
    assert_eq!(cursor.node().kind(), SyntaxKind::target_el);

    assert!(cursor.goto_parent());
    assert_eq!(cursor.node().kind(), SyntaxKind::target_list);
}

#[test]
fn goto_parent_from_token() {
    let src = "select a, b, c from tbl;";
    let (root, range_map) = get_ts_tree_and_range_map(&src, &select_abc_from_tbl()).unwrap();

    let column_id_node = find(&root, SyntaxKind::ColId);
    let mut cursor = as_tree_sitter_cursor(src, &column_id_node, &range_map);

    cursor.goto_first_child();
    assert_eq!(cursor.node().kind(), SyntaxKind::IDENT);

    assert!(cursor.goto_parent());
    assert_eq!(cursor.node().kind(), SyntaxKind::ColId);
}

#[test]
fn goto_next_sibling() {
    let src = "select a,b,c from tbl;";
    let (root, range_map) = get_ts_tree_and_range_map(&src, &select_abc_from_tbl_tight()).unwrap();

    let target_element = find(&root, SyntaxKind::target_el);
    let mut cursor = as_tree_sitter_cursor(src, &target_element, &range_map);
    //
    // - target_list
    //   - target_el (1)
    //   - Comma ","
    //   - target_el (2)
    //   - Comma ","
    //   - target_el (3)
    //

    // 1
    assert_eq!(cursor.node().kind(), SyntaxKind::target_el);

    assert!(cursor.goto_next_sibling());
    assert_eq!(cursor.node().kind(), SyntaxKind::Comma);

    // 2
    assert!(cursor.goto_next_sibling());
    assert_eq!(cursor.node().kind(), SyntaxKind::target_el);

    assert!(cursor.goto_next_sibling());
    assert_eq!(cursor.node().kind(), SyntaxKind::Comma);

    // 3
    assert!(cursor.goto_next_sibling());
    assert_eq!(cursor.node().kind(), SyntaxKind::target_el);

    // No more siblings
    assert!(!cursor.goto_next_sibling());
    assert_eq!(cursor.node().kind(), SyntaxKind::target_el);
}

#[test]
fn goto_first_child_from_node() {
    let src = "select a, b, c from tbl;";
    let (root, range_map) = get_ts_tree_and_range_map(&src, &select_abc_from_tbl()).unwrap();
    // simple_select has given way to its children: they hang under select_no_parens
    assert_not_exists(&root, SyntaxKind::simple_select);
    let first_select = find(&root, SyntaxKind::select_no_parens);

    let mut cursor = as_tree_sitter_cursor(src, &first_select, &range_map);
    assert_eq!(cursor.node().kind(), SyntaxKind::select_no_parens);

    assert!(cursor.goto_first_child());
    assert_eq!(cursor.node().kind(), SyntaxKind::SELECT);
    assert!(cursor.goto_direct_prev_sibling() == false);
    assert!(cursor.goto_next_sibling());
    assert_eq!(cursor.node().kind(), SyntaxKind::target_list);
    assert!(cursor.goto_direct_prev_sibling());
    assert_eq!(cursor.node().kind(), SyntaxKind::SELECT);
}

fn shaped(input: &str, root: &ResolvedNode) -> (ResolvedNode, RangeMap) {
    assert_eq!(root.text(), input);
    get_ts_tree_and_range_map(input, root).unwrap()
}

fn kinds_of(elements: &[NodeOrToken]) -> Vec<SyntaxKind> {
    elements.iter().map(|e| e.kind()).collect()
}

#[test]
fn shaped_select_a() {
    let (root, _) = shaped("select a;", &select_a());
    assert_eq!(root.kind(), SyntaxKind::Root);
    assert_exists(&root, SyntaxKind::SelectStmt);
    assert_node_count(&root, SyntaxKind::target_list, 1);
    assert_not_exists(&root, SyntaxKind::opt_target_list);
    assert_eq!(
        root.debug_pretty(),
        r#"Root@0..8
  SelectStmt@0..7
    select_no_parens@0..7
      SELECT@0..6 "select"
      target_list@6..7
        target_el@6..7
          a_expr@6..7
            c_expr@6..7
              columnref@6..7
                ColId@6..7
                  IDENT@6..7 "a"
  Semicolon@7..8 ";"
"#
    );
}

#[test]
fn shaped_select_abc() {
    let (root, _) = shaped("select a,b,c;", &select_abc());
    assert_node_count(&root, SyntaxKind::target_list, 1);
    let list = find(&root, SyntaxKind::target_list);
    assert_eq!(
        kinds_of(&children(&list)),
        vec![
            SyntaxKind::target_el,
            SyntaxKind::Comma,
            SyntaxKind::target_el,
            SyntaxKind::Comma,
            SyntaxKind::target_el
        ]
    );
}

#[test]
fn shaped_two_statements() {
    let (root, _) = shaped("select a,b,c;\nselect d,e from t;", &two_statements());
    assert_node_count(&root, SyntaxKind::Root, 1);
    assert_node_count(&root, SyntaxKind::SelectStmt, 2);
    assert_not_exists(&root, SyntaxKind::stmtmulti);
    assert_eq!(
        kinds_of(&children(&root)),
        vec![
            SyntaxKind::SelectStmt,
            SyntaxKind::Semicolon,
            SyntaxKind::SelectStmt,
            SyntaxKind::Semicolon
        ]
    );
}

#[test]
fn shaped_from_list() {
    let (root, _) = shaped("select * from t1, t2;", &from_list());
    assert_node_count(&root, SyntaxKind::from_list, 1);
    assert_no_direct_nested_kind(&root, SyntaxKind::from_list);
    let list = find(&root, SyntaxKind::from_list);
    assert_eq!(
        kinds_of(&children(&list)),
        vec![SyntaxKind::table_ref, SyntaxKind::Comma, SyntaxKind::table_ref]
    );
}

#[test]
fn shaped_rows_and_columns() {
    let input = "select\n\t1 as X\n,\t2 -- c\n,\t3 FROM A,B";
    let (root, range_map) = shaped(input, &lines_rows());
    let three = traverse_pre_order(&root)
        .into_iter()
        .find(|e| !e.is_node() && e.token_text().as_deref() == Some("3"))
        .unwrap();
    let cursor = as_tree_sitter_cursor(input, &three, &range_map);
    let range = cursor.node().range().unwrap();
    // three line ends stand before the token, and a comma and a tab before it in its line
    assert_eq!((range.start_position.row, range.start_position.column), (3, 2));
    assert_eq!((range.end_position.row, range.end_position.column), (3, 3));
    assert_eq!((range.start_byte, range.end_byte), (26, 27));
    assert_eq!(cursor.node().text(), Some("3"));
    assert_eq!(&input[range.start_byte..range.end_byte], "3");
    assert_eq!(input[..range.start_byte].matches('\n').count(), range.start_position.row);
}

#[test]
fn shaped_limit_and_offset() {
    let (root, _) = shaped("select a from t for update limit 5 offset 5;", &for_update_limit());
    assert_not_exists(&root, SyntaxKind::opt_select_limit);
    assert_not_exists(&root, SyntaxKind::select_limit);
    assert_not_exists(&root, SyntaxKind::opt_sort_clause);
    let limit = find(&root, SyntaxKind::limit_clause);
    let offset = limit.next_sibling_or_token().unwrap();
    assert_eq!(offset.kind(), SyntaxKind::offset_clause);
    assert_eq!(limit.parent().unwrap().kind(), SyntaxKind::select_no_parens);
}

fn all_trees() -> Vec<ResolvedNode> {
    vec![
        select_a(),
        select_abc(),
        select_abc_from_t(),
        select_abc_from_tbl(),
        select_abc_from_tbl_tight(),
        lines(),
        lines_comments(),
        lines_rows(),
        for_update_limit(),
        order_limit(),
        limit(),
        two_statements(),
        from_list(),
        indirection(),
        expr_list(),
        func_arg_list(),
        when_clause_list(),
        sortby_list(),
        group_by_list(),
        for_locking_items(),
        qualified_name_list(),
        cte_list(),
        name_list(),
        set_clause_list(),
        set_target_list(),
        insert_column_list(),
        index_params(),
        values_clause(),
        table_func_element_list(),
    ]
}

fn events_equal(a: &ResolvedNode, b: &ResolvedNode) -> bool {
    a.debug_pretty() == b.debug_pretty()
}

#[test]
fn trees_hold_their_text() {
    // what is built is what is read back, and the tokens give the text
    for root in all_trees() {
        let again = build_tree(&root.events()).unwrap();
        assert!(events_equal(&root, &again));
        let tokens: String = traverse_pre_order(&root)
            .iter()
            .filter_map(|e| e.token_text())
            .collect();
        assert_eq!(tokens, root.text());
    }
}

#[test]
fn shaping_twice_is_shaping_once() {
    for root in all_trees() {
        let once = transform_cst(&root).unwrap();
        let twice = transform_cst(&once).unwrap();
        assert!(events_equal(&once, &twice));
        let text = root.text();
        let (once, _) = get_ts_tree_and_range_map(&text, &root).unwrap();
        let (twice, _) = get_ts_tree_and_range_map(&once.text(), &once).unwrap();
        assert!(events_equal(&once, &twice));
    }
}

#[test]
fn shaped_trees_hold_no_wrapper_and_no_nested_list() {
    let wrappers = [
        SyntaxKind::parse_toplevel,
        SyntaxKind::stmtmulti,
        SyntaxKind::toplevel_stmt,
        SyntaxKind::stmt,
        SyntaxKind::simple_select,
        SyntaxKind::select_clause,
        SyntaxKind::opt_select_limit,
        SyntaxKind::opt_target_list,
        SyntaxKind::opt_sort_clause,
        SyntaxKind::select_limit,
    ];
    let lists = [
        SyntaxKind::target_list,
        SyntaxKind::from_list,
        SyntaxKind::indirection,
        SyntaxKind::expr_list,
        SyntaxKind::func_arg_list,
        SyntaxKind::when_clause_list,
        SyntaxKind::group_by_list,
        SyntaxKind::sortby_list,
        SyntaxKind::qualified_name_list,
        SyntaxKind::for_locking_items,
        SyntaxKind::cte_list,
        SyntaxKind::name_list,
        SyntaxKind::set_clause_list,
        SyntaxKind::set_target_list,
        SyntaxKind::insert_column_list,
        SyntaxKind::index_params,
        SyntaxKind::values_clause,
        SyntaxKind::TableFuncElementList,
    ];
    for root in all_trees() {
        let text = root.text();
        let (shaped, _) = get_ts_tree_and_range_map(&text, &root).unwrap();
        for node in descendants(&shaped) {
            assert!(!wrappers.contains(&node.kind()));
            assert!(node.kind() != SyntaxKind::Whitespace);
            if let Some(parent) = node.parent() {
                if lists.contains(&node.kind()) {
                    assert!(node.kind() != parent.kind(), "nested {:?}", node.kind());
                }
            }
        }
        assert!(traverse_pre_order(&shaped).iter().all(|e| e.kind() != SyntaxKind::Whitespace));
        let lossless = transform_cst(&root).unwrap();
        assert_eq!(lossless.text(), text);
        assert_not_exists(&lossless, SyntaxKind::opt_target_list);
        assert_no_direct_nested_kind(&lossless, SyntaxKind::target_list);
    }
}

#[test]
fn ranges_are_those_of_the_text() {
    for root in all_trees() {
        let text = root.text();
        let (shaped, range_map) = get_ts_tree_and_range_map(&text, &root).unwrap();
        for element in traverse_pre_order(&shaped) {
            let cursor = as_tree_sitter_cursor(&text, &element, &range_map);
            let node = cursor.node();
            let range = node.range().unwrap();
            assert_eq!(node.text().unwrap(), &text[range.start_byte..range.end_byte]);
            assert_eq!(range.start_position.row, text[..range.start_byte].matches('\n').count());
            assert_eq!(range.end_position.row, text[..range.end_byte].matches('\n').count());
            let line_start = text[..range.start_byte].rfind('\n').map_or(0, |i| i + 1);
            assert_eq!(range.start_position.column, range.start_byte - line_start);
            if !element.is_node() {
                assert_eq!(node.text().unwrap(), element.token_text().unwrap());
            }
        }
    }
}

#[test]
fn events_that_are_no_tree_build_none() {
    let token = || TreeEvent::Token(SyntaxKind::IDENT, "a".to_string());
    let start = || TreeEvent::StartNode(SyntaxKind::Root);
    let finish = || TreeEvent::FinishNode;
    assert!(build_tree(&vec![]).is_none());
    assert!(build_tree(&vec![token()]).is_none());
    assert!(build_tree(&vec![finish()]).is_none());
    assert!(build_tree(&vec![start()]).is_none());
    assert!(build_tree(&vec![start(), token()]).is_none());
    assert!(build_tree(&vec![start(), finish(), finish()]).is_none());
    assert!(build_tree(&vec![start(), finish(), start(), finish()]).is_none());
    assert!(build_tree(&vec![start(), start(), finish()]).is_none());
    let tree = build_tree(&vec![start(), token(), start(), finish(), finish()]).unwrap();
    assert_eq!(tree.debug_pretty(), "Root@0..1\n  IDENT@0..1 \"a\"\n  Root@1..1\n");
    assert_eq!(tree.child_count(), 2);
    assert_eq!(tree.text_range(), (0, 1));
    assert!(tree.parent().is_none());
    assert!(tree.prev_sibling_or_token().is_none());
    let empty = tree.first_child_or_token().unwrap().next_sibling_or_token().unwrap();
    assert!(empty.is_node());
    assert!(empty.first_child_or_token().is_none());
    assert_eq!(empty.text_range(), (1, 1));
    assert_eq!(empty.prev_sibling_or_token().unwrap().kind(), SyntaxKind::IDENT);
    assert!(empty.events().len() == 2);
}

#[test]
fn kinds_keep_their_numbers() {
    let mut code = 0;
    loop {
        let kind = SyntaxKind::from_raw(RawSyntaxKind(code));
        assert_eq!(kind.into_raw(), RawSyntaxKind(code));
        assert_eq!(SyntaxKind::static_text(kind), None);
        if kind == SyntaxKind::Root {
            break;
        }
        code += 1;
    }
    assert_eq!(code, 1222);
    assert_eq!(SyntaxKind::from_raw(RawSyntaxKind(5000)), SyntaxKind::Root);
    assert_eq!(SyntaxKind::Semicolon.into_raw(), RawSyntaxKind(5));
    assert!(SyntaxKind::C_COMMENT.is_comment());
    assert!(SyntaxKind::SQL_COMMENT.is_comment());
    assert!(!SyntaxKind::Whitespace.is_comment());
}

#[test]
fn a_tree_that_nests_a_list_under_a_wrapper() {
    // a list directly under a wrapper under a list of its kind comes to hang
    // under that list, and a second shaping then makes one list of the two
    let root = build_tree(&read_tree(
        "Root(target_list(opt_target_list(target_list(IDENT\"a\"))))",
    ))
    .unwrap();
    let once = transform_cst(&root).unwrap();
    assert_eq!(
        once.debug_pretty(),
        "Root@0..1\n  target_list@0..1\n    target_list@0..1\n      IDENT@0..1 \"a\"\n"
    );
    let twice = transform_cst(&once).unwrap();
    assert_eq!(twice.debug_pretty(), "Root@0..1\n  target_list@0..1\n    IDENT@0..1 \"a\"\n");
}


#[test]
fn a_cursor_made_from_a_node_stands_on_it() {
    let src = "select a,b,c from tbl;";
    let (root, range_map) = get_ts_tree_and_range_map(&src, &select_abc_from_tbl_tight()).unwrap();
    let target_element = find(&root, SyntaxKind::target_el);
    let node = as_tree_sitter_cursor(src, &target_element, &range_map).node();
    assert_eq!(node.text(), Some("a"));

    let next = node.next_sibling().unwrap();
    assert_eq!(next.kind(), SyntaxKind::Comma);
    assert_eq!(next.text(), Some(","));

    let mut cursor = TreeCursor::from(next);
    assert_eq!(cursor.node().kind(), SyntaxKind::Comma);
    assert!(cursor.goto_next_sibling());
    assert_eq!(cursor.node().kind(), SyntaxKind::target_el);
    assert_eq!(cursor.node().text(), Some("b"));

    let top = as_tree_sitter_cursor(src, &root, &range_map).node();
    assert!(top.next_sibling().is_none());
}

#[test]
fn a_listing_has_a_line_for_each_node_and_token() {
    let input = "a, b";
    let root = tree_of(
        input,
        "Root(target_list(target_list(target_el(IDENT\"a\"))Comma\",\"Whitespace\" \"target_el(IDENT\"b\")))",
    );
    let lines: Vec<(SyntaxKind, Option<String>, usize)> =
        dump_entries(input, &root).unwrap().into_iter().map(|e| (e.kind, e.text, e.depth)).collect();
    let expected = vec![
        (SyntaxKind::Root, Some("a, b".to_string()), 0),
        (SyntaxKind::target_list, Some("a, b".to_string()), 1),
        (SyntaxKind::target_el, Some("a".to_string()), 2),
        (SyntaxKind::IDENT, Some("a".to_string()), 3),
        (SyntaxKind::Comma, Some(",".to_string()), 2),
        (SyntaxKind::target_el, Some("b".to_string()), 2),
        (SyntaxKind::IDENT, Some("b".to_string()), 3),
    ];
    assert_eq!(lines, expected);
}

#[test]
fn a_listing_follows_the_cursor() {
    let src = "select a, b, c from tbl;";
    let lines = dump_entries(src, &select_abc_from_tbl()).unwrap();
    let (root, range_map) = get_ts_tree_and_range_map(&src, &select_abc_from_tbl()).unwrap();
    let mut cursor = as_tree_sitter_cursor(src, &root, &range_map);
    let mut depth = 0;
    let mut at = 0;
    loop {
        assert_eq!(lines[at].kind, cursor.node().kind());
        assert_eq!(lines[at].text.as_deref(), cursor.node().text());
        assert_eq!(lines[at].depth, depth);
        at += 1;
        if cursor.goto_first_child() {
            depth += 1;
        } else if cursor.goto_next_sibling() {
        } else {
            let mut found = false;
            while !found && cursor.goto_parent() {
                depth -= 1;
                found = cursor.goto_next_sibling();
            }
            if !found {
                break;
            }
        }
    }
    assert_eq!(at, lines.len());
    assert_eq!(lines[0].kind, SyntaxKind::Root);
    assert_eq!(lines[0].text.as_deref(), Some(src));
}

#[test]
fn the_lossless_shape_has_no_nested_list_of_statements_or_tables() {
    for root in [two_statements(), from_list(), select_abc()] {
        let shaped = transform_cst(&root).unwrap();
        assert_eq!(shaped.text(), root.text());
        assert_no_direct_nested_kind(&shaped, SyntaxKind::stmtmulti);
        assert_no_direct_nested_kind(&shaped, SyntaxKind::from_list);
        assert_no_direct_nested_kind(&shaped, SyntaxKind::target_list);
        assert_not_exists(&shaped, SyntaxKind::opt_target_list);
    }
    let nested = build_tree(&read_tree("Root(stmtmulti(stmtmulti(Semicolon\";\")))")).unwrap();
    assert_eq!(
        transform_cst(&nested).unwrap().debug_pretty(),
        "Root@0..1\n  stmtmulti@0..1\n    Semicolon@0..1 \";\"\n"
    );
}

#[test]
fn a_node_is_copied_into_a_builder_of_ones_own() {
    let root = select_abc();
    let mut builder = GreenNodeBuilder::new();
    builder.start_node(SyntaxKind::Root);
    let mut ranges = Vec::new();
    walk_and_build(Shaping::Lossless, &root, &mut builder, &mut ranges);
    builder.finish_node();
    let copy = builder.finish().unwrap();
    assert_eq!(copy.debug_pretty(), transform_cst(&root).unwrap().debug_pretty());
    // a range for each node and token that was copied
    assert_eq!(ranges.len() + 1, traverse_pre_order(&copy).len());

    // a builder that holds text takes a node as well
    let mut builder = GreenNodeBuilder::new();
    builder.start_node(SyntaxKind::Root);
    builder.token(SyntaxKind::Whitespace, " ");
    let mut ranges = Vec::new();
    walk_and_build(Shaping::Lossless, &root, &mut builder, &mut ranges);
    builder.finish_node();
    assert_eq!(builder.finish().unwrap().text(), " select a,b,c;");
}

#[test]
fn a_tree_is_built_as_the_events_say_or_not_at_all() {
    // small nodes of one kind with texts of one length, so many that some
    // look the same to the builder that shares small nodes
    let kinds: Vec<SyntaxKind> =
        (0..1223).map(|code| SyntaxKind::from_raw(RawSyntaxKind(code))).collect();
    let mut events = vec![TreeEvent::StartNode(SyntaxKind::Root)];
    for i in 0..300_000usize {
        events.push(TreeEvent::StartNode(SyntaxKind::stmt));
        for kind in [kinds[i % 1223], kinds[i / 1223 % 1223], kinds[(i / 7) % 1223]] {
            events.push(TreeEvent::Token(kind, "x".to_string()));
        }
        events.push(TreeEvent::FinishNode);
    }
    events.push(TreeEvent::FinishNode);
    if let Some(root) = build_tree(&events) {
        let built = root.events();
        assert_eq!(built.len(), events.len());
        assert!(built.iter().zip(&events).all(|(a, b)| a.same(b)));
    }

    // a tree is taken for what it holds only
    let root = build_tree(&read_tree("Root(stmt(Semicolon\";\"))")).unwrap();
    let same = read_tree("Root(stmt(Semicolon\";\"))");
    let other = read_tree("Root(stmt(Comma\";\"))");
    let longer = read_tree("Root(stmt(Semicolon\";\")stmt())");
    assert!(checked_tree(root.clone(), &same).is_some());
    assert!(checked_tree(root.clone(), &other).is_none());
    assert!(checked_tree(root.clone(), &longer).is_none());
    let token = root.first_child_or_token().unwrap().first_child_or_token().unwrap();
    assert!(checked_tree(token, &same).is_none());
}
