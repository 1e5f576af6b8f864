//! Shaping a tree: which nodes and tokens are kept, and the pass that copies
//! them.

use vstd::prelude::*;
use vstd::string::StringSliceAdditionalSpecFns;
use crate::cst::{
    is_start, lemma_text_len_prefix, lemma_text_len_split, open_count, scan_end, step_kind,
    step_len, steps_len, subtree_end, text_len, visit_matches, GreenNodeBuilder, ResolvedNode, Step,
    TreeEvent,
};
use crate::syntax_kind::SyntaxKind;

verus! {

/// The two ways to shape a tree.
#[derive(Debug, Clone, Copy, PartialEq, Eq, Structural)]
pub enum Shaping {
    /// Keeps all text: nested lists of statements, of targets and of
    /// tables become one each, and the optional target list gives way to
    /// its children.
    Lossless,
    /// The shape of tree-sitter: nested lists of many kinds become one,
    /// more wrappers give way to their children, and whitespace is left
    /// out.
    TreeSitter,
}

/// Whether nodes of a kind are lists: a node of such a kind directly under
/// a node of the same kind gives way to its children.
pub open spec fn is_list_kind(shaping: Shaping, kind: SyntaxKind) -> bool {
    match shaping {
        Shaping::Lossless => kind == SyntaxKind::stmtmulti || kind == SyntaxKind::target_list || kind
            == SyntaxKind::from_list,
        Shaping::TreeSitter => kind == SyntaxKind::stmtmulti || kind == SyntaxKind::target_list
            || kind == SyntaxKind::from_list || kind == SyntaxKind::indirection || kind == SyntaxKind::expr_list || kind
            == SyntaxKind::func_arg_list || kind == SyntaxKind::when_clause_list || kind
            == SyntaxKind::group_by_list || kind == SyntaxKind::sortby_list || kind
            == SyntaxKind::qualified_name_list || kind == SyntaxKind::for_locking_items || kind
            == SyntaxKind::cte_list || kind == SyntaxKind::name_list || kind
            == SyntaxKind::set_clause_list || kind == SyntaxKind::set_target_list || kind
            == SyntaxKind::insert_column_list || kind == SyntaxKind::index_params || kind
            == SyntaxKind::values_clause || kind == SyntaxKind::TableFuncElementList,
    }
}

/// Whether nodes of a kind are wrappers: a node of such a kind always gives
/// way to its children.
pub open spec fn is_wrapper_kind(shaping: Shaping, kind: SyntaxKind) -> bool {
    match shaping {
        Shaping::Lossless => kind == SyntaxKind::opt_target_list,
        Shaping::TreeSitter => kind == SyntaxKind::parse_toplevel || kind == SyntaxKind::stmtmulti
            || kind == SyntaxKind::toplevel_stmt || kind == SyntaxKind::stmt || kind
            == SyntaxKind::simple_select || kind == SyntaxKind::select_clause || kind
            == SyntaxKind::opt_select_limit || kind == SyntaxKind::opt_target_list || kind
            == SyntaxKind::opt_sort_clause || kind == SyntaxKind::select_limit,
    }
}

/// Whether tokens of a kind are left out.
pub open spec fn drops_token(shaping: Shaping, kind: SyntaxKind) -> bool {
    shaping == Shaping::TreeSitter && kind == SyntaxKind::Whitespace
}

/// Whether a node of kind `kind` under a node of kind `parent` is kept.
pub open spec fn keeps_node(shaping: Shaping, parent: SyntaxKind, kind: SyntaxKind) -> bool {
    !is_wrapper_kind(shaping, kind) && !(is_list_kind(shaping, kind) && parent == kind)
}

/// Whether a shaping flattens the nodes of a kind.
pub fn list_kind(shaping: Shaping, kind: SyntaxKind) -> (b: bool)
    ensures
        b == is_list_kind(shaping, kind),
{
    match shaping {
        Shaping::Lossless => kind == SyntaxKind::stmtmulti || kind == SyntaxKind::target_list || kind
            == SyntaxKind::from_list,
        Shaping::TreeSitter => kind == SyntaxKind::stmtmulti || kind == SyntaxKind::target_list
            || kind == SyntaxKind::from_list || kind == SyntaxKind::indirection || kind == SyntaxKind::expr_list || kind
            == SyntaxKind::func_arg_list || kind == SyntaxKind::when_clause_list || kind
            == SyntaxKind::group_by_list || kind == SyntaxKind::sortby_list || kind
            == SyntaxKind::qualified_name_list || kind == SyntaxKind::for_locking_items || kind
            == SyntaxKind::cte_list || kind == SyntaxKind::name_list || kind
            == SyntaxKind::set_clause_list || kind == SyntaxKind::set_target_list || kind
            == SyntaxKind::insert_column_list || kind == SyntaxKind::index_params || kind
            == SyntaxKind::values_clause || kind == SyntaxKind::TableFuncElementList,
    }
}

/// Whether a shaping removes the nodes of a kind.
pub fn wrapper_kind(shaping: Shaping, kind: SyntaxKind) -> (b: bool)
    ensures
        b == is_wrapper_kind(shaping, kind),
{
    match shaping {
        Shaping::Lossless => kind == SyntaxKind::opt_target_list,
        Shaping::TreeSitter => kind == SyntaxKind::parse_toplevel || kind == SyntaxKind::stmtmulti
            || kind == SyntaxKind::toplevel_stmt || kind == SyntaxKind::stmt || kind
            == SyntaxKind::simple_select || kind == SyntaxKind::select_clause || kind
            == SyntaxKind::opt_select_limit || kind == SyntaxKind::opt_target_list || kind
            == SyntaxKind::opt_sort_clause || kind == SyntaxKind::select_limit,
    }
}

/// A node of the tree that is read, entered and not left: its kind, and
/// whether it is kept.
pub type Open = (SyntaxKind, bool);

/// The nodes that are entered and not left after the first `n` steps, the
/// outermost first, above `base`: the node whose children the steps are.
pub open spec fn open_stack(shaping: Shaping, steps: Seq<Step>, n: int, base: Open) -> Seq<Open>
    decreases n,
{
    if n <= 0 {
        seq![base]
    } else {
        let before = open_stack(shaping, steps, n - 1, base);
        match steps[n - 1] {
            Step::Enter(kind) => before.push((kind, keeps_node(shaping, before.last().0, kind))),
            Step::Token(_, _) => before,
            Step::Leave => if before.len() > 1 {
                before.drop_last()
            } else {
                before
            },
        }
    }
}

/// Whether step `n` is copied, after the `n` steps before it.
pub open spec fn copies(shaping: Shaping, steps: Seq<Step>, n: int, base: Open) -> bool {
    let before = open_stack(shaping, steps, n, base);
    match steps[n] {
        Step::Enter(kind) => keeps_node(shaping, before.last().0, kind),
        Step::Token(kind, _) => !drops_token(shaping, kind),
        Step::Leave => before.len() > 1 && before.last().1,
    }
}

/// What is copied of the first `n` steps, in order.
pub open spec fn emitted(shaping: Shaping, steps: Seq<Step>, n: int, base: Open) -> Seq<Step>
    decreases n,
{
    if n <= 0 {
        Seq::empty()
    } else if copies(shaping, steps, n - 1, base) {
        emitted(shaping, steps, n - 1, base).push(steps[n - 1])
    } else {
        emitted(shaping, steps, n - 1, base)
    }
}

/// The positions among the first `n` steps of the nodes and tokens that are
/// copied, in order.
pub open spec fn kept_starts(shaping: Shaping, steps: Seq<Step>, n: int, base: Open) -> Seq<int>
    decreases n,
{
    if n <= 0 {
        Seq::empty()
    } else if is_start(steps[n - 1]) && copies(shaping, steps, n - 1, base) {
        kept_starts(shaping, steps, n - 1, base).push(n - 1)
    } else {
        kept_starts(shaping, steps, n - 1, base)
    }
}

/// The number of kept nodes in a stack above its first entry.
pub open spec fn kept_open(stack: Seq<Open>) -> nat
    decreases stack.len(),
{
    if stack.len() <= 1 {
        0
    } else {
        kept_open(stack.drop_last()) + if stack.last().1 {
            1nat
        } else {
            0nat
        }
    }
}

/// One `Leave` for each of `n` nodes.
pub open spec fn leaves(n: nat) -> Seq<Step> {
    Seq::new(n, |i: int| Step::Leave)
}

/// The steps of the children of a node: its steps without the first and
/// the last.
pub open spec fn inner_steps(subtree: Seq<Step>) -> Seq<Step> {
    if subtree.len() >= 2 {
        subtree.subrange(1, subtree.len() - 1)
    } else {
        Seq::empty()
    }
}

/// The node whose children the inner steps of a subtree are: kept, and of
/// the kind of the subtree's first step.
pub open spec fn base_of(subtree: Seq<Step>) -> Open {
    if subtree.len() >= 1 {
        (step_kind(subtree[0]), true)
    } else {
        (SyntaxKind::Root, true)
    }
}

/// The shaped tree of a node: a new root, and under it what is copied of
/// the children of the node. Nodes that the steps leave open are closed.
pub open spec fn shaped(shaping: Shaping, subtree: Seq<Step>) -> Seq<Step> {
    let inner = inner_steps(subtree);
    let base = base_of(subtree);
    let n = inner.len() as int;
    seq![Step::Enter(SyntaxKind::Root)] + emitted(shaping, inner, n, base) + leaves(
        kept_open(open_stack(shaping, inner, n, base)),
    ) + seq![Step::Leave]
}

/// The number of nodes and tokens that begin among steps.
pub open spec fn count_starts(steps: Seq<Step>) -> nat
    decreases steps.len(),
{
    if steps.len() == 0 {
        0
    } else {
        count_starts(steps.drop_last()) + if is_start(steps.last()) {
            1nat
        } else {
            0nat
        }
    }
}

/// Whether each beginning of steps but the empty one has a node entered
/// and not left.
pub open spec fn stays_open(steps: Seq<Step>) -> bool {
    forall|n: int| 0 < n <= steps.len() ==> #[trigger] open_count(steps.subrange(0, n)) >= 1
}

/// Steps that begin with a node, keep a node open until the last step, and
/// leave none open after it, are the walk of one node.
pub proof fn lemma_balanced_is_tree(steps: Seq<Step>, at: int)
    requires
        1 <= at < steps.len(),
        steps[0] is Enter,
        forall|n: int| 0 < n < steps.len() ==> #[trigger] open_count(steps.subrange(0, n)) >= 1,
        open_count(steps) == 0,
    ensures
        scan_end(steps, at, open_count(steps.subrange(0, at)) as nat) == steps.len() - 1,
    decreases steps.len() - at,
{
    let o = open_count(steps.subrange(0, at));
    let next = steps.subrange(0, at + 1);
    assert(next.drop_last() =~= steps.subrange(0, at));
    assert(next.last() == steps[at]);
    if at == steps.len() - 1 {
        assert(next =~= steps);
    } else {
        assert(open_count(next) >= 1);
        lemma_balanced_is_tree(steps, at + 1);
    }
}

/// The range in bytes of the text of the element that begins at position
/// `j` of a tree.
pub open spec fn start_range(tree: Seq<Step>, j: int) -> (int, int) {
    (
        text_len(tree, 0, j) as int,
        if tree[j] is Enter {
            text_len(tree, 0, subtree_end(tree, j) + 1) as int
        } else {
            text_len(tree, 0, j + 1) as int
        },
    )
}

/// The ranges in the tree that is read of the nodes and tokens that are
/// copied of the first `n` children steps of the node at position `idx`,
/// in order.
pub open spec fn kept_ranges(
    shaping: Shaping,
    tree: Seq<Step>,
    idx: int,
    n: int,
) -> Seq<(int, int)>
    decreases n,
{
    let sub = tree.subrange(idx, subtree_end(tree, idx) + 1);
    if n <= 0 {
        Seq::empty()
    } else if is_start(inner_steps(sub)[n - 1]) && copies(
        shaping,
        inner_steps(sub),
        n - 1,
        base_of(sub),
    ) {
        kept_ranges(shaping, tree, idx, n - 1).push(start_range(tree, idx + n))
    } else {
        kept_ranges(shaping, tree, idx, n - 1)
    }
}

/// Ranges as pairs of integers.
pub open spec fn pairs(ranges: Seq<(u32, u32)>) -> Seq<(int, int)> {
    ranges.map_values(|r: (u32, u32)| (r.0 as int, r.1 as int))
}

/// What one more step adds to the number of open nodes, to the number of
/// elements and to the length of the text.
pub proof fn lemma_open_count_push(steps: Seq<Step>, step: Step)
    ensures
        open_count(steps.push(step)) == open_count(steps) + match step {
            Step::Enter(_) => 1int,
            Step::Token(_, _) => 0int,
            Step::Leave => -1int,
        },
        count_starts(steps.push(step)) == count_starts(steps) + if is_start(step) {
            1nat
        } else {
            0nat
        },
        steps_len(steps.push(step)) == steps_len(steps) + step_len(step),
{
    let next = steps.push(step);
    assert(next.drop_last() =~= steps);
    assert(next.last() == step);
    lemma_text_len_prefix(next, steps.len() as int, steps.len() as int);
    assert(next.subrange(0, steps.len() as int) =~= steps);
}

/// Steps that stay open still do so with one more step after which a node
/// is open.
pub proof fn lemma_stays_open_push(steps: Seq<Step>, step: Step)
    requires
        stays_open(steps),
        open_count(steps.push(step)) >= 1,
    ensures
        stays_open(steps.push(step)),
{
    let next = steps.push(step);
    assert forall|n: int| 0 < n <= next.len() implies #[trigger] open_count(
        next.subrange(0, n),
    ) >= 1 by {
        if n <= steps.len() {
            assert(next.subrange(0, n) =~= steps.subrange(0, n));
        } else {
            assert(next.subrange(0, n) =~= next);
        }
    }
}

/// Copies to a builder what is kept of the children of a node, and records
/// the range in the node's tree of each node and token that is copied. A
/// builder that has had a node open all along still has.
pub fn walk_and_build(
    shaping: Shaping,
    node: &ResolvedNode,
    builder: &mut GreenNodeBuilder,
    ranges: &mut Vec<(u32, u32)>,
)
    ensures
        node.ok(),
        final(builder).steps() == old(builder).steps() + emitted(
            shaping,
            inner_steps(node.subtree()),
            inner_steps(node.subtree()).len() as int,
            base_of(node.subtree()),
        ) + leaves(
            kept_open(
                open_stack(
                    shaping,
                    inner_steps(node.subtree()),
                    inner_steps(node.subtree()).len() as int,
                    base_of(node.subtree()),
                ),
            ),
        ),
        stays_open(old(builder).steps()) && old(builder).steps().len() > 0 ==> stays_open(
            final(builder).steps(),
        ),
        open_count(final(builder).steps()) == open_count(old(builder).steps()),
        steps_len(final(builder).steps()) <= steps_len(old(builder).steps()) + text_len(
            node.tree(),
            node.index(),
            subtree_end(node.tree(), node.index()) + 1,
        ),
        pairs(final(ranges)@) == pairs(old(ranges)@) + kept_ranges(
            shaping,
            node.tree(),
            node.index(),
            inner_steps(node.subtree()).len() as int,
        ),
        count_starts(final(builder).steps()) - count_starts(old(builder).steps()) == final(ranges)@.len() - old(ranges)@.len(),
{
    let visits = node.walk();
    let len = visits.len();
    let ghost tree = node.tree();
    let ghost idx = node.index();
    let ghost sub = node.subtree();
    let ghost inner = inner_steps(sub);
    let ghost base = base_of(sub);
    let ghost steps0 = builder.steps();
    let ghost ranges0 = pairs(ranges@);
    let ghost open0 = stays_open(steps0) && steps0.len() > 0;
    proof {
        assert(steps0.subrange(0, steps0.len() as int) =~= steps0);
        if open0 {
            assert(open_count(steps0) >= 1);
        }
        assert(steps0 + Seq::<Step>::empty() =~= steps0);
        assert(leaves(0) =~= Seq::<Step>::empty());
        assert(ranges0 + Seq::<(int, int)>::empty() =~= ranges0);
        assert(open_stack(shaping, inner, 0, base) =~= seq![base]);
        lemma_text_len_split(tree, 0, idx, tree.len() as int);
        lemma_text_len_split(tree, idx, subtree_end(tree, idx) + 1, tree.len() as int);
    }
    if len < 2 {
        proof {
            assert(inner =~= Seq::<Step>::empty());
            assert(steps0 + Seq::<Step>::empty() + Seq::<Step>::empty() =~= steps0);
        }
        return ;
    }
    assert(visit_matches(tree, idx, visits@[0]));
    let base_kind = match &visits[0].event {
        TreeEvent::StartNode(kind) => *kind,
        TreeEvent::Token(kind, _) => *kind,
        TreeEvent::FinishNode => SyntaxKind::Root,
    };
    let mut stack: Vec<Open> = Vec::new();
    stack.push((base_kind, true));
    assert(stack@ =~= seq![base]);
    proof {
        lemma_text_len_split(tree, 0, idx, tree.len() as int);
        lemma_text_len_split(tree, idx, idx + 1, tree.len() as int);
        assert(text_len(tree, idx + 1, idx + 1) == 0);
        assert(idx + len == subtree_end(tree, idx) + 1);
    }
    let mut m: usize = 1;
    while m < len - 1
        invariant
            1 <= m <= len - 1,
            len == visits@.len(),
            len == sub.len(),
            node.ok(),
            tree == node.tree(),
            idx == node.index(),
            sub == node.subtree(),
            inner == inner_steps(sub),
            base == base_of(sub),
            forall|k: int| 0 <= k < len ==> visit_matches(tree, idx + k, #[trigger] visits@[k]),
            stack@ == open_stack(shaping, inner, m - 1, base),
            stack@.len() >= 1,
            builder.steps() == steps0 + emitted(shaping, inner, m - 1, base),
            pairs(ranges@) == ranges0 + kept_ranges(shaping, tree, idx, m - 1),
            open_count(builder.steps()) == open_count(steps0) + kept_open(stack@),
            open0 ==> open_count(steps0) >= 1,
            open0 ==> stays_open(builder.steps()),
            steps_len(builder.steps()) <= steps_len(steps0) + text_len(tree, idx + 1, idx + m),
            text_len(tree, 0, tree.len() as int) <= u32::MAX,
            count_starts(builder.steps()) - count_starts(steps0) == ranges@.len() - old(ranges)@.len(),
        decreases len - m,
    {
        let ghost before = stack@;
        let ghost out = builder.steps();
        let ghost step = tree[idx + m];
        proof {
            assert(visit_matches(tree, idx + m, visits@[m as int]));
            assert(inner[m - 1] == sub[m as int]);
            assert(sub[m as int] == tree[idx + m]);
            lemma_text_len_split(tree, 0, idx + 1, idx + m);
            lemma_text_len_split(tree, 0, idx + m + 1, tree.len() as int);
            lemma_text_len_split(tree, idx + 1, idx + m, idx + m + 1);
            lemma_text_len_split(tree, idx, idx + 1, idx + len);
            lemma_text_len_split(tree, idx + 1, idx + m + 1, idx + len);
            assert(text_len(tree, idx + m, idx + m + 1) == step_len(step)) by {
                assert(text_len(tree, idx + m, idx + m) == 0);
            }
            lemma_open_count_push(out, step);
        }
        match &visits[m].event {
            TreeEvent::StartNode(kind) => {
                let parent = stack[stack.len() - 1].0;
                let keep = !wrapper_kind(shaping, *kind) && !(list_kind(shaping, *kind) && parent
                    == *kind);
                stack.push((*kind, keep));
                proof {
                    assert(stack@.drop_last() =~= before);
                }
                if keep {
                    ranges.push((visits[m].start, visits[m].end));
                    builder.start_node(*kind);
                    proof {
                        if open0 {
                            lemma_stays_open_push(out, step);
                        }
                    }
                }
            },
            TreeEvent::Token(kind, text) => {
                if !(shaping == Shaping::TreeSitter && *kind == SyntaxKind::Whitespace) {
                    ranges.push((visits[m].start, visits[m].end));
                    builder.token(*kind, text.as_str());
                    proof {
                        if open0 {
                            lemma_stays_open_push(out, step);
                        }
                    }
                }
            },
            TreeEvent::FinishNode => {
                if stack.len() > 1 {
                    let top = stack[stack.len() - 1];
                    stack.pop();
                    proof {
                        assert(stack@ =~= before.drop_last());
                    }
                    if top.1 {
                        builder.finish_node();
                        proof {
                            if open0 {
                                lemma_stays_open_push(out, step);
                            }
                        }
                    }
                }
            },
        }
        proof {
            let old_pairs = ranges0 + kept_ranges(shaping, tree, idx, m - 1);
            if is_start(step) && copies(shaping, inner, m - 1, base) {
                assert(pairs(ranges@) =~= old_pairs.push(start_range(tree, idx + m)));
            }
            assert(pairs(ranges@) =~= ranges0 + kept_ranges(shaping, tree, idx, m as int));
            assert(builder.steps() =~= steps0 + emitted(shaping, inner, m as int, base));
        }
        m += 1;
    }
    let ghost full = stack@;
    let ghost copied = builder.steps();
    let mut closed: usize = 0;
    let depth = stack.len();
    proof {
        assert(copied + leaves(0) =~= copied);
    }
    while stack.len() > 1
        invariant
            stack@.len() >= 1,
            builder.steps() == copied + leaves(closed as nat),
            kept_open(stack@) + closed == kept_open(full),
            open_count(builder.steps()) == open_count(steps0) + kept_open(stack@),
            open0 ==> open_count(steps0) >= 1,
            open0 ==> stays_open(builder.steps()),
            steps_len(builder.steps()) == steps_len(copied),
            count_starts(builder.steps()) == count_starts(copied),
            closed + stack@.len() <= depth,
        decreases stack@.len(),
    {
        let ghost before = stack@;
        let ghost out = builder.steps();
        let top = stack[stack.len() - 1];
        stack.pop();
        proof {
            assert(stack@ =~= before.drop_last());
            lemma_open_count_push(out, Step::Leave);
        }
        if top.1 {
            builder.finish_node();
            proof {
                if open0 {
                    lemma_stays_open_push(out, Step::Leave);
                }
                assert(leaves(closed as nat).push(Step::Leave) =~= leaves((closed + 1) as nat));
                assert(builder.steps() =~= copied + leaves((closed + 1) as nat));
            }
            closed += 1;
        }
    }
    proof {
        assert(inner.len() == len - 2);
        assert(builder.steps() =~= steps0 + emitted(shaping, inner, inner.len() as int, base)
            + leaves(kept_open(full)));
        lemma_text_len_split(tree, 0, idx + 1, idx + len - 1);
        lemma_text_len_split(tree, 0, idx + len - 1, tree.len() as int);
        lemma_text_len_split(tree, idx, idx + 1, idx + len);
        lemma_text_len_split(tree, idx + 1, idx + len - 1, idx + len);
    }
}

} // verus!
