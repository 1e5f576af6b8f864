//! What holds of every shaped tree.

use vstd::prelude::*;
use vstd::utf8::{
    encode_scalar, encode_utf8, encode_utf8_first_scalar, encode_utf8_valid_utf8, is_char_boundary,
    pop_first_scalar,
};
use crate::cst::{is_start, step_kind, tokens_text, Step};
use super::convert::{
    count_below, mapping_upto, rows_and_columns, spec_line_breaks, spec_point, spec_range,
};
use super::convert::shaped_ranges;
use super::shape::{count_starts, kept_ranges, start_range};
use crate::cst::{
    element_at, lemma_scan_ge, lemma_text_len_split, scan_end, subtree_end, text_len, tree_wf,
};
use super::{can_slice, Range};
use crate::syntax_kind::SyntaxKind;
use super::shape::{
    base_of, copies, drops_token, emitted, inner_steps, is_list_kind, is_wrapper_kind, keeps_node,
    kept_open, leaves, open_stack, shaped, Open, Shaping,
};

verus! {

/// The kinds of the nodes that are entered and not left after the first
/// `n` steps, the outermost first.
pub open spec fn open_kinds(steps: Seq<Step>, n: int) -> Seq<SyntaxKind>
    decreases n,
{
    if n <= 0 {
        Seq::empty()
    } else {
        let before = open_kinds(steps, n - 1);
        match steps[n - 1] {
            Step::Enter(kind) => before.push(kind),
            Step::Token(_, _) => before,
            Step::Leave => if before.len() > 0 {
                before.drop_last()
            } else {
                before
            },
        }
    }
}

/// The kind of the parent of the element that begins at step `j`: of the
/// node that was entered last and not left before it.
pub open spec fn parent_kind(steps: Seq<Step>, j: int) -> Option<SyntaxKind> {
    if open_kinds(steps, j).len() > 0 {
        Some(open_kinds(steps, j).last())
    } else {
        None
    }
}

/// Whether no node of a list kind has a child of its own kind.
pub open spec fn no_nested_list(shaping: Shaping, steps: Seq<Step>) -> bool {
    forall|j: int|
        0 <= j < steps.len() && steps[j] is Enter && is_list_kind(shaping, step_kind(steps[j]))
            ==> #[trigger] parent_kind(steps, j) != Some(step_kind(steps[j]))
}

/// Whether no node is of a wrapper kind.
pub open spec fn no_wrapper(shaping: Shaping, steps: Seq<Step>) -> bool {
    forall|j: int|
        0 <= j < steps.len() && (#[trigger] steps[j]) is Enter ==> !is_wrapper_kind(
            shaping,
            step_kind(steps[j]),
        )
}

/// Whether no token is of a kind that the shaping leaves out.
pub open spec fn no_dropped_token(shaping: Shaping, steps: Seq<Step>) -> bool {
    forall|j: int|
        0 <= j < steps.len() && (#[trigger] steps[j]) is Token ==> !drops_token(
            shaping,
            step_kind(steps[j]),
        )
}

/// Whether no node of a wrapper kind is a child of a node of a list kind,
/// among the first `n` steps below `base`.
pub open spec fn no_wrapper_in_list(shaping: Shaping, steps: Seq<Step>, n: int, base: Open) -> bool {
    forall|j: int|
        0 <= j < n && steps[j] is Enter && is_wrapper_kind(shaping, step_kind(steps[j]))
            ==> !is_list_kind(shaping, (#[trigger] open_stack(shaping, steps, j, base)).last().0)
}

/// Whether no node of a list kind that is kept comes to hang under a node
/// of its kind, among the first `n` steps below `base`: the kept node that
/// is open last before it, or else the new root, is of another kind.
pub open spec fn no_list_under_list(shaping: Shaping, steps: Seq<Step>, n: int, base: Open) -> bool {
    forall|j: int|
        0 <= j < n && steps[j] is Enter && is_list_kind(shaping, step_kind(steps[j])) && copies(
            shaping,
            steps,
            j,
            base,
        ) ==> (seq![SyntaxKind::Root] + kept_kinds(
            #[trigger] open_stack(shaping, steps, j, base),
        )).last() != step_kind(steps[j])
}

/// The kinds of the kept nodes of a stack above its first entry.
pub open spec fn kept_kinds(stack: Seq<Open>) -> Seq<SyntaxKind>
    decreases stack.len(),
{
    if stack.len() <= 1 {
        Seq::empty()
    } else if stack.last().1 {
        kept_kinds(stack.drop_last()).push(stack.last().0)
    } else {
        kept_kinds(stack.drop_last())
    }
}

/// What is open after some steps does not depend on later steps.
pub proof fn lemma_open_kinds_prefix(a: Seq<Step>, b: Seq<Step>, n: int)
    requires
        0 <= n <= a.len(),
    ensures
        open_kinds(a + b, n) == open_kinds(a, n),
    decreases n,
{
    if n > 0 {
        lemma_open_kinds_prefix(a, b, n - 1);
        assert((a + b)[n - 1] == a[n - 1]);
    }
}

/// The stack of open nodes begins with the node that the copy hangs
/// under.
pub proof fn lemma_stack_nonempty(shaping: Shaping, steps: Seq<Step>, n: int, base: Open)
    requires
        0 <= n <= steps.len(),
    ensures
        open_stack(shaping, steps, n, base).len() >= 1,
        open_stack(shaping, steps, n, base)[0] == base,
    decreases n,
{
    if n > 0 {
        lemma_stack_nonempty(shaping, steps, n - 1, base);
    }
}

/// The open nodes that are copied are as many as their kinds.
pub proof fn lemma_kept_kinds_len(stack: Seq<Open>)
    ensures
        kept_kinds(stack).len() == kept_open(stack),
    decreases stack.len(),
{
    if stack.len() > 1 {
        lemma_kept_kinds_len(stack.drop_last());
    }
}

/// The copy root with what is copied of the first `n` steps.
pub open spec fn copied(shaping: Shaping, steps: Seq<Step>, n: int, base: Open) -> Seq<Step> {
    seq![Step::Enter(SyntaxKind::Root)] + emitted(shaping, steps, n, base)
}

/// In the copy, the nodes that are open are the new root and the kept
/// nodes that are open in the tree that is read.
pub proof fn lemma_open_in_copy(shaping: Shaping, steps: Seq<Step>, n: int, base: Open)
    requires
        0 <= n <= steps.len(),
    ensures
        open_kinds(
            copied(shaping, steps, n, base),
            copied(shaping, steps, n, base).len() as int,
        ) == seq![SyntaxKind::Root] + kept_kinds(open_stack(shaping, steps, n, base)),
    decreases n,
{
    let out = copied(shaping, steps, n, base);
    if n == 0 {
        assert(out =~= seq![Step::Enter(SyntaxKind::Root)]);
        assert(open_kinds(out, 0) =~= Seq::<SyntaxKind>::empty());
        assert(open_kinds(out, 1) =~= seq![SyntaxKind::Root]);
        assert(kept_kinds(seq![base]) =~= Seq::<SyntaxKind>::empty());
        assert(open_stack(shaping, steps, 0, base) =~= seq![base]);
        assert(seq![SyntaxKind::Root] + Seq::<SyntaxKind>::empty() =~= seq![SyntaxKind::Root]);
    } else {
        lemma_open_in_copy(shaping, steps, n - 1, base);
        lemma_stack_nonempty(shaping, steps, n - 1, base);
        let before = open_stack(shaping, steps, n - 1, base);
        let after = open_stack(shaping, steps, n, base);
        let prev = copied(shaping, steps, n - 1, base);
        let kinds = seq![SyntaxKind::Root] + kept_kinds(before);
        if copies(shaping, steps, n - 1, base) {
            assert(out =~= prev.push(steps[n - 1]));
            assert(out =~= prev + seq![steps[n - 1]]);
            lemma_open_kinds_prefix(prev, seq![steps[n - 1]], prev.len() as int);
            assert(open_kinds(out, out.len() - 1) == kinds);
            match steps[n - 1] {
                Step::Enter(kind) => {
                    assert(after.drop_last() =~= before);
                    assert(kinds.push(kind) =~= seq![SyntaxKind::Root] + kept_kinds(after));
                },
                Step::Token(_, _) => {},
                Step::Leave => {
                    assert(after =~= before.drop_last());
                    assert(kinds.drop_last() =~= seq![SyntaxKind::Root] + kept_kinds(after));
                },
            }
        } else {
            assert(out =~= prev);
            match steps[n - 1] {
                Step::Enter(kind) => {
                    assert(after.drop_last() =~= before);
                },
                Step::Token(_, _) => {},
                Step::Leave => {
                    if before.len() > 1 {
                        assert(after =~= before.drop_last());
                    }
                },
            }
        }
    }
}

/// Whether each node of a stack above the first is kept as the shaping
/// says, and none of a wrapper kind stands on one of a list kind.
pub open spec fn stack_ok(shaping: Shaping, stack: Seq<Open>) -> bool {
    forall|d: int|
        1 <= d < stack.len() ==> (#[trigger] stack[d]).1 == keeps_node(
            shaping,
            stack[d - 1].0,
            stack[d].0,
        ) && (is_wrapper_kind(shaping, stack[d].0) ==> !is_list_kind(shaping, stack[d - 1].0))
}

/// Where no wrapper stands under a list, the stack of open nodes is in
/// order at every step.
pub proof fn lemma_stack_ok(shaping: Shaping, steps: Seq<Step>, n: int, base: Open)
    requires
        0 <= n <= steps.len(),
        no_wrapper_in_list(shaping, steps, n, base),
    ensures
        stack_ok(shaping, open_stack(shaping, steps, n, base)),
    decreases n,
{
    if n > 0 {
        assert(no_wrapper_in_list(shaping, steps, n - 1, base)) by {
            assert forall|j: int|
                0 <= j < n - 1 && steps[j] is Enter && is_wrapper_kind(
                    shaping,
                    step_kind(steps[j]),
                ) implies !is_list_kind(
                shaping,
                (#[trigger] open_stack(shaping, steps, j, base)).last().0,
            ) by {}
        }
        lemma_stack_ok(shaping, steps, n - 1, base);
        lemma_stack_nonempty(shaping, steps, n - 1, base);
        let before = open_stack(shaping, steps, n - 1, base);
        let after = open_stack(shaping, steps, n, base);
        match steps[n - 1] {
            Step::Enter(kind) => {
                assert(after.drop_last() =~= before);
                assert forall|d: int| 1 <= d < after.len() implies (#[trigger] after[d]).1
                    == keeps_node(shaping, after[d - 1].0, after[d].0) && (is_wrapper_kind(
                    shaping,
                    after[d].0,
                ) ==> !is_list_kind(shaping, after[d - 1].0)) by {
                    if d < before.len() {
                        assert(after[d] == before[d]);
                    } else {
                        assert(open_stack(shaping, steps, n - 1, base).last().0 == before.last().0);
                    }
                }
            },
            Step::Token(_, _) => {},
            Step::Leave => {
                if before.len() > 1 {
                    assert(after =~= before.drop_last());
                    assert forall|d: int| 1 <= d < after.len() implies (#[trigger] after[d]).1
                        == keeps_node(shaping, after[d - 1].0, after[d].0) && (is_wrapper_kind(
                        shaping,
                        after[d].0,
                    ) ==> !is_list_kind(shaping, after[d - 1].0)) by {
                        assert(after[d] == before[d]);
                    }
                }
            },
        }
    }
}

/// Where the node of the copy that is open last is of a list kind, the
/// node of the tree that is read that is open last is of that kind.
pub proof fn lemma_last_kept(shaping: Shaping, stack: Seq<Open>)
    requires
        stack.len() >= 1,
        stack_ok(shaping, stack),
    ensures
        is_list_kind(shaping, (seq![SyntaxKind::Root] + kept_kinds(stack)).last())
            ==> stack.last().0 == (seq![SyntaxKind::Root] + kept_kinds(stack)).last(),
    decreases stack.len(),
{
    if stack.len() > 1 {
        let rest = stack.drop_last();
        assert(stack_ok(shaping, rest)) by {
            assert forall|d: int| 1 <= d < rest.len() implies (#[trigger] rest[d]).1 == keeps_node(
                shaping,
                rest[d - 1].0,
                rest[d].0,
            ) && (is_wrapper_kind(shaping, rest[d].0) ==> !is_list_kind(shaping, rest[d - 1].0)) by {
                assert(rest[d] == stack[d]);
            }
        }
        lemma_last_kept(shaping, rest);
        let top = stack[stack.len() - 1];
        assert(top == stack.last());
        assert(rest.last() == stack[stack.len() - 2]);
    } else {
        assert(kept_kinds(stack) =~= Seq::<SyntaxKind>::empty());
        assert((seq![SyntaxKind::Root] + kept_kinds(stack)).last() == SyntaxKind::Root);
    }
}

/// What is copied holds no node of a wrapper kind and no token that the
/// shaping leaves out.
pub proof fn lemma_copy_kinds(shaping: Shaping, steps: Seq<Step>, n: int, base: Open)
    requires
        0 <= n <= steps.len(),
    ensures
        no_wrapper(shaping, copied(shaping, steps, n, base)),
        no_dropped_token(shaping, copied(shaping, steps, n, base)),
    decreases n,
{
    let out = copied(shaping, steps, n, base);
    if n == 0 {
        assert(out =~= seq![Step::Enter(SyntaxKind::Root)]);
    } else {
        lemma_copy_kinds(shaping, steps, n - 1, base);
        let prev = copied(shaping, steps, n - 1, base);
        if copies(shaping, steps, n - 1, base) {
            assert(out =~= prev.push(steps[n - 1]));
            assert forall|j: int| 0 <= j < out.len() && (#[trigger] out[j]) is Enter implies
                !is_wrapper_kind(shaping, step_kind(out[j])) by {
                if j < prev.len() {
                    assert(out[j] == prev[j]);
                }
            }
            assert forall|j: int| 0 <= j < out.len() && (#[trigger] out[j]) is Token implies
                !drops_token(shaping, step_kind(out[j])) by {
                if j < prev.len() {
                    assert(out[j] == prev[j]);
                }
            }
        } else {
            assert(out =~= prev);
        }
    }
}

/// Where the tree that is read holds no wrapper under a list, no kept node
/// of a list kind comes to hang under a node of its kind.
pub proof fn law_no_wrapper_in_list_suffices(
    shaping: Shaping,
    steps: Seq<Step>,
    n: int,
    base: Open,
)
    requires
        0 <= n <= steps.len(),
        no_wrapper_in_list(shaping, steps, n, base),
    ensures
        no_list_under_list(shaping, steps, n, base),
{
    assert forall|j: int|
        0 <= j < n && steps[j] is Enter && is_list_kind(shaping, step_kind(steps[j])) && copies(
            shaping,
            steps,
            j,
            base,
        ) implies (seq![SyntaxKind::Root] + kept_kinds(
        #[trigger] open_stack(shaping, steps, j, base),
    )).last() != step_kind(steps[j]) by {
        assert(no_wrapper_in_list(shaping, steps, j, base)) by {
            assert forall|m: int|
                0 <= m < j && steps[m] is Enter && is_wrapper_kind(
                    shaping,
                    step_kind(steps[m]),
                ) implies !is_list_kind(
                shaping,
                (#[trigger] open_stack(shaping, steps, m, base)).last().0,
            ) by {}
        }
        let stack = open_stack(shaping, steps, j, base);
        lemma_stack_ok(shaping, steps, j, base);
        lemma_stack_nonempty(shaping, steps, j, base);
        lemma_last_kept(shaping, stack);
    }
}

/// What is copied holds no node of a list kind under a node of its kind,
/// where no kept node of a list kind comes to hang under one.
pub proof fn lemma_copy_no_nest(shaping: Shaping, steps: Seq<Step>, n: int, base: Open)
    requires
        0 <= n <= steps.len(),
        no_list_under_list(shaping, steps, n, base),
    ensures
        no_nested_list(shaping, copied(shaping, steps, n, base)),
    decreases n,
{
    let out = copied(shaping, steps, n, base);
    if n == 0 {
        assert(out =~= seq![Step::Enter(SyntaxKind::Root)]);
        assert forall|j: int|
            0 <= j < out.len() && out[j] is Enter && is_list_kind(
                shaping,
                step_kind(out[j]),
            ) implies #[trigger] parent_kind(out, j) != Some(step_kind(out[j])) by {}
    } else {
        assert(no_list_under_list(shaping, steps, n - 1, base)) by {
            assert forall|j: int|
                0 <= j < n - 1 && steps[j] is Enter && is_list_kind(shaping, step_kind(steps[j]))
                    && copies(shaping, steps, j, base) implies (seq![SyntaxKind::Root]
                + kept_kinds(#[trigger] open_stack(shaping, steps, j, base))).last() != step_kind(
                steps[j],
            ) by {}
        }
        lemma_copy_no_nest(shaping, steps, n - 1, base);
        let prev = copied(shaping, steps, n - 1, base);
        if copies(shaping, steps, n - 1, base) {
            let step = steps[n - 1];
            assert(out =~= prev + seq![step]);
            assert forall|j: int|
                0 <= j < out.len() && out[j] is Enter && is_list_kind(
                    shaping,
                    step_kind(out[j]),
                ) implies #[trigger] parent_kind(out, j) != Some(step_kind(out[j])) by {
                lemma_open_kinds_prefix(prev, seq![step], j);
                if j < prev.len() {
                    assert(out[j] == prev[j]);
                    assert(parent_kind(prev, j) != Some(step_kind(prev[j])));
                } else {
                    let stack = open_stack(shaping, steps, n - 1, base);
                    lemma_open_in_copy(shaping, steps, n - 1, base);
                }
            }
        } else {
            assert(out =~= prev);
        }
    }
}

/// The text of steps one after the other is the text of the first and
/// then that of the second.
pub proof fn lemma_tokens_text_add(a: Seq<Step>, b: Seq<Step>)
    ensures
        tokens_text(a + b) == tokens_text(a) + tokens_text(b),
    decreases b.len(),
{
    if b.len() == 0 {
        assert(a + b =~= a);
        assert(tokens_text(a) + Seq::<char>::empty() =~= tokens_text(a));
    } else {
        lemma_tokens_text_add(a, b.drop_last());
        assert((a + b).drop_last() =~= a + b.drop_last());
        assert((a + b).last() == b.last());
        let tail = match b.last() {
            Step::Token(_, text) => text,
            _ => Seq::<char>::empty(),
        };
        assert(tokens_text(a) + tokens_text(b.drop_last()) + tail =~= tokens_text(a) + (
        tokens_text(b.drop_last()) + tail));
    }
}

/// Steps that leave nodes hold no text.
pub proof fn lemma_leaves_text(n: nat)
    ensures
        tokens_text(leaves(n)) == Seq::<char>::empty(),
    decreases n,
{
    if n > 0 {
        assert(leaves(n).drop_last() =~= leaves((n - 1) as nat));
        lemma_leaves_text((n - 1) as nat);
    }
}

/// The lossless shaping copies the text of every token.
pub proof fn lemma_lossless_copy_text(steps: Seq<Step>, n: int, base: Open)
    requires
        0 <= n <= steps.len(),
    ensures
        tokens_text(emitted(Shaping::Lossless, steps, n, base)) == tokens_text(
            steps.subrange(0, n),
        ),
    decreases n,
{
    if n > 0 {
        lemma_lossless_copy_text(steps, n - 1, base);
        let before = steps.subrange(0, n - 1);
        let upto = steps.subrange(0, n);
        assert(upto.drop_last() =~= before);
        assert(upto.last() == steps[n - 1]);
        let out = emitted(Shaping::Lossless, steps, n, base);
        let prev = emitted(Shaping::Lossless, steps, n - 1, base);
        if copies(Shaping::Lossless, steps, n - 1, base) {
            assert(out.drop_last() =~= prev);
        } else {
            assert(tokens_text(before) + Seq::<char>::empty() =~= tokens_text(before));
        }
    } else {
        assert(steps.subrange(0, 0) =~= Seq::<Step>::empty());
    }
}

/// A shaped tree holds no node of a wrapper kind, and no token of a kind
/// that the shaping leaves out.
pub proof fn law_wrappers_removed(shaping: Shaping, subtree: Seq<Step>)
    ensures
        no_wrapper(shaping, shaped(shaping, subtree)),
        no_dropped_token(shaping, shaped(shaping, subtree)),
{
    let inner = inner_steps(subtree);
    let base = base_of(subtree);
    let n = inner.len() as int;
    let copy = copied(shaping, inner, n, base);
    let out = shaped(shaping, subtree);
    lemma_copy_kinds(shaping, inner, n, base);
    assert(out =~= copy + leaves(kept_open(open_stack(shaping, inner, n, base))) + seq![
        Step::Leave,
    ]);
    assert forall|j: int| 0 <= j < out.len() && (#[trigger] out[j]) is Enter implies
        !is_wrapper_kind(shaping, step_kind(out[j])) by {
        if j < copy.len() {
            assert(out[j] == copy[j]);
        }
    }
    assert forall|j: int| 0 <= j < out.len() && (#[trigger] out[j]) is Token implies !drops_token(
        shaping,
        step_kind(out[j]),
    ) by {
        if j < copy.len() {
            assert(out[j] == copy[j]);
        }
    }
}

/// In a shaped tree no node of a list kind has a child of its own kind,
/// unless shaping itself hangs one under another: it takes away the nodes
/// between a kept node of a list kind and a kept node of that kind above
/// it.
pub proof fn law_lists_not_nested(shaping: Shaping, subtree: Seq<Step>)
    requires
        no_list_under_list(
            shaping,
            inner_steps(subtree),
            inner_steps(subtree).len() as int,
            base_of(subtree),
        ),
    ensures
        no_nested_list(shaping, shaped(shaping, subtree)),
{
    let inner = inner_steps(subtree);
    let base = base_of(subtree);
    let n = inner.len() as int;
    let copy = copied(shaping, inner, n, base);
    let rest = leaves(kept_open(open_stack(shaping, inner, n, base))) + seq![Step::Leave];
    let out = shaped(shaping, subtree);
    lemma_copy_no_nest(shaping, inner, n, base);
    assert(out =~= copy + rest);
    assert forall|j: int|
        0 <= j < out.len() && out[j] is Enter && is_list_kind(
            shaping,
            step_kind(out[j]),
        ) implies #[trigger] parent_kind(out, j) != Some(step_kind(out[j])) by {
        if j < copy.len() {
            lemma_open_kinds_prefix(copy, rest, j);
            assert(out[j] == copy[j]);
            assert(parent_kind(copy, j) != Some(step_kind(copy[j])));
        }
    }
}

/// The lossless shape of a tree holds the text of the children of the node
/// that is shaped.
pub proof fn law_lossless_text(subtree: Seq<Step>)
    ensures
        tokens_text(shaped(Shaping::Lossless, subtree)) == tokens_text(inner_steps(subtree)),
{
    let inner = inner_steps(subtree);
    let base = base_of(subtree);
    let n = inner.len() as int;
    let first = seq![Step::Enter(SyntaxKind::Root)];
    let body = emitted(Shaping::Lossless, inner, n, base);
    let closing = leaves(kept_open(open_stack(Shaping::Lossless, inner, n, base)));
    let last = seq![Step::Leave];
    lemma_lossless_copy_text(inner, n, base);
    assert(inner.subrange(0, n) =~= inner);
    lemma_tokens_text_add(first + body + closing, last);
    lemma_tokens_text_add(first + body, closing);
    lemma_tokens_text_add(first, body);
    lemma_leaves_text(kept_open(open_stack(Shaping::Lossless, inner, n, base)));
    assert(tokens_text(first) =~= Seq::<char>::empty()) by {
        assert(first.drop_last() =~= Seq::<Step>::empty());
        assert(first.last() == Step::Enter(SyntaxKind::Root));
        assert(tokens_text(first.drop_last()) =~= Seq::<char>::empty());
    }
    assert(tokens_text(last) =~= Seq::<char>::empty()) by {
        assert(last.drop_last() =~= Seq::<Step>::empty());
        assert(last.last() == Step::Leave);
        assert(tokens_text(last.drop_last()) =~= Seq::<char>::empty());
    }
    assert(tokens_text(shaped(Shaping::Lossless, subtree)) =~= tokens_text(inner));
}

/// Whether steps are the walk of one node: a node is open after each
/// beginning of them but the empty one, and none after all of them.
pub open spec fn walk_of_one(steps: Seq<Step>) -> bool {
    &&& steps.len() >= 2
    &&& forall|m: int| 0 < m < steps.len() ==> (#[trigger] open_kinds(steps, m)).len() >= 1
    &&& open_kinds(steps, steps.len() as int).len() == 0
}

/// Whether a stack holds nodes of the kinds `kinds`, all kept.
pub open spec fn all_kept(stack: Seq<Open>, kinds: Seq<SyntaxKind>) -> bool {
    &&& stack.len() == kinds.len()
    &&& forall|d: int| 0 <= d < stack.len() ==> (#[trigger] stack[d]) == (kinds[d], true)
}

/// Of a tree that holds nothing to shape, every step is copied.
pub proof fn lemma_all_copied(shaping: Shaping, tree: Seq<Step>, n: int)
    requires
        walk_of_one(tree),
        tree[0] == Step::Enter(SyntaxKind::Root),
        no_wrapper(shaping, tree),
        no_dropped_token(shaping, tree),
        no_nested_list(shaping, tree),
        0 <= n <= tree.len() - 2,
    ensures
        all_kept(
            open_stack(shaping, inner_steps(tree), n, base_of(tree)),
            open_kinds(tree, n + 1),
        ),
        emitted(shaping, inner_steps(tree), n, base_of(tree)) == inner_steps(tree).subrange(0, n),
    decreases n,
{
    let inner = inner_steps(tree);
    let base = base_of(tree);
    if n == 0 {
        assert(open_kinds(tree, 0) =~= Seq::<SyntaxKind>::empty());
        assert(open_kinds(tree, 1) =~= seq![SyntaxKind::Root]);
        assert(open_stack(shaping, inner, 0, base) =~= seq![base]);
        assert(emitted(shaping, inner, 0, base) =~= inner.subrange(0, 0));
    } else {
        lemma_all_copied(shaping, tree, n - 1);
        let before = open_stack(shaping, inner, n - 1, base);
        let after = open_stack(shaping, inner, n, base);
        let kinds = open_kinds(tree, n);
        let step = tree[n];
        assert(inner[n - 1] == step);
        assert(kinds.len() >= 1);
        assert(before[before.len() - 1] == (kinds[kinds.len() - 1], true));
        assert(open_kinds(tree, n + 1).len() >= 1);
        match step {
            Step::Enter(kind) => {
                assert(parent_kind(tree, n) != Some(kind) || !is_list_kind(shaping, kind));
                assert(!is_wrapper_kind(shaping, step_kind(tree[n])));
                assert(keeps_node(shaping, before.last().0, kind));
                assert forall|d: int| 0 <= d < after.len() implies (#[trigger] after[d]) == (
                    open_kinds(tree, n + 1)[d],
                    true,
                ) by {
                    if d < before.len() {
                        assert(after[d] == before[d]);
                    }
                }
            },
            Step::Token(kind, _) => {
                assert(!drops_token(shaping, step_kind(tree[n])));
            },
            Step::Leave => {
                assert(kinds.len() >= 2);
                assert forall|d: int| 0 <= d < after.len() implies (#[trigger] after[d]) == (
                    open_kinds(tree, n + 1)[d],
                    true,
                ) by {
                    assert(after[d] == before[d]);
                }
            },
        }
        assert(copies(shaping, inner, n - 1, base));
        assert(emitted(shaping, inner, n, base) =~= inner.subrange(0, n));
    }
}

/// Where every open node is copied, all but the base are open in the
/// copy.
pub proof fn lemma_kept_open_all(stack: Seq<Open>, kinds: Seq<SyntaxKind>)
    requires
        all_kept(stack, kinds),
        stack.len() >= 1,
    ensures
        kept_open(stack) == stack.len() - 1,
    decreases stack.len(),
{
    if stack.len() > 1 {
        assert(all_kept(stack.drop_last(), kinds.drop_last())) by {
            assert forall|d: int| 0 <= d < stack.drop_last().len() implies (
            #[trigger] stack.drop_last()[d]) == (kinds.drop_last()[d], true) by {
                assert(stack.drop_last()[d] == stack[d]);
            }
        }
        lemma_kept_open_all(stack.drop_last(), kinds.drop_last());
        assert(stack.last() == stack[stack.len() - 1]);
    }
}

/// A tree under the root of a shaped tree that holds no wrapper, no token
/// that the shaping leaves out and no list under a list of its kind is its
/// own shape.
pub proof fn law_shape_of_shaped(shaping: Shaping, tree: Seq<Step>)
    requires
        walk_of_one(tree),
        tree[0] == Step::Enter(SyntaxKind::Root),
        no_wrapper(shaping, tree),
        no_dropped_token(shaping, tree),
        no_nested_list(shaping, tree),
    ensures
        shaped(shaping, tree) == tree,
{
    let inner = inner_steps(tree);
    let base = base_of(tree);
    let n = tree.len() - 2;
    lemma_all_copied(shaping, tree, n);
    let stack = open_stack(shaping, inner, n, base);
    let kinds = open_kinds(tree, n + 1);
    assert(kinds.len() >= 1);
    assert(open_kinds(tree, n + 2).len() == 0);
    match tree[n + 1] {
        Step::Leave => {},
        _ => {},
    }
    assert(tree[n + 1] is Leave);
    assert(kinds.len() == 1);
    lemma_kept_open_all(stack, kinds);
    assert(leaves(0) =~= Seq::<Step>::empty());
    assert(inner.subrange(0, n) =~= inner);
    assert(shaped(shaping, tree) =~= tree);
}

/// What is copied keeps a node open.
pub proof fn lemma_copy_stays_open(shaping: Shaping, steps: Seq<Step>, n: int, base: Open)
    requires
        0 <= n <= steps.len(),
    ensures
        forall|m: int|
            0 < m <= copied(shaping, steps, n, base).len() ==> (#[trigger] open_kinds(
                copied(shaping, steps, n, base),
                m,
            )).len() >= 1,
    decreases n,
{
    let out = copied(shaping, steps, n, base);
    if n == 0 {
        assert(out =~= seq![Step::Enter(SyntaxKind::Root)]);
        assert(open_kinds(out, 0) =~= Seq::<SyntaxKind>::empty());
    } else {
        lemma_copy_stays_open(shaping, steps, n - 1, base);
        let prev = copied(shaping, steps, n - 1, base);
        if copies(shaping, steps, n - 1, base) {
            assert(out =~= prev + seq![steps[n - 1]]);
            assert forall|m: int| 0 < m <= out.len() implies (#[trigger] open_kinds(
                out,
                m,
            )).len() >= 1 by {
                if m <= prev.len() {
                    lemma_open_kinds_prefix(prev, seq![steps[n - 1]], m);
                    assert(open_kinds(prev, m).len() >= 1);
                } else {
                    lemma_open_in_copy(shaping, steps, n, base);
                }
            }
        } else {
            assert(out =~= prev);
        }
    }
}

/// After `i` of the closing steps, as many fewer nodes are open.
pub proof fn lemma_open_after_leaves(copy: Seq<Step>, c: nat, i: int)
    requires
        0 <= i <= c,
        open_kinds(copy, copy.len() as int).len() == 1 + c,
    ensures
        open_kinds(copy + leaves(c) + seq![Step::Leave], copy.len() + i).len() == 1 + c - i,
    decreases i,
{
    let full = copy + leaves(c) + seq![Step::Leave];
    if i == 0 {
        lemma_open_kinds_prefix(copy, leaves(c) + seq![Step::Leave], copy.len() as int);
        assert(full =~= copy + (leaves(c) + seq![Step::Leave]));
    } else {
        lemma_open_after_leaves(copy, c, i - 1);
        assert(full[copy.len() + i - 1] is Leave);
    }
}

/// A shaped tree is the walk of one node.
pub proof fn lemma_shaped_is_walk(shaping: Shaping, subtree: Seq<Step>)
    ensures
        walk_of_one(shaped(shaping, subtree)),
        shaped(shaping, subtree)[0] == Step::Enter(SyntaxKind::Root),
{
    let inner = inner_steps(subtree);
    let base = base_of(subtree);
    let n = inner.len() as int;
    let copy = copied(shaping, inner, n, base);
    let stack = open_stack(shaping, inner, n, base);
    let c = kept_open(stack);
    let out = shaped(shaping, subtree);
    assert(out =~= copy + leaves(c) + seq![Step::Leave]);
    lemma_copy_stays_open(shaping, inner, n, base);
    lemma_open_in_copy(shaping, inner, n, base);
    lemma_kept_kinds_len(stack);
    assert forall|m: int| 0 < m < out.len() implies (#[trigger] open_kinds(out, m)).len() >= 1 by {
        if m <= copy.len() {
            lemma_open_kinds_prefix(copy, leaves(c) + seq![Step::Leave], m);
            assert(out =~= copy + (leaves(c) + seq![Step::Leave]));
            assert(open_kinds(copy, m).len() >= 1);
        } else {
            lemma_open_after_leaves(copy, c, m - copy.len());
        }
    }
    lemma_open_after_leaves(copy, c, c as int);
    assert(out[out.len() - 1] is Leave);
}

/// Shaping a shaped tree changes nothing, unless the first shaping hangs a
/// node of a list kind under a node of its kind.
pub proof fn law_shaping_twice(shaping: Shaping, subtree: Seq<Step>)
    requires
        no_list_under_list(
            shaping,
            inner_steps(subtree),
            inner_steps(subtree).len() as int,
            base_of(subtree),
        ),
    ensures
        shaped(shaping, shaped(shaping, subtree)) == shaped(shaping, subtree),
{
    law_wrappers_removed(shaping, subtree);
    law_lists_not_nested(shaping, subtree);
    lemma_shaped_is_walk(shaping, subtree);
    law_shape_of_shaped(shaping, shaped(shaping, subtree));
}

/// The number of line ends among the first `upto` bytes of a text.
pub open spec fn count_line_ends(bytes: Seq<u8>, upto: int) -> nat
    decreases upto,
{
    if upto <= 0 {
        0
    } else {
        count_line_ends(bytes, upto - 1) + if upto - 1 < bytes.len() && bytes[upto - 1] == 10 {
            1nat
        } else {
            0nat
        }
    }
}

/// Beyond the end of the text there are no line ends.
pub proof fn lemma_line_ends_beyond(bytes: Seq<u8>, upto: int)
    requires
        upto >= bytes.len(),
    ensures
        count_line_ends(bytes, upto) == count_line_ends(bytes, bytes.len() as int),
    decreases upto,
{
    if upto > bytes.len() {
        lemma_line_ends_beyond(bytes, upto - 1);
    }
}

/// Of the line ends among the first `n` bytes, as many are before `x` as
/// there are line ends before `x` among those bytes.
pub proof fn lemma_breaks_below(bytes: Seq<u8>, n: int, x: int)
    requires
        0 <= n <= bytes.len() <= usize::MAX,
        0 <= x,
    ensures
        count_below(spec_line_breaks(bytes, n), x) == count_line_ends(
            bytes,
            if x < n {
                x
            } else {
                n
            },
        ),
    decreases n,
{
    if n > 0 {
        lemma_breaks_below(bytes, n - 1, x);
        let prev = spec_line_breaks(bytes, n - 1);
        if bytes[n - 1] == 10 {
            let cur = prev.push((n - 1) as usize);
            assert(cur.drop_last() =~= prev);
            assert(cur.last() == n - 1);
        }
    }
}

/// The row of a range is the number of line ends before its first byte,
/// and the row of its end the number of those before its end.
pub proof fn law_rows_count_line_ends(bytes: Seq<u8>, start: int, end: int)
    requires
        bytes.len() <= usize::MAX,
        0 <= start <= usize::MAX,
        0 <= end <= usize::MAX,
    ensures
        spec_range(
            spec_line_breaks(bytes, bytes.len() as int),
            start,
            end,
        ).start_position.row == count_line_ends(bytes, start),
        spec_range(
            spec_line_breaks(bytes, bytes.len() as int),
            start,
            end,
        ).end_position.row == count_line_ends(bytes, end),
        spec_range(spec_line_breaks(bytes, bytes.len() as int), start, end).start_byte == start,
        spec_range(spec_line_breaks(bytes, bytes.len() as int), start, end).end_byte == end,
{
    let n = bytes.len() as int;
    lemma_breaks_below(bytes, n, start);
    lemma_breaks_below(bytes, n, end);
    if start >= n {
        lemma_line_ends_beyond(bytes, start);
    }
    if end >= n {
        lemma_line_ends_beyond(bytes, end);
    }
    lemma_line_ends_bound(bytes, start);
    lemma_line_ends_bound(bytes, end);
}

/// The first `upto` bytes hold at most `upto` line ends.
pub proof fn lemma_line_ends_bound(bytes: Seq<u8>, upto: int)
    requires
        0 <= upto,
    ensures
        count_line_ends(bytes, upto) <= upto,
    decreases upto,
{
    if upto > 0 {
        lemma_line_ends_bound(bytes, upto - 1);
    }
}

/// Every node and token of a tree has a range in the mapping of the tree,
/// and every range of the mapping is one of the values at the place of a
/// node or token.
pub proof fn law_mapping_covers(tree: Seq<Step>, idx: int, values: Seq<Range>, n: int)
    requires
        0 <= idx,
        0 <= n,
        idx + n <= tree.len(),
    ensures
        forall|j: int|
            0 <= j < n && is_start(tree[idx + j]) ==> mapping_upto(
                tree,
                idx,
                values,
                n,
            ).contains_key(#[trigger] start_range(tree, idx + j)),
        forall|key: (int, int)| #[trigger]
            mapping_upto(tree, idx, values, n).contains_key(key) ==> exists|k: int|
                0 <= k < count_starts(tree.subrange(idx, idx + n)) && mapping_upto(
                    tree,
                    idx,
                    values,
                    n,
                )[key] == #[trigger] values[k],
    decreases n,
{
    if n > 0 {
        law_mapping_covers(tree, idx, values, n - 1);
        let prev = mapping_upto(tree, idx, values, n - 1);
        let cur = mapping_upto(tree, idx, values, n);
        let before = tree.subrange(idx, idx + n - 1);
        let upto = tree.subrange(idx, idx + n);
        assert(upto.drop_last() =~= before);
        assert(upto.last() == tree[idx + n - 1]);
        assert forall|key: (int, int)| #[trigger] cur.contains_key(key) implies exists|k: int|
            0 <= k < count_starts(upto) && cur[key] == #[trigger] values[k] by {
            if is_start(tree[idx + n - 1]) && key == start_range(tree, idx + n - 1) {
                let k = count_starts(before) as int;
                assert(cur[key] == values[k]);
            } else {
                assert(prev.contains_key(key));
                let k = choose|k: int|
                    0 <= k < count_starts(before) && prev[key] == #[trigger] values[k];
                assert(cur[key] == values[k]);
            }
        }
    }
}

/// No range of a node or token goes beyond the text of the tree.
pub proof fn lemma_start_range_bound(tree: Seq<Step>, j: int)
    requires
        0 <= j < tree.len(),
        tree[j] is Enter ==> j <= subtree_end(tree, j) < tree.len(),
    ensures
        0 <= start_range(tree, j).0 <= text_len(tree, 0, tree.len() as int),
        0 <= start_range(tree, j).1 <= text_len(tree, 0, tree.len() as int),
{
    lemma_text_len_split(tree, 0, j, tree.len() as int);
    if tree[j] is Enter {
        lemma_text_len_split(tree, 0, subtree_end(tree, j) + 1, tree.len() as int);
    } else {
        lemma_text_len_split(tree, 0, j + 1, tree.len() as int);
    }
}

/// Whether each node of a tree ends within the tree.
pub open spec fn nodes_end(tree: Seq<Step>) -> bool {
    forall|j: int|
        0 <= j < tree.len() && (#[trigger] tree[j]) is Enter ==> j <= subtree_end(tree, j)
            < tree.len()
}

/// A walk that stands within more nodes ends no earlier.
pub proof fn lemma_scan_mono(steps: Seq<Step>, at: int, a: nat, b: nat)
    requires
        0 <= at,
        1 <= a <= b,
    ensures
        scan_end(steps, at, a) <= scan_end(steps, at, b),
    decreases steps.len() - at,
{
    if at < steps.len() {
        match steps[at] {
            Step::Enter(_) => lemma_scan_mono(steps, at + 1, a + 1, b + 1),
            Step::Token(_, _) => lemma_scan_mono(steps, at + 1, a, b),
            Step::Leave => if a > 1 {
                lemma_scan_mono(steps, at + 1, (a - 1) as nat, (b - 1) as nat);
            } else {
                lemma_scan_ge(steps, at, b);
            },
        }
    }
}

/// An element that begins within another ends within it.
pub proof fn lemma_scan_within(steps: Seq<Step>, at: int, open: nat, j: int)
    requires
        0 <= at <= j,
        j <= scan_end(steps, at, open) < steps.len(),
        is_start(steps[j]),
    ensures
        j <= subtree_end(steps, j) <= scan_end(steps, at, open),
    decreases steps.len() - at,
{
    if at == j {
        lemma_scan_ge(steps, j, 0);
        if steps[j] is Enter {
            assert(scan_end(steps, j, 0) == scan_end(steps, j + 1, 1));
            assert(scan_end(steps, j, open) == scan_end(steps, j + 1, open + 1));
            lemma_scan_mono(steps, j + 1, 1, open + 1);
        }
    } else {
        match steps[at] {
            Step::Enter(_) => lemma_scan_within(steps, at + 1, open + 1, j),
            Step::Token(_, _) => if open != 0 {
                lemma_scan_within(steps, at + 1, open, j);
            },
            Step::Leave => if open > 1 {
                lemma_scan_within(steps, at + 1, (open - 1) as nat, j);
            },
        }
    }
}

/// In a tree every node ends within the tree.
pub proof fn lemma_tree_nodes_end(tree: Seq<Step>)
    requires
        tree_wf(tree),
    ensures
        nodes_end(tree),
{
    assert forall|j: int| 0 <= j < tree.len() && (#[trigger] tree[j]) is Enter implies j
        <= subtree_end(tree, j) < tree.len() by {
        lemma_scan_within(tree, 0, 0, j);
    }
}

/// The ranges of the elements that are copied lie within the text of the
/// tree.
pub proof fn lemma_kept_ranges_bound(shaping: Shaping, tree: Seq<Step>, idx: int, n: int)
    requires
        0 <= idx,
        0 <= n,
        idx + n < tree.len(),
        nodes_end(tree),
    ensures
        forall|k: int|
            0 <= k < kept_ranges(shaping, tree, idx, n).len() ==> 0 <= (#[trigger] kept_ranges(
                shaping,
                tree,
                idx,
                n,
            )[k]).0 <= text_len(tree, 0, tree.len() as int) && 0 <= kept_ranges(
                shaping,
                tree,
                idx,
                n,
            )[k].1 <= text_len(tree, 0, tree.len() as int),
    decreases n,
{
    if n > 0 {
        lemma_kept_ranges_bound(shaping, tree, idx, n - 1);
        lemma_start_range_bound(tree, idx + n);
        let prev = kept_ranges(shaping, tree, idx, n - 1);
        let cur = kept_ranges(shaping, tree, idx, n);
        assert forall|k: int| 0 <= k < cur.len() implies 0 <= (#[trigger] cur[k]).0 <= text_len(
            tree,
            0,
            tree.len() as int,
        ) && 0 <= cur[k].1 <= text_len(tree, 0, tree.len() as int) by {
            if k < prev.len() {
                assert(cur[k] == prev[k]);
            }
        }
    }
}

/// In the mapping of a shaped tree, every range in rows and columns is
/// that of its range in bytes in the text: its rows are the numbers of
/// line ends before its first byte and before its end.
pub proof fn law_range_consistency(
    bytes: Seq<u8>,
    shaping: Shaping,
    tree: Seq<Step>,
    idx: int,
    new_tree: Seq<Step>,
    key: (int, int),
)
    requires
        bytes.len() <= usize::MAX,
        tree_wf(tree),
        element_at(tree, idx),
        count_starts(new_tree) == shaped_ranges(shaping, tree, idx).len(),
        mapping_upto(
            new_tree,
            0,
            rows_and_columns(
                spec_line_breaks(bytes, bytes.len() as int),
                shaped_ranges(shaping, tree, idx),
            ),
            new_tree.len() as int,
        ).contains_key(key),
    ensures
        ({
            let r = mapping_upto(
                new_tree,
                0,
                rows_and_columns(
                    spec_line_breaks(bytes, bytes.len() as int),
                    shaped_ranges(shaping, tree, idx),
                ),
                new_tree.len() as int,
            )[key];
            &&& r.start_position.row == count_line_ends(bytes, r.start_byte as int)
            &&& r.end_position.row == count_line_ends(bytes, r.end_byte as int)
            &&& r.start_position == spec_point(
                spec_line_breaks(bytes, bytes.len() as int),
                r.start_byte as int,
            )
            &&& r.end_position == spec_point(
                spec_line_breaks(bytes, bytes.len() as int),
                r.end_byte as int,
            )
        }),
{
    let breaks = spec_line_breaks(bytes, bytes.len() as int);
    let ranges = shaped_ranges(shaping, tree, idx);
    let values = rows_and_columns(breaks, ranges);
    let map = mapping_upto(new_tree, 0, values, new_tree.len() as int);
    law_mapping_covers(new_tree, 0, values, new_tree.len() as int);
    assert(new_tree.subrange(0, new_tree.len() as int) =~= new_tree);
    let k = choose|k: int| 0 <= k < count_starts(new_tree) && map[key] == #[trigger] values[k];
    let sub = tree.subrange(idx, subtree_end(tree, idx) + 1);
    let n = inner_steps(sub).len() as int;
    lemma_tree_nodes_end(tree);
    lemma_start_range_bound(tree, idx);
    if n > 0 {
        lemma_kept_ranges_bound(shaping, tree, idx, n);
    }
    let r = ranges[k];
    if k > 0 {
        assert(r == kept_ranges(shaping, tree, idx, n)[k - 1]);
    } else {
        assert(r == start_range(tree, idx));
    }
    law_rows_count_line_ends(bytes, r.0, r.1);
}

/// What is copied of fewer steps is the beginning of what is copied of
/// more.
pub proof fn lemma_copied_prefix(shaping: Shaping, steps: Seq<Step>, m: int, n: int, base: Open)
    requires
        0 <= m <= n <= steps.len(),
    ensures
        copied(shaping, steps, m, base).is_prefix_of(copied(shaping, steps, n, base)),
    decreases n - m,
{
    let a = copied(shaping, steps, m, base);
    if m < n {
        lemma_copied_prefix(shaping, steps, m, n - 1, base);
        let b = copied(shaping, steps, n - 1, base);
        let c = copied(shaping, steps, n, base);
        if copies(shaping, steps, n - 1, base) {
            assert(c =~= b.push(steps[n - 1]));
        } else {
            assert(c =~= b);
        }
        assert(a =~= c.subrange(0, a.len() as int)) by {
            assert(a =~= b.subrange(0, a.len() as int));
        }
    } else {
        assert(a =~= a.subrange(0, a.len() as int));
    }
}

/// Where shaping hangs a node of a list kind under a node of its kind, the
/// shaped tree holds a node of a list kind with a child of its kind.
pub proof fn law_lists_nested_otherwise(shaping: Shaping, subtree: Seq<Step>)
    requires
        !no_list_under_list(
            shaping,
            inner_steps(subtree),
            inner_steps(subtree).len() as int,
            base_of(subtree),
        ),
    ensures
        !no_nested_list(shaping, shaped(shaping, subtree)),
{
    let inner = inner_steps(subtree);
    let base = base_of(subtree);
    let n = inner.len() as int;
    let j = choose|j: int|
        0 <= j < n && inner[j] is Enter && is_list_kind(shaping, step_kind(inner[j])) && copies(
            shaping,
            inner,
            j,
            base,
        ) && (seq![SyntaxKind::Root] + kept_kinds(
            #[trigger] open_stack(shaping, inner, j, base),
        )).last() == step_kind(inner[j]);
    let before = copied(shaping, inner, j, base);
    let with_it = copied(shaping, inner, j + 1, base);
    let all = copied(shaping, inner, n, base);
    let out = shaped(shaping, subtree);
    let rest = leaves(kept_open(open_stack(shaping, inner, n, base))) + seq![Step::Leave];
    let at = before.len() as int;
    assert(with_it =~= before.push(inner[j]));
    lemma_copied_prefix(shaping, inner, j + 1, n, base);
    assert(all.subrange(0, with_it.len() as int) =~= with_it);
    assert(all[at] == with_it[at]);
    assert(out =~= all + rest);
    assert(out[at] == inner[j]);
    lemma_open_in_copy(shaping, inner, j, base);
    lemma_open_kinds_prefix(all, rest, at);
    assert(all =~= with_it + all.subrange(with_it.len() as int, all.len() as int));
    lemma_open_kinds_prefix(with_it, all.subrange(with_it.len() as int, all.len() as int), at);
    assert(with_it =~= before + seq![inner[j]]);
    lemma_open_kinds_prefix(before, seq![inner[j]], at);
    assert(parent_kind(out, at) == Some(step_kind(out[at])));
}

/// The text of steps in bytes: the texts of their tokens, one after
/// another.
pub open spec fn steps_bytes(steps: Seq<Step>) -> Seq<u8>
    decreases steps.len(),
{
    if steps.len() == 0 {
        Seq::empty()
    } else {
        steps_bytes(steps.drop_last()) + match steps.last() {
            Step::Token(_, text) => encode_utf8(text),
            _ => Seq::empty(),
        }
    }
}

/// The text of the first `n` steps has the length that their tokens add up
/// to.
pub proof fn lemma_bytes_len(steps: Seq<Step>, n: int)
    requires
        0 <= n <= steps.len(),
    ensures
        steps_bytes(steps.subrange(0, n)).len() == text_len(steps, 0, n),
    decreases n,
{
    if n > 0 {
        lemma_bytes_len(steps, n - 1);
        assert(steps.subrange(0, n).drop_last() =~= steps.subrange(0, n - 1));
    }
}

/// The text of steps is the text of the first of them and then the text of
/// the rest.
pub proof fn lemma_bytes_split(steps: Seq<Step>, a: int, b: int)
    requires
        0 <= a <= b <= steps.len(),
    ensures
        steps_bytes(steps.subrange(0, b)) == steps_bytes(steps.subrange(0, a)) + steps_bytes(
            steps.subrange(a, b),
        ),
    decreases b - a,
{
    if a == b {
        assert(steps.subrange(a, b) =~= Seq::<Step>::empty());
        assert(steps_bytes(steps.subrange(0, a)) + Seq::<u8>::empty() =~= steps_bytes(
            steps.subrange(0, a),
        ));
    } else {
        lemma_bytes_split(steps, a, b - 1);
        assert(steps.subrange(0, b).drop_last() =~= steps.subrange(0, b - 1));
        assert(steps.subrange(a, b).drop_last() =~= steps.subrange(a, b - 1));
        assert(steps.subrange(0, b).last() == steps.subrange(a, b).last());
        let tail = match steps[b - 1] {
            Step::Token(_, text) => encode_utf8(text),
            _ => Seq::empty(),
        };
        assert((steps_bytes(steps.subrange(0, a)) + steps_bytes(steps.subrange(a, b - 1))) + tail
            =~= steps_bytes(steps.subrange(0, a)) + (steps_bytes(steps.subrange(a, b - 1)) + tail));
    }
}

/// The encoding of two texts one after the other is the encoding of the
/// first and then that of the second.
pub proof fn lemma_encode_concat(a: Seq<char>, b: Seq<char>)
    ensures
        encode_utf8(a + b) == encode_utf8(a) + encode_utf8(b),
    decreases a.len(),
{
    if a.len() == 0 {
        assert(a + b =~= b);
        assert(encode_utf8(a) + encode_utf8(b) =~= encode_utf8(b));
    } else {
        lemma_encode_concat(a.drop_first(), b);
        assert((a + b).drop_first() =~= a.drop_first() + b);
        assert((a + b)[0] == a[0]);
        assert(encode_utf8(a + b) =~= encode_utf8(a) + encode_utf8(b));
    }
}

/// The text of steps in bytes is the encoding of their text.
pub proof fn lemma_bytes_of_text(steps: Seq<Step>)
    ensures
        steps_bytes(steps) == encode_utf8(tokens_text(steps)),
    decreases steps.len(),
{
    if steps.len() > 0 {
        lemma_bytes_of_text(steps.drop_last());
        let last = match steps.last() {
            Step::Token(_, text) => text,
            _ => Seq::empty(),
        };
        lemma_encode_concat(tokens_text(steps.drop_last()), last);
        assert(encode_utf8(Seq::<char>::empty()) =~= Seq::<u8>::empty());
    }
}

/// In the text of a tree, the bytes of the range of a node or token are the
/// text of that node or token.
pub proof fn law_range_holds_text(tree: Seq<Step>, j: int)
    requires
        tree_wf(tree),
        element_at(tree, j),
    ensures
        0 <= start_range(tree, j).0 <= start_range(tree, j).1 <= encode_utf8(
            tokens_text(tree),
        ).len(),
        encode_utf8(tokens_text(tree)).subrange(start_range(tree, j).0, start_range(tree, j).1)
            == encode_utf8(tokens_text(tree.subrange(j, subtree_end(tree, j) + 1))),
{
    lemma_bytes_of_text(tree);
    lemma_bytes_of_text(tree.subrange(j, subtree_end(tree, j) + 1));
    let end = subtree_end(tree, j) + 1;
    let n = tree.len() as int;
    lemma_bytes_len(tree, j);
    lemma_bytes_len(tree, end);
    lemma_bytes_len(tree, n);
    lemma_bytes_split(tree, j, end);
    lemma_bytes_split(tree, end, n);
    lemma_text_len_split(tree, 0, j, end);
    assert(tree.subrange(0, n) =~= tree);
    let head = steps_bytes(tree.subrange(0, j));
    let body = steps_bytes(tree.subrange(j, end));
    let rest = steps_bytes(tree.subrange(end, n));
    assert(steps_bytes(tree) == (head + body) + rest);
    assert(((head + body) + rest).subrange(head.len() as int, (head.len() + body.len()) as int) =~= body);
}

/// The text of steps is the text of the first of them and then the text of
/// the rest.
pub proof fn lemma_text_split(steps: Seq<Step>, a: int, b: int)
    requires
        0 <= a <= b <= steps.len(),
    ensures
        tokens_text(steps.subrange(0, b)) == tokens_text(steps.subrange(0, a)) + tokens_text(
            steps.subrange(a, b),
        ),
    decreases b - a,
{
    if a == b {
        assert(steps.subrange(a, b) =~= Seq::<Step>::empty());
        assert(tokens_text(steps.subrange(0, a)) + Seq::<char>::empty() =~= tokens_text(
            steps.subrange(0, a),
        ));
    } else {
        lemma_text_split(steps, a, b - 1);
        assert(steps.subrange(0, b).drop_last() =~= steps.subrange(0, b - 1));
        assert(steps.subrange(a, b).drop_last() =~= steps.subrange(a, b - 1));
        assert(steps.subrange(0, b).last() == steps.subrange(a, b).last());
        let tail = match steps[b - 1] {
            Step::Token(_, text) => text,
            _ => Seq::empty(),
        };
        assert((tokens_text(steps.subrange(0, a)) + tokens_text(steps.subrange(a, b - 1))) + tail
            =~= tokens_text(steps.subrange(0, a)) + (tokens_text(steps.subrange(a, b - 1)) + tail));
    }
}

/// Where one text follows another, the second begins at a boundary of
/// characters.
pub proof fn lemma_boundary_between(a: Seq<char>, b: Seq<char>)
    ensures
        is_char_boundary(encode_utf8(a + b), encode_utf8(a).len() as int),
    decreases a.len(),
{
    let chars = a + b;
    let bytes = encode_utf8(chars);
    encode_utf8_valid_utf8(chars);
    lemma_encode_concat(a, b);
    if a.len() > 0 {
        encode_utf8_first_scalar(chars);
        encode_utf8_first_scalar(a);
        assert(chars[0] == a[0]);
        assert(chars.drop_first() =~= a.drop_first() + b);
        let first = encode_scalar(a[0] as u32);
        assert(pop_first_scalar(bytes) =~= encode_utf8(chars.drop_first()));
        assert(encode_utf8(a).len() == first.len() + encode_utf8(a.drop_first()).len());
        assert(first.len() > 0);
        lemma_boundary_between(a.drop_first(), b);
    }
}

/// In the text of a tree, the range of a node or token begins and ends at
/// boundaries of characters: it is a part of the text.
pub proof fn law_range_can_be_sliced(tree: Seq<Step>, j: int)
    requires
        tree_wf(tree),
        element_at(tree, j),
    ensures
        can_slice(
            encode_utf8(tokens_text(tree)),
            start_range(tree, j).0,
            start_range(tree, j).1,
        ),
{
    let end = subtree_end(tree, j) + 1;
    let n = tree.len() as int;
    law_range_holds_text(tree, j);
    assert(tree.subrange(0, n) =~= tree);
    lemma_text_split(tree, j, n);
    lemma_text_split(tree, end, n);
    lemma_bytes_len(tree, j);
    lemma_bytes_len(tree, end);
    lemma_bytes_of_text(tree.subrange(0, j));
    lemma_bytes_of_text(tree.subrange(0, end));
    lemma_boundary_between(tokens_text(tree.subrange(0, j)), tokens_text(tree.subrange(j, n)));
    lemma_boundary_between(tokens_text(tree.subrange(0, end)), tokens_text(tree.subrange(end, n)));
}

/// What is copied has the range of a node or token below the node that is
/// shaped.
pub proof fn lemma_kept_ranges_are_ranges(
    shaping: Shaping,
    tree: Seq<Step>,
    idx: int,
    n: int,
    k: int,
)
    requires
        0 <= k < kept_ranges(shaping, tree, idx, n).len(),
        n <= inner_steps(tree.subrange(idx, subtree_end(tree, idx) + 1)).len(),
        0 <= idx <= subtree_end(tree, idx) < tree.len(),
    ensures
        exists|m: int|
            1 <= m <= n && is_start(#[trigger] tree[idx + m]) && kept_ranges(shaping, tree, idx, n)[k]
                == start_range(tree, idx + m),
    decreases n,
{
    let sub = tree.subrange(idx, subtree_end(tree, idx) + 1);
    let prev = kept_ranges(shaping, tree, idx, n - 1);
    if n > 0 {
        if k < prev.len() {
            lemma_kept_ranges_are_ranges(shaping, tree, idx, n - 1, k);
            let m = choose|m: int|
                1 <= m <= n - 1 && is_start(#[trigger] tree[idx + m]) && prev[k] == start_range(
                    tree,
                    idx + m,
                );
            assert(kept_ranges(shaping, tree, idx, n)[k] == prev[k]);
            assert(is_start(tree[idx + m]));
        } else {
            assert(inner_steps(sub)[n - 1] == tree[idx + n]);
            assert(is_start(tree[idx + n]));
        }
    }
}

/// In the mapping of a shaped tree, every range is that of a node or token
/// of the tree that was read: of the node that was shaped, or of one below
/// it, here at position `j`. Where the text is the text of that tree, the
/// range is a part of the text, and its bytes are the text of that node or
/// token.
pub proof fn law_range_is_of_an_element(
    bytes: Seq<u8>,
    shaping: Shaping,
    tree: Seq<Step>,
    idx: int,
    new_tree: Seq<Step>,
    key: (int, int),
) -> (j: int)
    requires
        tree_wf(tree),
        element_at(tree, idx),
        count_starts(new_tree) == shaped_ranges(shaping, tree, idx).len(),
        mapping_upto(
            new_tree,
            0,
            rows_and_columns(
                spec_line_breaks(bytes, bytes.len() as int),
                shaped_ranges(shaping, tree, idx),
            ),
            new_tree.len() as int,
        ).contains_key(key),
    ensures
        idx <= j <= subtree_end(tree, idx),
        element_at(tree, j),
        ({
            let r = mapping_upto(
                new_tree,
                0,
                rows_and_columns(
                    spec_line_breaks(bytes, bytes.len() as int),
                    shaped_ranges(shaping, tree, idx),
                ),
                new_tree.len() as int,
            )[key];
            &&& (r.start_byte as int, r.end_byte as int) == start_range(tree, j)
            &&& bytes == encode_utf8(tokens_text(tree)) ==> can_slice(
                bytes,
                r.start_byte as int,
                r.end_byte as int,
            ) && bytes.subrange(r.start_byte as int, r.end_byte as int) == encode_utf8(
                tokens_text(tree.subrange(j, subtree_end(tree, j) + 1)),
            )
        }),
{
    let breaks = spec_line_breaks(bytes, bytes.len() as int);
    let ranges = shaped_ranges(shaping, tree, idx);
    let values = rows_and_columns(breaks, ranges);
    let map = mapping_upto(new_tree, 0, values, new_tree.len() as int);
    law_mapping_covers(new_tree, 0, values, new_tree.len() as int);
    assert(new_tree.subrange(0, new_tree.len() as int) =~= new_tree);
    let k = choose|k: int| 0 <= k < count_starts(new_tree) && map[key] == #[trigger] values[k];
    let sub = tree.subrange(idx, subtree_end(tree, idx) + 1);
    let n = inner_steps(sub).len() as int;
    lemma_tree_nodes_end(tree);
    let j = if k > 0 {
        assert(ranges[k] == kept_ranges(shaping, tree, idx, n)[k - 1]);
        lemma_kept_ranges_are_ranges(shaping, tree, idx, n, k - 1);
        let m = choose|m: int|
            1 <= m <= n && is_start(#[trigger] tree[idx + m]) && kept_ranges(shaping, tree, idx, n)[k
                - 1] == start_range(tree, idx + m);
        idx + m
    } else {
        assert(ranges[k] == start_range(tree, idx));
        idx
    };
    lemma_scan_within(tree, 0, 0, j);
    lemma_start_range_bound(tree, j);
    law_range_holds_text(tree, j);
    law_range_can_be_sliced(tree, j);
    assert(values[k] == spec_range(breaks, ranges[k].0, ranges[k].1));
    j
}

} // verus!
