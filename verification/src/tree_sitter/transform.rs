//! The lossless shape of a tree.

use vstd::prelude::*;
use crate::cst::{
    lemma_element_text, open_count, scan_end, steps_len, tree_wf, GreenNodeBuilder, ResolvedNode,
    Step,
};
use crate::syntax_kind::SyntaxKind;
use super::shape::{
    lemma_balanced_is_tree, lemma_open_count_push, shaped, stays_open, walk_and_build, Shaping,
};

verus! {

/// Steps that stay open, and leave one node open, end with one more
/// `Leave` as the walk of one tree.
pub proof fn lemma_closed_is_tree(steps: Seq<Step>)
    requires
        steps.len() > 0,
        steps[0] is Enter,
        stays_open(steps),
        open_count(steps) == 1,
        steps_len(steps) <= u32::MAX,
    ensures
        tree_wf(steps.push(Step::Leave)),
{
    let done = steps.push(Step::Leave);
    lemma_open_count_push(steps, Step::Leave);
    assert forall|n: int| 0 < n < done.len() implies #[trigger] open_count(done.subrange(0, n))
        >= 1 by {
        assert(done.subrange(0, n) =~= steps.subrange(0, n));
    }
    lemma_balanced_is_tree(done, 1);
    let first = done.subrange(0, 1);
    assert(first.drop_last() =~= Seq::<Step>::empty());
    assert(open_count(first.drop_last()) == 0);
    assert(open_count(first) == 1);
    assert(scan_end(done, 0, 0) == scan_end(done, 1, 1));
}

/// The tree of `root` in its lossless shape: a new root, and under it the
/// children of `root`, where each list of statements, of targets or of
/// tables directly under a list of its kind has given way to its children,
/// and so has each optional target list. That is the walk of one tree;
/// there is none where `cstree` has built another tree from it.
pub fn transform_cst(root: &ResolvedNode) -> (new_root: Option<ResolvedNode>)
    ensures
        root.ok(),
        tree_wf(shaped(Shaping::Lossless, root.subtree())),
        new_root is Some ==> new_root->Some_0.ok() && new_root->Some_0.index() == 0
            && new_root->Some_0.tree() == shaped(Shaping::Lossless, root.subtree()),
{
    let mut builder = GreenNodeBuilder::new();
    builder.start_node(SyntaxKind::Root);
    let mut ranges: Vec<(u32, u32)> = Vec::new();
    proof {
        let first = builder.steps();
        assert(first =~= seq![Step::Enter(SyntaxKind::Root)]);
        lemma_open_count_push(Seq::<Step>::empty(), Step::Enter(SyntaxKind::Root));
        assert(Seq::<Step>::empty().push(Step::Enter(SyntaxKind::Root)) =~= first);
        assert(stays_open(first)) by {
            assert forall|n: int| 0 < n <= first.len() implies #[trigger] open_count(
                first.subrange(0, n),
            ) >= 1 by {
                assert(first.subrange(0, n) =~= first);
            }
        }
    }
    walk_and_build(Shaping::Lossless, root, &mut builder, &mut ranges);
    proof {
        lemma_element_text(root.tree(), root.index());
        lemma_closed_is_tree(builder.steps());
    }
    builder.finish_node();
    assert(builder.steps() =~= shaped(Shaping::Lossless, root.subtree()));
    builder.finish()
}

} // verus!
