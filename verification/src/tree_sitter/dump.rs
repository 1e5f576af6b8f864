//! A listing of the shaped tree of a text: each node and token with its
//! depth and its text.

use vstd::prelude::*;
use vstd::string::StringSliceAdditionalSpecFns;
use vstd::utf8::encode_utf8;
use crate::cst::{
    child_at, is_start, lemma_child_scan, open_count, scan_end, step_kind, subtree_end, text_len,
    NodeOrToken, ResolvedNode, Step,
};
use crate::syntax_kind::SyntaxKind;
use super::convert::{
    get_ts_tree_and_range_map, mapping_upto, rows_and_columns, shaped_ranges, spec_line_breaks,
};
use super::shape::{shaped, Shaping};
use super::{can_slice, traverse_pre_order, Node, Range};

verus! {

/// One line of a listing: the kind of a node or token, its text, and the
/// number of nodes that hold it.
#[derive(Debug)]
pub struct DumpEntry {
    pub kind: SyntaxKind,
    pub text: Option<String>,
    pub depth: usize,
}

/// The positions at which nodes and tokens begin among steps, in order.
pub open spec fn starts(steps: Seq<Step>) -> Seq<int>
    decreases steps.len(),
{
    if steps.len() == 0 {
        Seq::empty()
    } else if is_start(steps.last()) {
        starts(steps.drop_last()).push(steps.len() - 1)
    } else {
        starts(steps.drop_last())
    }
}

/// The number of nodes that hold the element at position `i`: those that
/// the steps before it have entered and not left.
pub open spec fn depth_at(steps: Seq<Step>, i: int) -> int {
    open_count(steps.subrange(0, i))
}

/// The text of the element at position `i` of a shaped tree: the part of
/// `input` over the bytes of the range that `map` holds for it, if it holds
/// one and the range is a part of `input`.
pub open spec fn text_at(
    input: Seq<u8>,
    map: Map<(int, int), Range>,
    tree: Seq<Step>,
    i: int,
) -> Option<Seq<u8>> {
    let key = (text_len(tree, 0, i) as int, text_len(tree, 0, subtree_end(tree, i) + 1) as int);
    if map.contains_key(key) && can_slice(input, map[key].start_byte as int, map[key].end_byte as int) {
        Some(input.subrange(map[key].start_byte as int, map[key].end_byte as int))
    } else {
        None
    }
}

/// Whether a line of a listing is the line of the element at position `i`
/// of a shaped tree.
pub open spec fn entry_matches(
    entry: DumpEntry,
    input: Seq<u8>,
    map: Map<(int, int), Range>,
    tree: Seq<Step>,
    i: int,
) -> bool {
    &&& entry.kind == step_kind(tree[i])
    &&& entry.depth == depth_at(tree, i)
    &&& match entry.text {
        Some(t) => text_at(input, map, tree, i) == Some(encode_utf8(t@)),
        None => text_at(input, map, tree, i) is None,
    }
}

/// What one step adds to the depth.
pub proof fn lemma_depth_step(steps: Seq<Step>, i: int)
    requires
        0 <= i < steps.len(),
    ensures
        depth_at(steps, i + 1) == depth_at(steps, i) + match steps[i] {
            Step::Enter(_) => 1int,
            Step::Token(_, _) => 0int,
            Step::Leave => -1int,
        },
{
    assert(steps.subrange(0, i + 1).drop_last() =~= steps.subrange(0, i));
}

/// After an element the depth is what it was before it; and a walk that
/// stands within `open` nodes ends that many nodes higher.
pub proof fn lemma_scan_depth(steps: Seq<Step>, at: int, open: nat)
    requires
        0 <= at < steps.len(),
        open >= 1 || is_start(steps[at]),
        scan_end(steps, at, open) < steps.len(),
    ensures
        depth_at(steps, scan_end(steps, at, open) + 1) == depth_at(steps, at) - open,
    decreases steps.len() - at,
{
    lemma_depth_step(steps, at);
    match steps[at] {
        Step::Enter(_) => {
            assert(scan_end(steps, at, open) == scan_end(steps, at + 1, open + 1));
            assert(at + 1 < steps.len());
            lemma_scan_depth(steps, at + 1, open + 1);
        },
        Step::Token(_, _) => if open != 0 {
            assert(scan_end(steps, at, open) == scan_end(steps, at + 1, open));
            assert(at + 1 < steps.len());
            lemma_scan_depth(steps, at + 1, open);
        },
        Step::Leave => if open > 1 {
            assert(scan_end(steps, at, open) == scan_end(steps, at + 1, (open - 1) as nat));
            assert(at + 1 < steps.len());
            lemma_scan_depth(steps, at + 1, (open - 1) as nat);
        },
    }
}

/// Within an element the depth does not fall below what it was before the
/// element.
pub proof fn lemma_scan_above(steps: Seq<Step>, at: int, open: nat, m: int)
    requires
        0 <= at <= m,
        m <= scan_end(steps, at, open) < steps.len(),
    ensures
        depth_at(steps, m) >= depth_at(steps, at) - open,
    decreases steps.len() - at,
{
    if at < m {
        lemma_depth_step(steps, at);
        match steps[at] {
            Step::Enter(_) => lemma_scan_above(steps, at + 1, open + 1, m),
            Step::Token(_, _) => if open != 0 {
                lemma_scan_above(steps, at + 1, open, m);
            },
            Step::Leave => if open > 1 {
                lemma_scan_above(steps, at + 1, (open - 1) as nat, m);
            },
        }
    }
}

/// A child lies one node deeper than its parent.
pub proof fn lemma_child_depth(steps: Seq<Step>, p: int, k: nat)
    requires
        0 <= p < steps.len(),
        steps[p] is Enter,
        child_at(steps, p, k) is Some,
    ensures
        depth_at(steps, child_at(steps, p, k)->Some_0) == depth_at(steps, p) + 1,
    decreases k,
{
    if k == 0 {
        lemma_depth_step(steps, p);
    } else {
        let before = child_at(steps, p, (k - 1) as nat)->Some_0;
        lemma_child_depth(steps, p, (k - 1) as nat);
        lemma_child_scan(steps, p, (k - 1) as nat);
        lemma_scan_depth(steps, before, 0);
    }
}

/// From one element to the next in document order the depth grows by one
/// at most.
pub proof fn lemma_next_depth(steps: Seq<Step>, i: int, j: int)
    requires
        0 <= i < j <= steps.len(),
        forall|m: int| i < m < j ==> !is_start(#[trigger] steps[m]),
    ensures
        depth_at(steps, j) <= depth_at(steps, i) + 1,
    decreases j - i,
{
    lemma_depth_step(steps, j - 1);
    if i < j - 1 {
        lemma_next_depth(steps, i, j - 1);
        assert(!is_start(steps[j - 1]));
    }
}

/// Positions in ascending order that are those of all elements of a tree
/// are the positions at which its elements begin: up to position `n`, the
/// first `m` of them.
pub proof fn lemma_starts_of_cover(found: Seq<int>, steps: Seq<Step>, n: int) -> (m: int)
    requires
        0 <= n <= steps.len(),
        forall|a: int, b: int| 0 <= a < b < found.len() ==> #[trigger] found[a] < #[trigger] found[b],
        forall|k: int|
            0 <= k < found.len() ==> 0 <= #[trigger] found[k] < steps.len() && is_start(
                steps[found[k]],
            ),
        forall|j: int|
            0 <= j < steps.len() && is_start(#[trigger] steps[j]) ==> exists|k: int|
                0 <= k < found.len() && #[trigger] found[k] == j,
    ensures
        0 <= m <= found.len(),
        starts(steps.subrange(0, n)) == found.subrange(0, m),
        forall|k: int| 0 <= k < m ==> #[trigger] found[k] < n,
        forall|k: int| m <= k < found.len() ==> #[trigger] found[k] >= n,
    decreases n,
{
    if n == 0 {
        assert(starts(steps.subrange(0, 0)) =~= found.subrange(0, 0));
        0
    } else {
        let before = lemma_starts_of_cover(found, steps, n - 1);
        let prefix = steps.subrange(0, n);
        assert(prefix.drop_last() =~= steps.subrange(0, n - 1));
        assert(prefix.last() == steps[n - 1]);
        if is_start(steps[n - 1]) {
            let k = choose|k: int| 0 <= k < found.len() && #[trigger] found[k] == n - 1;
            if k > before {
                assert(found[before] < found[k]);
            }
            assert(k == before);
            assert(found.subrange(0, before + 1) =~= found.subrange(0, before).push(n - 1));
            assert forall|k2: int| before + 1 <= k2 < found.len() implies #[trigger] found[k2]
                >= n by {
                assert(found[before] < found[k2]);
            }
            before + 1
        } else {
            assert forall|k2: int| before <= k2 < found.len() implies #[trigger] found[k2] >= n by {
                assert(is_start(steps[found[k2]]));
            }
            before
        }
    }
}

/// The number of nodes that hold an element: counted by going from parent
/// to parent up to the root.
fn depth_of(e: &NodeOrToken) -> (d: usize)
    requires
        depth_at(e.tree(), e.index()) <= usize::MAX,
    ensures
        e.ok(),
        d == depth_at(e.tree(), e.index()),
{
    let mut cur = e.clone();
    let mut d: usize = 0;
    let mut top = false;
    let ghost tree = e.tree();
    while !top
        invariant
            e.ok(),
            tree == e.tree(),
            cur.ok(),
            cur.same_tree(e),
            0 <= cur.index(),
            depth_at(tree, e.index()) <= usize::MAX,
            d + depth_at(tree, cur.index()) == depth_at(tree, e.index()),
            top ==> cur.index() == 0,
        decreases
                if top {
                    0
                } else {
                    cur.index() + 1
                },
    {
        match cur.parent() {
            Some(parent) => {
                proof {
                    let p = parent.index();
                    let k = choose|k: nat| #[trigger] child_at(tree, p, k) == Some(cur.index());
                    lemma_child_depth(tree, p, k);
                    lemma_scan_above(tree, 0, 0, p);
                    assert(depth_at(tree, 0) == 0) by {
                        assert(tree.subrange(0, 0) =~= Seq::<Step>::empty());
                    }
                }
                d = d + 1;
                cur = parent;
            },
            None => {
                top = true;
            },
        }
    }
    proof {
        assert(tree.subrange(0, 0) =~= Seq::<Step>::empty());
    }
    d
}

/// The listing of the shaped tree of a text: a line for each node and
/// token of the tree-sitter shape of `node`, in document order, with its
/// kind, the number of nodes that hold it, and its text: the part of
/// `input` over its range, where that is a part of `input`. There is no
/// listing where there is no shaped tree.
pub fn dump_entries(input: &str, node: &ResolvedNode) -> (listing: Option<Vec<DumpEntry>>)
    ensures
        listing is Some ==> ({
            let entries = listing->Some_0;
            let tree = shaped(Shaping::TreeSitter, node.subtree());
            let map = mapping_upto(
                tree,
                0,
                rows_and_columns(
                    spec_line_breaks(input.spec_bytes(), input.spec_bytes().len() as int),
                    shaped_ranges(Shaping::TreeSitter, node.tree(), node.index()),
                ),
                tree.len() as int,
            );
            &&& entries@.len() == starts(tree).len()
            &&& forall|k: int|
                0 <= k < entries@.len() ==> entry_matches(
                    #[trigger] entries@[k],
                    input.spec_bytes(),
                    map,
                    tree,
                    starts(tree)[k],
                )
        }),
{
    let (root, range_map) = match get_ts_tree_and_range_map(input, node) {
        Some(shaped) => shaped,
        None => {
            return None;
        },
    };
    let elements = traverse_pre_order(&root);
    let ghost tree = root.tree();
    let ghost found = elements@.map_values(|e: NodeOrToken| e.index());
    proof {
        assert forall|j: int| 0 <= j < tree.len() && is_start(#[trigger] tree[j]) implies exists|
            k: int,
        |
            0 <= k < found.len() && #[trigger] found[k] == j by {
            assert(elements@[0].tree() == tree);
            let k = choose|k: int| 0 <= k < elements@.len() && (#[trigger] elements@[k]).index() == j;
            assert(found[k] == j);
        }
        assert forall|k: int| 0 <= k < found.len() implies 0 <= #[trigger] found[k] < tree.len()
            && is_start(tree[found[k]]) by {
            assert(elements@[k].ok());
        }
        let m = lemma_starts_of_cover(found, tree, tree.len() as int);
        assert(tree.subrange(0, tree.len() as int) =~= tree);
        if m < found.len() {
            assert(found[m] >= tree.len());
        }
        assert(found.subrange(0, m) =~= found);
        assert(tree.subrange(0, 0) =~= Seq::<Step>::empty());
    }
    let mut entries: Vec<DumpEntry> = Vec::new();
    let mut k: usize = 0;
    while k < elements.len()
        invariant
            k <= elements@.len(),
            tree == root.tree(),
            found == elements@.map_values(|e: NodeOrToken| e.index()),
            starts(tree) == found,
            forall|j: int|
                0 <= j < tree.len() && is_start(#[trigger] tree[j]) ==> exists|k: int|
                    0 <= k < found.len() && #[trigger] found[k] == j,
            forall|a: int, b: int|
                0 <= a < b < elements@.len() ==> (#[trigger] elements@[a]).index() < (
                #[trigger] elements@[b]).index(),
            forall|a: int|
                0 <= a < elements@.len() ==> (#[trigger] elements@[a]).ok() && elements@[a].same_tree(
                    &root,
                ),
            k < elements@.len() ==> depth_at(tree, found[k as int]) <= k,
            entries@.len() == k,
            forall|a: int|
                0 <= a < k ==> entry_matches(
                    #[trigger] entries@[a],
                    input.spec_bytes(),
                    range_map@,
                    tree,
                    found[a],
                ),
        decreases elements@.len() - k,
    {
        let ghost i = found[k as int];
        assert(elements@[k as int].ok());
        let depth = depth_of(&elements[k]);
        let here = Node { input, range_map: &range_map, node_or_token: elements[k].clone() };
        let kind = here.kind();
        let text = match here.text() {
            Some(part) => Some(part.to_owned()),
            None => None,
        };
        entries.push(DumpEntry { kind, text, depth });
        proof {
            if k + 1 < elements@.len() {
                let j = found[k + 1];
                assert(elements@[k as int].index() < elements@[k + 1].index());
                assert(elements@[k + 1].ok());
                assert forall|m: int| i < m < j implies !is_start(#[trigger] tree[m]) by {
                    if is_start(tree[m]) {
                        assert(elements@[0].tree() == tree);
                        let k2 = choose|k2: int|
                            0 <= k2 < found.len() && #[trigger] found[k2] == m;
                        if k2 <= k {
                            if k2 < k {
                                assert(elements@[k2].index() < elements@[k as int].index());
                            }
                        } else {
                            if k2 > k + 1 {
                                assert(elements@[k + 1].index() < elements@[k2].index());
                            }
                        }
                    }
                }
                lemma_next_depth(tree, i, j);
            }
        }
        k += 1;
    }
    Some(entries)
}

} // verus!
