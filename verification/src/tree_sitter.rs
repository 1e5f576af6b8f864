//! The tree in the shape that tree-sitter users expect, its ranges in rows
//! and columns, and a cursor over it.

pub mod convert;
pub mod dump;
pub mod laws;
pub mod shape;
pub mod transform;

use vstd::prelude::*;
use vstd::string::StringSliceAdditionalSpecFns;
use vstd::utf8::is_char_boundary;
use crate::cst::{
    is_start, lemma_leaf_end, lemma_parent_end, step_kind, subtree_end, NodeOrToken, ResolvedNode,
};
use crate::syntax_kind::SyntaxKind;
use convert::RangeMap;

verus! {

/// A place in a text: a row and a column, both counted from 0. The column
/// is the distance in bytes from the beginning of the row.
#[derive(Debug, Clone, Copy, PartialEq, Eq, Structural)]
pub struct Point {
    pub row: usize,
    pub column: usize,
}

/// The range of a node or token in the text: in bytes, and in rows and
/// columns.
#[derive(Debug, Clone, Copy, PartialEq, Eq, Structural)]
pub struct Range {
    pub start_byte: usize,
    pub end_byte: usize,
    pub start_position: Point,
    pub end_position: Point,
}

/// Whether the bytes from `start` to `end` are a part of a text: both
/// offsets lie in the text, in order, and on boundaries of characters.
pub open spec fn can_slice(bytes: Seq<u8>, start: int, end: int) -> bool {
    start <= end <= bytes.len() && is_char_boundary(bytes, start) && is_char_boundary(bytes, end)
}

/// Takes the part of a text from byte `start` to byte `end` with `get` of
/// std on `str`. Trusted: there is such a part where both offsets lie in
/// the text, in order, and on boundaries of characters, and it holds the
/// bytes between them.
#[verifier::external_body]
fn slice_str<'a>(s: &'a str, start: usize, end: usize) -> (part: Option<&'a str>)
    ensures
        part is Some <==> can_slice(s.spec_bytes(), start as int, end as int),
        part is Some ==> part->Some_0.spec_bytes() == s.spec_bytes().subrange(start as int, end as int),
{
    s.get(start..end)
}

/// A node or token of a shaped tree, with the text that was parsed and the
/// ranges of the tree.
#[derive(Debug)]
pub struct Node<'a> {
    pub input: &'a str,
    pub range_map: &'a RangeMap,
    pub node_or_token: NodeOrToken,
}

/// A cursor over a shaped tree: it stands on a node or token, and moves to
/// its first child, its siblings and its parent.
#[derive(Debug)]
pub struct TreeCursor<'a> {
    pub input: &'a str,
    pub range_map: &'a RangeMap,
    pub node_or_token: NodeOrToken,
}

impl<'a> Node<'a> {
    /// The range of the node in bytes in its tree.
    pub open spec fn key(&self) -> (int, int) {
        (self.node_or_token.spec_start() as int, self.node_or_token.spec_end() as int)
    }

    /// A cursor that stands on this node.
    pub fn walk(&self) -> (cursor: TreeCursor<'a>)
        ensures
            cursor.node_or_token.ok(),
            cursor.node_or_token.same_tree(&self.node_or_token),
            cursor.node_or_token.index() == self.node_or_token.index(),
            cursor.input == self.input,
            cursor.range_map == self.range_map,
    {
        TreeCursor {
            input: self.input,
            range_map: self.range_map,
            node_or_token: self.node_or_token.clone(),
        }
    }

    /// The kind of the node or token.
    pub fn kind(&self) -> (kind: SyntaxKind)
        ensures
            self.node_or_token.ok(),
            kind == step_kind(self.node_or_token.step()),
    {
        self.node_or_token.kind()
    }

    /// The range of the node in rows and columns: what the ranges of the
    /// tree hold under its range in bytes, if anything.
    pub fn range(&self) -> (r: Option<Range>)
        ensures
            r == if self.range_map@.contains_key(self.key()) {
                Some(self.range_map@[self.key()])
            } else {
                None::<Range>
            },
    {
        let text_range = self.node_or_token.text_range();
        self.range_map.get(text_range.0, text_range.1)
    }

    /// The row and column at which the node or token begins, if the map
    /// holds its range.
    pub fn start_position(&self) -> (p: Option<Point>)
        ensures
            p == if self.range_map@.contains_key(self.key()) {
                Some(self.range_map@[self.key()].start_position)
            } else {
                None::<Point>
            },
    {
        match self.range() {
            Some(r) => Some(r.start_position),
            None => None,
        }
    }

    /// The row and column at which the node or token ends, if the map
    /// holds its range.
    pub fn end_position(&self) -> (p: Option<Point>)
        ensures
            p == if self.range_map@.contains_key(self.key()) {
                Some(self.range_map@[self.key()].end_position)
            } else {
                None::<Point>
            },
    {
        match self.range() {
            Some(r) => Some(r.end_position),
            None => None,
        }
    }

    /// The text of the node: the part of the text that was parsed over the
    /// bytes of its range. There is none where the node has no range, or
    /// the range is no part of the text.
    pub fn text(&self) -> (text: Option<&'a str>)
        ensures
            text is Some ==> self.range_map@.contains_key(self.key()),
            text is Some ==> text->Some_0.spec_bytes() == self.input.spec_bytes().subrange(
                self.range_map@[self.key()].start_byte as int,
                self.range_map@[self.key()].end_byte as int,
            ),
            text is None <==> !self.range_map@.contains_key(self.key()) || !can_slice(
                self.input.spec_bytes(),
                self.range_map@[self.key()].start_byte as int,
                self.range_map@[self.key()].end_byte as int,
            ),
    {
        match self.range() {
            Some(r) => slice_str(self.input, r.start_byte, r.end_byte),
            None => None,
        }
    }

    /// The number of children of a node; 0 for a token.
    pub fn child_count(&self) -> (n: usize)
        ensures
            n == crate::cst::child_count(self.node_or_token.tree(), self.node_or_token.index()),
    {
        self.node_or_token.child_count()
    }

    /// The node or token after this one under the same parent, if there is
    /// one.
    pub fn next_sibling(&self) -> (sibling: Option<Node<'a>>)
        ensures
            match sibling {
                Some(s) => s.node_or_token.ok() && s.node_or_token.same_tree(&self.node_or_token)
                    && Some(s.node_or_token.index()) == self.node_or_token.spec_next_sibling()
                    && s.input == self.input && s.range_map == self.range_map,
                None => self.node_or_token.spec_next_sibling() is None,
            },
    {
        match self.node_or_token.next_sibling_or_token() {
            Some(sibling) => Some(
                Node { input: self.input, range_map: self.range_map, node_or_token: sibling },
            ),
            None => None,
        }
    }

    /// Whether this is a comment.
    pub fn is_comment(&self) -> (b: bool)
        ensures
            b == (step_kind(self.node_or_token.step()) == SyntaxKind::C_COMMENT || step_kind(
                self.node_or_token.step(),
            ) == SyntaxKind::SQL_COMMENT),
    {
        self.kind().is_comment()
    }
}

impl<'a> From<Node<'a>> for TreeCursor<'a> {
    /// A cursor that stands where a node is.
    fn from(value: Node<'a>) -> (cursor: TreeCursor<'a>) {
        TreeCursor {
            input: value.input,
            range_map: value.range_map,
            node_or_token: value.node_or_token,
        }
    }
}

impl<'a> vstd::std_specs::convert::FromSpecImpl<Node<'a>> for TreeCursor<'a> {
    open spec fn obeys_from_spec() -> bool {
        true
    }

    open spec fn from_spec(value: Node<'a>) -> TreeCursor<'a> {
        TreeCursor {
            input: value.input,
            range_map: value.range_map,
            node_or_token: value.node_or_token,
        }
    }
}

impl<'a> TreeCursor<'a> {
    /// The node or token on which the cursor stands.
    pub fn node(&self) -> (node: Node<'a>)
        ensures
            node.node_or_token.ok(),
            node.node_or_token.same_tree(&self.node_or_token),
            node.node_or_token.index() == self.node_or_token.index(),
            node.input == self.input,
            node.range_map == self.range_map,
    {
        Node {
            input: self.input,
            range_map: self.range_map,
            node_or_token: self.node_or_token.clone(),
        }
    }

    /// Moves to the first child, if the cursor stands on a node that has
    /// one; else stays. Returns whether it moved.
    pub fn goto_first_child(&mut self) -> (moved: bool)
        ensures
            final(self).input == old(self).input,
            final(self).range_map == old(self).range_map,
            final(self).node_or_token.same_tree(&old(self).node_or_token),
            moved == (old(self).node_or_token.spec_first_child() is Some),
            moved ==> final(self).node_or_token.ok() && Some(final(self).node_or_token.index()) == old(self).node_or_token.spec_first_child(),
            !moved ==> final(self).node_or_token == old(self).node_or_token,
    {
        match self.node_or_token.first_child_or_token() {
            Some(child) => {
                self.node_or_token = child;
                true
            },
            None => false,
        }
    }

    /// Moves to the parent, unless the cursor stands on the root. Returns
    /// whether it moved.
    pub fn goto_parent(&mut self) -> (moved: bool)
        ensures
            final(self).input == old(self).input,
            final(self).range_map == old(self).range_map,
            final(self).node_or_token.same_tree(&old(self).node_or_token),
            moved == (old(self).node_or_token.index() != 0),
            moved ==> final(self).node_or_token.ok() && old(self).node_or_token.spec_parent(
                final(self).node_or_token.index(),
            ),
            !moved ==> final(self).node_or_token == old(self).node_or_token,
    {
        match self.node_or_token.parent() {
            Some(parent) => {
                self.node_or_token = parent;
                true
            },
            None => false,
        }
    }

    /// Moves to the next sibling, if there is one; else stays. Returns
    /// whether it moved.
    pub fn goto_next_sibling(&mut self) -> (moved: bool)
        ensures
            final(self).input == old(self).input,
            final(self).range_map == old(self).range_map,
            final(self).node_or_token.same_tree(&old(self).node_or_token),
            moved == (old(self).node_or_token.spec_next_sibling() is Some),
            moved ==> final(self).node_or_token.ok() && Some(final(self).node_or_token.index()) == old(self).node_or_token.spec_next_sibling(),
            !moved ==> final(self).node_or_token == old(self).node_or_token,
    {
        match self.node_or_token.next_sibling_or_token() {
            Some(sibling) => {
                self.node_or_token = sibling;
                true
            },
            None => false,
        }
    }

    /// Moves to the sibling just before, if there is one; else stays.
    /// Returns whether it moved.
    pub fn goto_direct_prev_sibling(&mut self) -> (moved: bool)
        ensures
            final(self).input == old(self).input,
            final(self).range_map == old(self).range_map,
            final(self).node_or_token.same_tree(&old(self).node_or_token),
            moved == old(self).node_or_token.spec_has_prev(),
            moved ==> final(self).node_or_token.ok() && old(self).node_or_token.spec_prev(
                final(self).node_or_token.index(),
            ),
            !moved ==> final(self).node_or_token == old(self).node_or_token,
    {
        match self.node_or_token.prev_sibling_or_token() {
            Some(prev) => {
                self.node_or_token = prev;
                true
            },
            None => false,
        }
    }

    /// Whether the cursor stands on a comment.
    pub fn is_comment(&self) -> (b: bool)
        ensures
            b == (step_kind(self.node_or_token.step()) == SyntaxKind::C_COMMENT || step_kind(
                self.node_or_token.step(),
            ) == SyntaxKind::SQL_COMMENT),
    {
        self.node_or_token.kind().is_comment()
    }
}

/// A cursor that stands on `node`, over the text that was parsed and the
/// ranges of the tree.
pub fn as_tree_sitter_cursor<'a>(
    input: &'a str,
    node: &ResolvedNode,
    range_map: &'a RangeMap,
) -> (cursor: TreeCursor<'a>)
    ensures
        cursor.node_or_token.ok(),
        cursor.node_or_token.same_tree(node),
        cursor.node_or_token.index() == node.index(),
        cursor.input == input,
        cursor.range_map == range_map,
{
    TreeCursor { input, range_map, node_or_token: node.clone() }
}

/// Whether `visited` holds each node and token that begins at a position
/// from `from` on and before `to`.
pub open spec fn covers(visited: Seq<NodeOrToken>, from: int, to: int) -> bool {
    forall|j: int|
        from <= j < to && visited.len() > 0 && is_start(#[trigger] visited[0].tree()[j])
            ==> exists|k: int| 0 <= k < visited.len() && (#[trigger] visited[k]).index() == j
}

/// The nodes and tokens of a tree from `node` on, in document order: the
/// node, what is below it, and what follows it in its tree. Each is there
/// once.
pub fn traverse_pre_order(node: &ResolvedNode) -> (visited: Vec<NodeOrToken>)
    ensures
        node.ok(),
        visited@.len() >= 1,
        visited@[0].index() == node.index(),
        forall|k: int|
            0 <= k < visited@.len() ==> (#[trigger] visited@[k]).ok() && visited@[k].same_tree(node),
        forall|a: int, b: int|
            0 <= a < b < visited@.len() ==> (#[trigger] visited@[a]).index() < (
            #[trigger] visited@[b]).index(),
        covers(visited@, node.index(), node.tree().len() as int),
{
    let mut visited: Vec<NodeOrToken> = Vec::new();
    let mut cur = node.clone();
    let mut done = false;
    let ghost tree = node.tree();
    while !done
        invariant
            node.ok(),
            tree == node.tree(),
            cur.ok(),
            cur.same_tree(node),
            !done ==> forall|k: int|
                0 <= k < visited@.len() ==> (#[trigger] visited@[k]).index() < cur.index(),
            visited@.len() == 0 ==> cur.index() == node.index() && !done,
            visited@.len() > 0 ==> visited@[0].index() == node.index(),
            forall|k: int|
                0 <= k < visited@.len() ==> (#[trigger] visited@[k]).ok() && visited@[k].same_tree(
                    node,
                ),
            forall|a: int, b: int|
                0 <= a < b < visited@.len() ==> (#[trigger] visited@[a]).index() < (
                #[trigger] visited@[b]).index(),
            !done ==> covers(visited@, node.index(), cur.index()),
            done ==> covers(visited@, node.index(), tree.len() as int),
        decreases
                if done {
                    0
                } else {
                    tree.len() - cur.index()
                },
    {
        let ghost seen = visited@;
        let ghost here = cur.index();
        visited.push(cur.clone());
        proof {
            assert forall|a: int, b: int| 0 <= a < b < visited@.len() implies (
            #[trigger] visited@[a]).index() < (#[trigger] visited@[b]).index() by {
                if b < seen.len() {
                    assert(visited@[a] == seen[a] && visited@[b] == seen[b]);
                } else {
                    assert(visited@[a] == seen[a]);
                }
            }
            assert(visited@[0].tree() == tree);
            assert(covers(visited@, node.index(), here + 1)) by {
                assert forall|j: int|
                    node.index() <= j < here + 1 && is_start(
                        #[trigger] visited@[0].tree()[j],
                    ) implies exists|k: int|
                    0 <= k < visited@.len() && (#[trigger] visited@[k]).index() == j by {
                    if j < here {
                        assert(seen.len() > 0);
                        assert(seen[0].tree() == tree);
                        let k = choose|k: int| 0 <= k < seen.len() && (#[trigger] seen[k]).index() == j;
                        assert(visited@[k] == seen[k]);
                    } else {
                        assert(visited@[seen.len() as int].index() == j);
                    }
                }
            }
        }
        match cur.first_child_or_token() {
            Some(child) => {
                cur = child;
            },
            None => {
                proof {
                    lemma_leaf_end(tree, here);
                }
                match cur.next_sibling_or_token() {
                    Some(sibling) => {
                        cur = sibling;
                    },
                    None => {
                        let mut up = cur.clone();
                        let mut found = false;
                        while !found && !done
                            invariant
                                node.ok(),
                                tree == node.tree(),
                                up.ok(),
                                up.same_tree(node),
                                cur.ok(),
                                cur.same_tree(node),
                                here <= subtree_end(tree, up.index()) < tree.len(),
                                !found ==> up.spec_next_sibling() is None,
                                forall|m: int|
                                    here < m <= subtree_end(tree, up.index()) ==> !is_start(
                                        #[trigger] tree[m],
                                    ),
                                found ==> cur.index() == subtree_end(tree, up.index()) + 1,
                                !found ==> cur.index() == here,
                                done ==> subtree_end(tree, up.index()) == tree.len() - 1,
                            decreases
                                    if found || done {
                                        0
                                    } else {
                                        up.index() + 1
                                    },
                        {
                            match up.parent() {
                                None => {
                                    done = true;
                                },
                                Some(parent) => {
                                    proof {
                                        lemma_parent_end(tree, parent.index(), up.index());
                                    }
                                    match parent.next_sibling_or_token() {
                                        Some(sibling) => {
                                            cur = sibling;
                                            found = true;
                                        },
                                        None => {},
                                    }
                                    up = parent;
                                },
                            }
                        }
                    },
                }
            },
        }
        proof {
            let end = if done {
                tree.len() as int
            } else {
                cur.index()
            };
            assert(forall|m: int| here < m < end ==> !is_start(#[trigger] tree[m]));
            assert(covers(visited@, node.index(), end)) by {
                assert forall|j: int|
                    node.index() <= j < end && is_start(
                        #[trigger] visited@[0].tree()[j],
                    ) implies exists|k: int|
                    0 <= k < visited@.len() && (#[trigger] visited@[k]).index() == j by {
                    if j > here {
                        assert(!is_start(tree[j]));
                    }
                }
            }
            if !done {
                assert(cur.index() > here);
                assert forall|k: int| 0 <= k < visited@.len() implies (
                #[trigger] visited@[k]).index() < cur.index() by {
                    if k < seen.len() {
                        assert(visited@[k] == seen[k]);
                    }
                }
            }
        }
    }
    visited
}

} // verus!
