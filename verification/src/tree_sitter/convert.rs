//! The tree-sitter shape of a tree, with the range of each of its nodes and
//! tokens in rows and columns of the text that was parsed.

use std::collections::HashMap;
use vstd::prelude::*;
use vstd::string::StringSliceAdditionalSpecFns;
use crate::cst::{
    is_start, lemma_element_text, subtree_end, tree_wf, visit_matches, GreenNodeBuilder,
    NodeOrToken, ResolvedNode, Step, TreeEvent,
};
use crate::syntax_kind::SyntaxKind;
use super::shape::{
    count_starts, inner_steps, kept_ranges, lemma_open_count_push, pairs, shaped, start_range,
    stays_open, walk_and_build, Shaping,
};
use super::transform::lemma_closed_is_tree;
use super::{Point, Range};

verus! {

/// Whether numbers are in ascending order, none twice.
pub open spec fn strictly_increasing(s: Seq<usize>) -> bool {
    forall|a: int, b: int| 0 <= a < b < s.len() ==> #[trigger] s[a] < #[trigger] s[b]
}

/// How many of the numbers of `s` are less than `x`.
pub open spec fn count_below(s: Seq<usize>, x: int) -> nat
    decreases s.len(),
{
    if s.len() == 0 {
        0
    } else {
        count_below(s.drop_last(), x) + if s.last() < x {
            1nat
        } else {
            0nat
        }
    }
}

/// In an ascending list, the numbers less than `x` are those before the
/// first that is not.
pub proof fn lemma_count_below(s: Seq<usize>, x: int, i: int)
    requires
        strictly_increasing(s),
        0 <= i <= s.len(),
        forall|k: int| 0 <= k < i ==> (#[trigger] s[k]) < x,
        forall|k: int| i <= k < s.len() ==> (#[trigger] s[k]) >= x,
    ensures
        count_below(s, x) == i,
    decreases s.len(),
{
    if s.len() > 0 {
        let rest = s.drop_last();
        assert(strictly_increasing(rest)) by {
            assert forall|a: int, b: int| 0 <= a < b < rest.len() implies #[trigger] rest[a]
                < #[trigger] rest[b] by {
                assert(s[a] < s[b]);
            }
        }
        if i == s.len() {
            assert forall|k: int| 0 <= k < i - 1 implies (#[trigger] rest[k]) < x by {
                assert(s[k] < x);
            }
            lemma_count_below(rest, x, i - 1);
        } else {
            assert forall|k: int| 0 <= k < i implies (#[trigger] rest[k]) < x by {
                assert(s[k] < x);
            }
            assert forall|k: int| i <= k < rest.len() implies (#[trigger] rest[k]) >= x by {
                assert(s[k] >= x);
            }
            lemma_count_below(rest, x, i);
        }
    }
}

/// The positions among the first `n` bytes at which a line ends: those of
/// the byte 10.
pub open spec fn spec_line_breaks(bytes: Seq<u8>, n: int) -> Seq<usize>
    decreases n,
{
    if n <= 0 {
        Seq::empty()
    } else if bytes[n - 1] == 10 {
        spec_line_breaks(bytes, n - 1).push((n - 1) as usize)
    } else {
        spec_line_breaks(bytes, n - 1)
    }
}

/// The place of byte offset `offset` in a text whose lines end at
/// `line_breaks`: the row is the number of line ends before it, the column
/// its distance from the byte after the last of them.
pub open spec fn spec_point(line_breaks: Seq<usize>, offset: int) -> Point {
    let row = count_below(line_breaks, offset);
    Point {
        row: row as usize,
        column: if row == 0 {
            offset as usize
        } else {
            (offset - line_breaks[row - 1] - 1) as usize
        },
    }
}

/// The range from byte `start` to byte `end` in rows and columns.
pub open spec fn spec_range(line_breaks: Seq<usize>, start: int, end: int) -> Range {
    Range {
        start_byte: start as usize,
        end_byte: end as usize,
        start_position: spec_point(line_breaks, start),
        end_position: spec_point(line_breaks, end),
    }
}

/// The positions at which the lines of a text end, in ascending order.
pub fn line_breaks(src: &str) -> (breaks: Vec<usize>)
    ensures
        breaks@ == spec_line_breaks(src.spec_bytes(), src.spec_bytes().len() as int),
        strictly_increasing(breaks@),
{
    let bytes = src.as_bytes();
    let mut breaks: Vec<usize> = Vec::new();
    let mut i: usize = 0;
    while i < bytes.len()
        invariant
            i <= bytes@.len(),
            bytes@ == src.spec_bytes(),
            breaks@ == spec_line_breaks(bytes@, i as int),
            strictly_increasing(breaks@),
            forall|k: int| 0 <= k < breaks@.len() ==> (#[trigger] breaks@[k]) < i,
        decreases bytes@.len() - i,
    {
        if bytes[i] == 10 {
            breaks.push(i);
        }
        i += 1;
    }
    breaks
}

/// The place of a byte offset in rows and columns.
pub fn point_at(new_line_indices: &Vec<usize>, offset: usize) -> (p: Point)
    requires
        strictly_increasing(new_line_indices@),
    ensures
        p == spec_point(new_line_indices@, offset as int),
{
    let mut lo: usize = 0;
    let mut hi: usize = new_line_indices.len();
    while lo < hi
        invariant
            lo <= hi <= new_line_indices@.len(),
            strictly_increasing(new_line_indices@),
            forall|k: int| 0 <= k < lo ==> (#[trigger] new_line_indices@[k]) < offset,
            forall|k: int|
                hi <= k < new_line_indices@.len() ==> (#[trigger] new_line_indices@[k]) >= offset,
        decreases hi - lo,
    {
        let mid = lo + (hi - lo) / 2;
        if new_line_indices[mid] < offset {
            assert forall|k: int| 0 <= k < mid + 1 implies (#[trigger] new_line_indices@[k])
                < offset by {
                if k < mid {
                    assert(new_line_indices@[k] < new_line_indices@[mid as int]);
                }
            }
            lo = mid + 1;
        } else {
            assert forall|k: int| mid <= k < new_line_indices@.len() implies (
            #[trigger] new_line_indices@[k]) >= offset by {
                if k > mid {
                    assert(new_line_indices@[mid as int] < new_line_indices@[k]);
                }
            }
            hi = mid;
        }
    }
    proof {
        lemma_count_below(new_line_indices@, offset as int, lo as int);
    }
    let column = if lo == 0 {
        offset
    } else {
        offset - new_line_indices[lo - 1] - 1
    };
    Point { row: lo, column }
}

/// The range from byte `start` to byte `end` in rows and columns.
pub fn row_column_range(start: u32, end: u32, new_line_indices: &Vec<usize>) -> (r: Range)
    requires
        strictly_increasing(new_line_indices@),
    ensures
        r == spec_range(new_line_indices@, start as int, end as int),
{
    Range {
        start_byte: start as usize,
        end_byte: end as usize,
        start_position: point_at(new_line_indices, start as usize),
        end_position: point_at(new_line_indices, end as usize),
    }
}

/// The range of a node or token in rows and columns of the text of its
/// tree, whose lines end at `new_line_indices`.
pub fn get_row_column_range(node_or_token: &NodeOrToken, new_line_indices: &Vec<usize>) -> (r:
    Range)
    requires
        strictly_increasing(new_line_indices@),
    ensures
        node_or_token.ok(),
        r == spec_range(
            new_line_indices@,
            node_or_token.spec_start() as int,
            node_or_token.spec_end() as int,
        ),
{
    let text_range = node_or_token.text_range();
    row_column_range(text_range.0, text_range.1, new_line_indices)
}

/// The ranges in rows and columns of the nodes and tokens of a tree, each
/// under its range in bytes.
#[derive(Debug)]
pub struct RangeMap {
    map: HashMap<u64, Range>,
}

/// The number under which a range in bytes is kept.
pub open spec fn range_key(start: int, end: int) -> u64 {
    (start * 0x1_0000_0000 + end) as u64
}

impl View for RangeMap {
    type V = Map<(int, int), Range>;

    closed spec fn view(&self) -> Map<(int, int), Range> {
        Map::new(
            |k: (int, int)|
                0 <= k.0 <= u32::MAX && 0 <= k.1 <= u32::MAX && self.map@.contains_key(
                    range_key(k.0, k.1),
                ),
            |k: (int, int)| self.map@[range_key(k.0, k.1)],
        )
    }
}

impl RangeMap {
    /// A map that holds no range.
    pub fn new() -> (m: RangeMap)
        ensures
            m@ == Map::<(int, int), Range>::empty(),
    {
        let m = RangeMap { map: HashMap::new() };
        assert(m@ =~= Map::<(int, int), Range>::empty());
        m
    }

    /// Puts a range under a range in bytes, in place of what was there.
    pub fn insert(&mut self, start: u32, end: u32, range: Range)
        ensures
            final(self)@ == old(self)@.insert((start as int, end as int), range),
    {
        let key = (start as u64) * 0x1_0000_0000 + end as u64;
        self.map.insert(key, range);
        proof {
            assert forall|k: (int, int)|
                0 <= k.0 <= u32::MAX && 0 <= k.1 <= u32::MAX && k != (
                    start as int,
                    end as int,
                ) implies range_key(k.0, k.1) != key by {}
            assert(self@ =~= old(self)@.insert((start as int, end as int), range));
        }
    }

    /// The range under a range in bytes, if there is one.
    pub fn get(&self, start: u32, end: u32) -> (r: Option<Range>)
        ensures
            r == if self@.contains_key((start as int, end as int)) {
                Some(self@[(start as int, end as int)])
            } else {
                None::<Range>
            },
    {
        let key = (start as u64) * 0x1_0000_0000 + end as u64;
        match self.map.get(&key) {
            Some(r) => Some(*r),
            None => None,
        }
    }
}

/// The ranges of the first `n` steps of the node at position `idx` of a
/// tree that begin a node or token, each mapped to the value at its place
/// among them; where two have the same range, the later one counts.
pub open spec fn mapping_upto(
    tree: Seq<Step>,
    idx: int,
    values: Seq<Range>,
    n: int,
) -> Map<(int, int), Range>
    decreases n,
{
    if n <= 0 {
        Map::empty()
    } else if is_start(tree[idx + n - 1]) {
        mapping_upto(tree, idx, values, n - 1).insert(
            start_range(tree, idx + n - 1),
            values[count_starts(tree.subrange(idx, idx + n - 1)) as int],
        )
    } else {
        mapping_upto(tree, idx, values, n - 1)
    }
}

/// Later steps begin no fewer nodes and tokens.
pub proof fn lemma_count_starts_mono(tree: Seq<Step>, idx: int, a: int, b: int)
    requires
        0 <= idx <= a <= b <= tree.len(),
    ensures
        count_starts(tree.subrange(idx, a)) <= count_starts(tree.subrange(idx, b)),
    decreases b - a,
{
    if a < b {
        lemma_count_starts_mono(tree, idx, a, b - 1);
        assert(tree.subrange(idx, b).drop_last() =~= tree.subrange(idx, b - 1));
    }
}

/// Gives each node and token of a tree, by its range in bytes, the range
/// at its place in `row_column_ranges`. Where two have the same range in
/// bytes, the one later in the tree counts.
pub fn create_mapping(root: &ResolvedNode, row_column_ranges: Vec<Range>) -> (range_map: RangeMap)
    requires
        root.step() is Enter,
        count_starts(root.subtree()) == row_column_ranges@.len(),
    ensures
        range_map@ == mapping_upto(
            root.tree(),
            root.index(),
            row_column_ranges@,
            root.subtree().len() as int,
        ),
{
    let visits = root.walk();
    let ghost tree = root.tree();
    let ghost idx = root.index();
    let mut range_map = RangeMap::new();
    let mut k: usize = 0;
    let mut m: usize = 0;
    assert(tree.subrange(idx, idx) =~= Seq::<Step>::empty());
    while m < visits.len()
        invariant
            m <= visits@.len(),
            root.ok(),
            tree == root.tree(),
            idx == root.index(),
            visits@.len() == root.subtree().len(),
            forall|j: int| 0 <= j < visits@.len() ==> visit_matches(tree, idx + j, #[trigger] visits@[j]),
            k == count_starts(tree.subrange(idx, idx + m)),
            k <= row_column_ranges@.len(),
            count_starts(root.subtree()) == row_column_ranges@.len(),
            range_map@ == mapping_upto(tree, idx, row_column_ranges@, m as int),
        decreases visits@.len() - m,
    {
        proof {
            assert(visit_matches(tree, idx + m, visits@[m as int]));
            assert(tree.subrange(idx, idx + m + 1).drop_last() =~= tree.subrange(idx, idx + m));
            lemma_count_starts_mono(tree, idx, idx + m + 1, idx + visits@.len());
        }
        match &visits[m].event {
            TreeEvent::FinishNode => {},
            _ => {
                range_map.insert(visits[m].start, visits[m].end, row_column_ranges[k]);
                k += 1;
            },
        }
        m += 1;
    }
    range_map
}

/// The ranges in bytes, in the tree that is read, of the root of the
/// shaped tree of a node and of the nodes and tokens that are copied, in
/// the order of the shaped tree: the range of the node itself comes first.
pub open spec fn shaped_ranges(shaping: Shaping, tree: Seq<Step>, idx: int) -> Seq<(int, int)> {
    seq![start_range(tree, idx)] + kept_ranges(
        shaping,
        tree,
        idx,
        inner_steps(tree.subrange(idx, subtree_end(tree, idx) + 1)).len() as int,
    )
}

/// Ranges in bytes as ranges in rows and columns.
pub open spec fn rows_and_columns(line_breaks: Seq<usize>, ranges: Seq<(int, int)>) -> Seq<Range> {
    ranges.map_values(|r: (int, int)| spec_range(line_breaks, r.0, r.1))
}

/// The tree of `root` in the shape of tree-sitter, and the ranges of its
/// nodes and tokens. The shaped tree has a new root, and under it the
/// children of `root` without whitespace, where nested lists and wrappers
/// have given way to their children. Each node and token of the shaped
/// tree is mapped, by its range in bytes in the shaped tree, to the range
/// in rows and columns that the node or token it was copied from has in
/// `src`; the new root stands for `root`. The shaped tree is the walk of
/// one tree; there is neither tree nor ranges where `cstree` has built
/// another tree from it.
pub fn get_ts_tree_and_range_map(src: &str, root: &ResolvedNode) -> (r: Option<
    (ResolvedNode, RangeMap),
>)
    ensures
        root.ok(),
        tree_wf(shaped(Shaping::TreeSitter, root.subtree())),
        r is Some ==> {
            let new_root = r->Some_0.0;
            &&& new_root.ok()
            &&& new_root.index() == 0
            &&& new_root.tree() == shaped(Shaping::TreeSitter, root.subtree())
            &&& count_starts(new_root.tree()) == shaped_ranges(
                Shaping::TreeSitter,
                root.tree(),
                root.index(),
            ).len()
            &&& r->Some_0.1@ == mapping_upto(
                new_root.tree(),
                0,
                rows_and_columns(
                    spec_line_breaks(src.spec_bytes(), src.spec_bytes().len() as int),
                    shaped_ranges(Shaping::TreeSitter, root.tree(), root.index()),
                ),
                new_root.tree().len() as int,
            )
        },
{
    let new_line_indices = line_breaks(src);
    let mut builder = GreenNodeBuilder::new();
    let mut row_column_ranges: Vec<Range> = Vec::new();
    row_column_ranges.push(get_row_column_range(root, &new_line_indices));
    builder.start_node(SyntaxKind::Root);
    let mut ranges: Vec<(u32, u32)> = Vec::new();
    proof {
        let first = builder.steps();
        assert(first =~= seq![Step::Enter(SyntaxKind::Root)]);
        lemma_open_count_push(Seq::<Step>::empty(), Step::Enter(SyntaxKind::Root));
        assert(Seq::<Step>::empty().push(Step::Enter(SyntaxKind::Root)) =~= first);
        assert(stays_open(first)) by {
            assert forall|n: int| 0 < n <= first.len() implies #[trigger] crate::cst::open_count(
                first.subrange(0, n),
            ) >= 1 by {
                assert(first.subrange(0, n) =~= first);
            }
        }
        assert(pairs(ranges@) =~= Seq::<(int, int)>::empty());
    }
    walk_and_build(Shaping::TreeSitter, root, &mut builder, &mut ranges);
    let ghost wanted = shaped_ranges(Shaping::TreeSitter, root.tree(), root.index());
    let ghost breaks = new_line_indices@;
    proof {
        assert(pairs(ranges@) =~= wanted.subrange(1, wanted.len() as int));
        assert(row_column_ranges@ =~= rows_and_columns(breaks, wanted.subrange(0, 1)));
    }
    let mut i: usize = 0;
    while i < ranges.len()
        invariant
            i <= ranges@.len(),
            strictly_increasing(new_line_indices@),
            breaks == new_line_indices@,
            wanted.len() == ranges@.len() + 1,
            pairs(ranges@) == wanted.subrange(1, wanted.len() as int),
            row_column_ranges@ == rows_and_columns(breaks, wanted.subrange(0, i + 1)),
        decreases ranges@.len() - i,
    {
        let ghost before = row_column_ranges@;
        row_column_ranges.push(row_column_range(ranges[i].0, ranges[i].1, &new_line_indices));
        proof {
            assert(pairs(ranges@)[i as int] == wanted[i + 1]);
            assert(row_column_ranges@ =~= rows_and_columns(breaks, wanted.subrange(0, i + 2)));
        }
        i += 1;
    }
    proof {
        assert(wanted.subrange(0, wanted.len() as int) =~= wanted);
        lemma_element_text(root.tree(), root.index());
        lemma_closed_is_tree(builder.steps());
        lemma_open_count_push(builder.steps(), Step::Leave);
    }
    builder.finish_node();
    assert(builder.steps() =~= shaped(Shaping::TreeSitter, root.subtree()));
    let new_root = match builder.finish() {
        Some(new_root) => new_root,
        None => {
            return None;
        },
    };
    proof {
        let tree = new_root.tree();
        assert(tree.subrange(0, subtree_end(tree, 0) + 1) =~= tree);
    }
    let range_map = create_mapping(&new_root, row_column_ranges);
    Some((new_root, range_map))
}

} // verus!
