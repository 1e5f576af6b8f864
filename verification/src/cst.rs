//! Syntax trees as `cstree` holds them: how a tree is walked and built, and
//! what each step of a walk is.

use vstd::prelude::*;
use vstd::string::StringExecFns;
use vstd::string::StringSliceAdditionalSpecFns;
use cstree::traversal::WalkEvent;
use cstree::util::NodeOrToken as Element;
use vstd::utf8::encode_utf8;
use crate::syntax_kind::SyntaxKind;

verus! {

/// One event of building a tree: a node starts, a token is added, or the
/// node that started last and is still open finishes.
#[derive(Debug)]
pub enum TreeEvent {
    StartNode(SyntaxKind),
    Token(SyntaxKind, String),
    FinishNode,
}

/// One step of the walk of a tree in document order: a node is entered, a
/// token is passed, or the node that was entered last and not left yet is
/// left.
pub enum Step {
    Enter(SyntaxKind),
    Token(SyntaxKind, Seq<char>),
    Leave,
}

impl View for TreeEvent {
    type V = Step;

    open spec fn view(&self) -> Step {
        match self {
            TreeEvent::StartNode(kind) => Step::Enter(*kind),
            TreeEvent::Token(kind, text) => Step::Token(*kind, text@),
            TreeEvent::FinishNode => Step::Leave,
        }
    }
}

impl Clone for TreeEvent {
    fn clone(&self) -> (event: TreeEvent)
        ensures
            event@ == self@,
    {
        match self {
            TreeEvent::StartNode(kind) => TreeEvent::StartNode(*kind),
            TreeEvent::Token(kind, text) => TreeEvent::Token(*kind, text.clone()),
            TreeEvent::FinishNode => TreeEvent::FinishNode,
        }
    }
}

/// The steps that events describe, in order.
pub open spec fn steps_of(events: Seq<TreeEvent>) -> Seq<Step> {
    events.map_values(|e: TreeEvent| e@)
}

/// Whether a step begins an element of the tree: a node or a token.
pub open spec fn is_start(step: Step) -> bool {
    !(step is Leave)
}

/// The kind of the element that a step begins.
pub open spec fn step_kind(step: Step) -> SyntaxKind {
    match step {
        Step::Enter(kind) => kind,
        Step::Token(kind, _) => kind,
        Step::Leave => SyntaxKind::Root,
    }
}

/// The number of bytes of text that a step adds.
pub open spec fn step_len(step: Step) -> nat {
    match step {
        Step::Token(_, text) => encode_utf8(text).len(),
        _ => 0,
    }
}

/// The number of bytes of text in the steps at the positions `from..to`.
pub open spec fn text_len(steps: Seq<Step>, from: int, to: int) -> nat
    decreases to - from,
{
    if from >= to {
        0
    } else {
        text_len(steps, from, to - 1) + step_len(steps[to - 1])
    }
}

/// The number of bytes of text in all of `steps`.
pub open spec fn steps_len(steps: Seq<Step>) -> nat {
    text_len(steps, 0, steps.len() as int)
}

/// The position of the step that ends the element in which a walk stands
/// at position `at` with `open` nodes of that element entered and not left;
/// the length of `steps` if the walk ends before the element does.
pub open spec fn scan_end(steps: Seq<Step>, at: int, open: nat) -> int
    decreases steps.len() - at,
{
    if at < 0 || at >= steps.len() {
        steps.len() as int
    } else {
        match steps[at] {
            Step::Enter(_) => scan_end(steps, at + 1, open + 1),
            Step::Token(_, _) => if open == 0 {
                at
            } else {
                scan_end(steps, at + 1, open)
            },
            Step::Leave => if open <= 1 {
                at
            } else {
                scan_end(steps, at + 1, (open - 1) as nat)
            },
        }
    }
}

/// The position of the last step of the element that begins at position
/// `i`: `i` itself for a token, the position of the matching `Leave` for a
/// node.
pub open spec fn subtree_end(steps: Seq<Step>, i: int) -> int {
    scan_end(steps, i, 0)
}

/// Whether steps are the walk of one tree: they begin with the root node,
/// end where it ends, and hold at most as much text as a 32-bit offset can
/// address.
pub open spec fn tree_wf(steps: Seq<Step>) -> bool {
    &&& steps.len() > 0
    &&& steps[0] is Enter
    &&& subtree_end(steps, 0) == steps.len() - 1
    &&& text_len(steps, 0, steps.len() as int) <= u32::MAX
}

/// Whether `i` is the position at which an element of the tree begins.
pub open spec fn element_at(steps: Seq<Step>, i: int) -> bool {
    0 <= i < steps.len() && is_start(steps[i]) && i <= subtree_end(steps, i) < steps.len()
}

/// The position of the first child of the node at position `i`, if it has
/// a child.
pub open spec fn first_child_index(steps: Seq<Step>, i: int) -> Option<int> {
    if steps[i] is Enter && i + 1 < steps.len() && is_start(steps[i + 1]) {
        Some(i + 1)
    } else {
        None
    }
}

/// The position of the element that follows the element at position `i`
/// under the same parent, if there is one.
pub open spec fn next_sibling_index(steps: Seq<Step>, i: int) -> Option<int> {
    let j = subtree_end(steps, i) + 1;
    if j < steps.len() && is_start(steps[j]) {
        Some(j)
    } else {
        None
    }
}

/// The position of child `k` of the node at position `p`, counted from 0,
/// if it has as many: the first child, or the sibling after the child
/// before.
pub open spec fn child_at(steps: Seq<Step>, p: int, k: nat) -> Option<int>
    decreases k,
{
    if k == 0 {
        first_child_index(steps, p)
    } else {
        match child_at(steps, p, (k - 1) as nat) {
            Some(c) => next_sibling_index(steps, c),
            None => None,
        }
    }
}

/// Whether `p` is the position of the parent of the element at position
/// `i`: of the node that has it among its children.
pub open spec fn is_parent(steps: Seq<Step>, p: int, i: int) -> bool {
    0 <= p < steps.len() && steps[p] is Enter && exists|k: nat| #[trigger]
        child_at(steps, p, k) == Some(i)
}

/// Whether `k` is the position of the element that precedes the element at
/// position `i` under the same parent.
pub open spec fn is_prev_sibling(steps: Seq<Step>, k: int, i: int) -> bool {
    0 <= k < i && is_start(steps[k]) && subtree_end(steps, k) == i - 1
}

/// Whether the element at position `i` has an element before it under the
/// same parent.
pub open spec fn has_prev_sibling(steps: Seq<Step>, i: int) -> bool {
    i > 0 && !(steps[i - 1] is Enter)
}

/// The number of children of the element at position `i`, counted from
/// position `at` on, which is where a child begins or the element ends.
pub open spec fn count_children(steps: Seq<Step>, at: int) -> nat
    decreases steps.len() - at,
{
    if at < 0 || at >= steps.len() || !is_start(steps[at]) || subtree_end(steps, at) < at
        || subtree_end(steps, at) >= steps.len() {
        0
    } else {
        1 + count_children(steps, subtree_end(steps, at) + 1)
    }
}

/// The number of children of the element at position `i`.
pub open spec fn child_count(steps: Seq<Step>, i: int) -> nat {
    if steps[i] is Enter {
        count_children(steps, i + 1)
    } else {
        0
    }
}

/// A walk does not end before the position at which it stands.
pub proof fn lemma_scan_ge(steps: Seq<Step>, at: int, open: nat)
    requires
        0 <= at <= steps.len(),
    ensures
        at <= scan_end(steps, at, open) <= steps.len(),
    decreases steps.len() - at,
{
    if at < steps.len() {
        match steps[at] {
            Step::Enter(_) => lemma_scan_ge(steps, at + 1, open + 1),
            Step::Token(_, _) => if open != 0 {
                lemma_scan_ge(steps, at + 1, open);
            },
            Step::Leave => if open > 1 {
                lemma_scan_ge(steps, at + 1, (open - 1) as nat);
            },
        }
    }
}

/// A walk that stands before an element, within `more` nodes around it,
/// stands after the element within as many.
pub proof fn lemma_scan_skip(steps: Seq<Step>, at: int, open: nat, more: nat)
    requires
        0 <= at < steps.len(),
        open >= 1 || is_start(steps[at]),
        scan_end(steps, at, open) < steps.len(),
        more >= 1,
    ensures
        scan_end(steps, at, open + more) == scan_end(
            steps,
            scan_end(steps, at, open) + 1,
            more,
        ),
    decreases steps.len() - at,
{
    match steps[at] {
        Step::Enter(_) => {
            lemma_scan_ge(steps, at + 1, open + 1);
            lemma_scan_skip(steps, at + 1, open + 1, more);
        },
        Step::Token(_, _) => {
            if open != 0 {
                lemma_scan_ge(steps, at + 1, open);
                lemma_scan_skip(steps, at + 1, open, more);
            }
        },
        Step::Leave => {
            if open > 1 {
                lemma_scan_ge(steps, at + 1, (open - 1) as nat);
                lemma_scan_skip(steps, at + 1, (open - 1) as nat, more);
            }
        },
    }
}

/// A walk that stands on a node stands, within that node, before each of
/// its children; and the children come after the node.
pub proof fn lemma_child_scan(steps: Seq<Step>, p: int, k: nat)
    requires
        0 <= p < steps.len(),
        steps[p] is Enter,
        child_at(steps, p, k) is Some,
    ensures
        p < child_at(steps, p, k)->Some_0 < steps.len(),
        is_start(steps[child_at(steps, p, k)->Some_0]),
        subtree_end(steps, p) == scan_end(steps, child_at(steps, p, k)->Some_0, 1),
    decreases k,
{
    if k > 0 {
        lemma_child_scan(steps, p, (k - 1) as nat);
        let before = child_at(steps, p, (k - 1) as nat)->Some_0;
        lemma_scan_ge(steps, before, 0);
        lemma_scan_skip(steps, before, 0, 1);
    }
}

/// A node ends after each of its children, and right after one that has no
/// sibling after it, if it ends at all.
pub proof fn lemma_parent_end(steps: Seq<Step>, p: int, i: int)
    requires
        is_parent(steps, p, i),
        subtree_end(steps, i) < steps.len(),
    ensures
        p < i,
        subtree_end(steps, i) < subtree_end(steps, p),
        next_sibling_index(steps, i) is None && subtree_end(steps, p) < steps.len()
            ==> subtree_end(steps, p) == subtree_end(steps, i) + 1,
{
    let k = choose|k: nat| #[trigger] child_at(steps, p, k) == Some(i);
    lemma_child_scan(steps, p, k);
    lemma_scan_ge(steps, i, 0);
    lemma_scan_skip(steps, i, 0, 1);
    lemma_scan_ge(steps, subtree_end(steps, i) + 1, 1);
}

/// A node whose first step is followed by no child ends with the next
/// step, if it ends at all; a token ends where it begins.
pub proof fn lemma_leaf_end(steps: Seq<Step>, i: int)
    requires
        0 <= i < steps.len(),
        is_start(steps[i]),
        first_child_index(steps, i) is None,
        subtree_end(steps, i) < steps.len(),
    ensures
        forall|m: int| i < m <= subtree_end(steps, i) ==> !is_start(#[trigger] steps[m]),
{
    if steps[i] is Enter {
        assert(scan_end(steps, i, 0) == scan_end(steps, i + 1, 1));
    }
}

/// The text of an element is a part of the text of its tree, which a
/// 32-bit offset can address.
pub proof fn lemma_element_text(steps: Seq<Step>, i: int)
    requires
        tree_wf(steps),
        element_at(steps, i),
    ensures
        text_len(steps, i, subtree_end(steps, i) + 1) <= u32::MAX,
{
    lemma_text_len_split(steps, 0, i, steps.len() as int);
    lemma_text_len_split(steps, i, subtree_end(steps, i) + 1, steps.len() as int);
}

/// The number of nodes that steps have entered and not left.
pub open spec fn open_count(steps: Seq<Step>) -> int
    decreases steps.len(),
{
    if steps.len() == 0 {
        0
    } else {
        open_count(steps.drop_last()) + match steps.last() {
            Step::Enter(_) => 1int,
            Step::Token(_, _) => 0int,
            Step::Leave => -1int,
        }
    }
}

/// One item of the walk of a tree as `cstree` yields it: entering a node
/// or a token, with its kind and the range of its text in bytes, or leaving
/// one.
#[derive(Debug)]
pub enum WalkStep {
    EnterNode(SyntaxKind, u32, u32),
    EnterToken(SyntaxKind, String, u32, u32),
    LeaveNode,
    LeaveToken,
}

/// The mathematical value of a [`WalkStep`].
pub enum WalkStepView {
    EnterNode(SyntaxKind, int, int),
    EnterToken(SyntaxKind, Seq<char>, int, int),
    LeaveNode,
    LeaveToken,
}

impl View for WalkStep {
    type V = WalkStepView;

    open spec fn view(&self) -> WalkStepView {
        match self {
            WalkStep::EnterNode(kind, start, end) => WalkStepView::EnterNode(
                *kind,
                *start as int,
                *end as int,
            ),
            WalkStep::EnterToken(kind, text, start, end) => WalkStepView::EnterToken(
                *kind,
                text@,
                *start as int,
                *end as int,
            ),
            WalkStep::LeaveNode => WalkStepView::LeaveNode,
            WalkStep::LeaveToken => WalkStepView::LeaveToken,
        }
    }
}

/// The views of the items of a walk, in order.
pub open spec fn walk_view(walk: Seq<WalkStep>) -> Seq<WalkStepView> {
    walk.map_values(|w: WalkStep| w@)
}

/// What `cstree` yields for the step at position `j` of a tree: for a node
/// entered, its kind and range; for a token, its kind, text and range, and
/// then that it is left; for a node left, that it is left.
pub open spec fn walk_items(steps: Seq<Step>, j: int) -> Seq<WalkStepView> {
    let start = text_len(steps, 0, j) as int;
    match steps[j] {
        Step::Enter(kind) => seq![
            WalkStepView::EnterNode(
                kind,
                start,
                text_len(steps, 0, subtree_end(steps, j) + 1) as int,
            ),
        ],
        Step::Token(kind, text) => seq![
            WalkStepView::EnterToken(kind, text, start, text_len(steps, 0, j + 1) as int),
            WalkStepView::LeaveToken,
        ],
        Step::Leave => seq![WalkStepView::LeaveNode],
    }
}

/// What `cstree` yields for the steps of a tree at the positions
/// `from..to`.
pub open spec fn walk_range(steps: Seq<Step>, from: int, to: int) -> Seq<WalkStepView>
    decreases to - from,
{
    if from >= to {
        Seq::empty()
    } else {
        walk_range(steps, from, to - 1) + walk_items(steps, to - 1)
    }
}

/// A node or a token of a syntax tree that `cstree` holds, with its place
/// in the tree.
#[verifier::external_body]
#[derive(Debug)]
pub struct NodeOrToken {
    inner: Element<
        cstree::syntax::ResolvedNode<SyntaxKind>,
        cstree::syntax::ResolvedToken<SyntaxKind>,
    >,
}

/// The walk of the whole tree that an element belongs to.
pub uninterp spec fn element_tree(e: NodeOrToken) -> Seq<Step>;

/// The position, in the walk of its tree, of the step at which an element
/// begins.
pub uninterp spec fn element_index(e: NodeOrToken) -> int;

/// What `cstree` writes for the element at position `index` of a tree when
/// it is formatted for debugging: the element alone, or with all that is
/// below it where `recursive` is set.
pub uninterp spec fn debug_dump(tree: Seq<Step>, index: int, recursive: bool) -> Seq<char>;

/// A tree under construction that `cstree` holds.
#[verifier::external_body]
pub struct CstreeBuilder {
    inner: cstree::build::GreenNodeBuilder<'static, 'static, SyntaxKind>,
}

/// The calls that a builder of `cstree` has received, in order: a node
/// started, a token added, a node finished.
pub uninterp spec fn builder_steps(b: CstreeBuilder) -> Seq<Step>;

/// A tree under construction: the events received so far. `cstree` builds
/// the tree from them when the last one is in.
#[derive(Debug)]
pub struct GreenNodeBuilder {
    pub events: Vec<TreeEvent>,
}

impl NodeOrToken {
    /// The walk of the tree that this element belongs to.
    pub open spec fn tree(&self) -> Seq<Step> {
        element_tree(*self)
    }

    /// The position at which this element begins in the walk of its tree.
    pub open spec fn index(&self) -> int {
        element_index(*self)
    }

    /// What holds of every element: its tree is one tree, and the element
    /// begins at its position.
    pub open spec fn ok(&self) -> bool {
        tree_wf(self.tree()) && element_at(self.tree(), self.index())
    }

    /// The number of bytes of text before this element.
    pub open spec fn spec_start(&self) -> nat {
        text_len(self.tree(), 0, self.index())
    }

    /// The number of bytes of text before the end of this element.
    pub open spec fn spec_end(&self) -> nat {
        text_len(self.tree(), 0, subtree_end(self.tree(), self.index()) + 1)
    }

    /// What `cstree` yields for the steps of this element, from its first
    /// to its last.
    pub open spec fn spec_walk(&self) -> Seq<WalkStepView> {
        walk_range(self.tree(), self.index(), subtree_end(self.tree(), self.index()) + 1)
    }

    /// The position of the first child of this element, if it has one.
    pub open spec fn spec_first_child(&self) -> Option<int> {
        first_child_index(self.tree(), self.index())
    }

    /// The position of the next sibling of this element, if it has one.
    pub open spec fn spec_next_sibling(&self) -> Option<int> {
        next_sibling_index(self.tree(), self.index())
    }

    /// Whether this element has a sibling before it.
    pub open spec fn spec_has_prev(&self) -> bool {
        has_prev_sibling(self.tree(), self.index())
    }

    /// Whether `k` is the position of the sibling before this element.
    pub open spec fn spec_prev(&self, k: int) -> bool {
        is_prev_sibling(self.tree(), k, self.index())
    }

    /// Whether `p` is the position of the parent of this element.
    pub open spec fn spec_parent(&self, p: int) -> bool {
        is_parent(self.tree(), p, self.index())
    }

    /// The step at which this element begins.
    pub open spec fn step(&self) -> Step {
        self.tree()[self.index()]
    }

    /// Whether another element is an element of the same tree.
    pub open spec fn same_tree(&self, other: &NodeOrToken) -> bool {
        self.tree() == other.tree()
    }

    /// Calls `kind` of `cstree` on the element. Trusted: the element is an
    /// element of one tree, and its kind is the kind with which it was
    /// built.
    #[verifier::external_body]
    fn raw_kind(&self) -> (kind: SyntaxKind)
        ensures
            kind == step_kind(element_tree(*self)[element_index(*self)]),
    {
        self.inner.kind()
    }

    /// Tells a node from a token. Trusted: nodes are the elements that
    /// begin with `Enter`.
    #[verifier::external_body]
    fn raw_is_node(&self) -> (b: bool)
        ensures
            b == (element_tree(*self)[element_index(*self)] is Enter),
    {
        match &self.inner {
            Element::Node(_) => true,
            Element::Token(_) => false,
        }
    }

    /// Calls `text_range` of `cstree` on the element. Trusted: the range
    /// begins after the text of all tokens before the element, and ends
    /// after the text of its own tokens.
    #[verifier::external_body]
    fn raw_text_range(&self) -> (r: (u32, u32))
        ensures
            r.0 == self.spec_start(),
            r.1 == self.spec_end(),
    {
        let range = self.inner.text_range();
        (range.start().into(), range.end().into())
    }

    /// Calls `text` of `cstree` on a token. Trusted: the text is the text
    /// with which the token was built.
    #[verifier::external_body]
    fn raw_token_text(&self) -> (text: String)
        requires
            self.step() is Token,
        ensures
            self.step() == Step::Token(step_kind(self.step()), text@),
    {
        match &self.inner {
            Element::Token(token) => token.text().to_string(),
            Element::Node(_) => String::new(),
        }
    }

    /// Calls `first_child_or_token` of `cstree` on a node. Trusted: the
    /// first child begins at the step after the node's own, unless the node
    /// ends there.
    #[verifier::external_body]
    fn raw_first_child(&self) -> (child: Option<NodeOrToken>)
        requires
            self.step() is Enter,
        ensures
            match child {
                Some(c) => c.ok() && c.same_tree(self) && self.spec_first_child() == Some(c.index()),
                None => self.spec_first_child() is None,
            },
    {
        let found = match &self.inner {
            Element::Node(node) => node.first_child_or_token(),
            Element::Token(_) => None,
        };
        found.map(
            |c|
                match c {
                    Element::Node(n) => NodeOrToken {
                        inner: Element::Node(n.clone()),
                    },
                    Element::Token(t) => NodeOrToken {
                        inner: Element::Token(t.clone()),
                    },
                },
        )
    }

    /// Calls `next_sibling_or_token` of `cstree` on the element. Trusted:
    /// the next sibling begins at the step after the element's last, unless
    /// the parent ends there.
    #[verifier::external_body]
    fn raw_next_sibling(&self) -> (sibling: Option<NodeOrToken>)
        ensures
            match sibling {
                Some(s) => s.ok() && s.same_tree(self) && self.spec_next_sibling() == Some(s.index()),
                None => self.ok() && self.spec_next_sibling() is None,
            },
    {
        self.inner.next_sibling_or_token().map(
            |c|
                match c {
                    Element::Node(n) => NodeOrToken {
                        inner: Element::Node(n.clone()),
                    },
                    Element::Token(t) => NodeOrToken {
                        inner: Element::Token(t.clone()),
                    },
                },
        )
    }

    /// Calls `prev_sibling_or_token` of `cstree` on the element. Trusted:
    /// the previous sibling is the element that ends at the step before
    /// this one, unless the parent begins there.
    #[verifier::external_body]
    fn raw_prev_sibling(&self) -> (sibling: Option<NodeOrToken>)
        ensures
            match sibling {
                Some(s) => s.ok() && s.same_tree(self) && self.spec_has_prev() && self.spec_prev(s.index()),
                None => self.ok() && !self.spec_has_prev(),
            },
    {
        self.inner.prev_sibling_or_token().map(
            |c|
                match c {
                    Element::Node(n) => NodeOrToken {
                        inner: Element::Node(n.clone()),
                    },
                    Element::Token(t) => NodeOrToken {
                        inner: Element::Token(t.clone()),
                    },
                },
        )
    }

    /// Calls `parent` of `cstree` on the element. Trusted: the parent is
    /// the nearest node before the element that holds it; the root alone
    /// has none.
    #[verifier::external_body]
    fn raw_parent(&self) -> (parent: Option<NodeOrToken>)
        ensures
            match parent {
                Some(p) => p.ok() && p.same_tree(self) && self.spec_parent(p.index()),
                None => self.ok() && self.index() == 0,
            },
    {
        self.inner.parent().map(
            |n| NodeOrToken { inner: Element::Node(n.clone()) },
        )
    }

    /// Counts what `children_with_tokens` of `cstree` yields for a node.
    /// Trusted: the count is the number of children.
    #[verifier::external_body]
    fn raw_child_count(&self) -> (n: usize)
        requires
            self.step() is Enter,
        ensures
            n == child_count(self.tree(), self.index()),
    {
        match &self.inner {
            Element::Node(node) => node.children_with_tokens().count(),
            Element::Token(_) => 0,
        }
    }

    /// Clones the element with `clone` of `cstree`. Trusted: the clone is
    /// the same element of the same tree, and an element of one tree, as
    /// every element is.
    #[verifier::external_body]
    fn raw_clone(&self) -> (e: NodeOrToken)
        ensures
            e.ok(),
            element_tree(e) == element_tree(*self),
            element_index(e) == element_index(*self),
    {
        NodeOrToken { inner: self.inner.clone() }
    }

    /// Collects what `preorder_with_tokens` of `cstree` yields for a node.
    /// Trusted: the walk holds, for each step of the node from its first to
    /// its last, what `cstree` yields for it.
    #[verifier::external_body]
    fn raw_walk(&self) -> (walk: Vec<WalkStep>)
        requires
            self.step() is Enter,
        ensures
            walk_view(walk@) == self.spec_walk(),
    {
        let node = self.inner.as_node().unwrap();
        node.preorder_with_tokens().map(
            |event|
                match event {
                    WalkEvent::Enter(Element::Node(n)) => WalkStep::EnterNode(n.kind(), n.text_range().start().into(), n.text_range().end().into()),
                    WalkEvent::Enter(Element::Token(t)) => WalkStep::EnterToken(t.kind(), t.text().to_string(), t.text_range().start().into(), t.text_range().end().into()),
                    WalkEvent::Leave(Element::Node(_)) => WalkStep::LeaveNode,
                    WalkEvent::Leave(Element::Token(_)) => WalkStep::LeaveToken,
                },
        ).collect()
    }

    /// Formats the element with `Debug` of `cstree`, with all that is below
    /// it where `recursive` is set. Trusted: the text depends on the tree
    /// and the place of the element alone.
    #[verifier::external_body]
    fn raw_debug(&self, recursive: bool) -> (text: String)
        ensures
            text@ == debug_dump(self.tree(), self.index(), recursive),
    {
        match (&self.inner, recursive) {
            (Element::Node(node), true) => format!("{:#?}", node),
            (Element::Node(node), false) => format!("{:?}", node),
            (Element::Token(token), _) => format!("{:?}", token),
        }
    }
}

impl CstreeBuilder {
    /// Calls `new` of `cstree`. Trusted: a new builder has received
    /// nothing.
    #[verifier::external_body]
    fn raw_new() -> (b: CstreeBuilder)
        ensures
            builder_steps(b) == Seq::<Step>::empty(),
    {
        CstreeBuilder { inner: cstree::build::GreenNodeBuilder::new() }
    }

    /// Calls `start_node` of `cstree`. Trusted: the call is received.
    #[verifier::external_body]
    fn raw_start_node(&mut self, kind: SyntaxKind)
        ensures
            builder_steps(*final(self)) == builder_steps(*old(self)).push(Step::Enter(kind)),
    {
        self.inner.start_node(kind);
    }

    /// Calls `token` of `cstree`, which counts the text of a tree in 32
    /// bits. Trusted: the call is received.
    #[verifier::external_body]
    fn raw_token(&mut self, kind: SyntaxKind, text: &str)
        requires
            steps_len(builder_steps(*old(self))) + encode_utf8(text@).len() <= u32::MAX,
        ensures
            builder_steps(*final(self)) == builder_steps(*old(self)).push(Step::Token(kind, text@)),
    {
        self.inner.token(kind, text);
    }

    /// Calls `finish_node` of `cstree`, which needs a node that has started
    /// and not finished. Trusted: the call is received.
    #[verifier::external_body]
    fn raw_finish_node(&mut self)
        requires
            open_count(builder_steps(*old(self))) > 0,
        ensures
            builder_steps(*final(self)) == builder_steps(*old(self)).push(Step::Leave),
    {
        self.inner.finish_node();
    }

    /// Calls `finish` of `cstree`, which needs the calls of one whole node,
    /// and makes the result a tree of its own with
    /// `new_root_with_resolver`. Trusted: the result is the root of one
    /// tree. That the tree holds what the calls said is not claimed:
    /// `cstree` takes a small node for an earlier one of the same kind and
    /// the same length of text whose children have the same hash.
    #[verifier::external_body]
    fn raw_finish(self) -> (root: NodeOrToken)
        requires
            tree_wf(builder_steps(self)),
        ensures
            root.ok(),
            element_index(root) == 0,
    {
        let (tree, cache) = self.inner.finish();
        let interner = cache.unwrap().into_interner().unwrap();
        NodeOrToken {
            inner: Element::Node(
                cstree::syntax::SyntaxNode::new_root_with_resolver(tree, interner),
            ),
        }
    }
}

impl GreenNodeBuilder {
    /// The events that this builder has received, as steps.
    pub open spec fn steps(&self) -> Seq<Step> {
        steps_of(self.events@)
    }

    /// A builder that has received nothing.
    pub fn new() -> (b: GreenNodeBuilder)
        ensures
            b.steps() == Seq::<Step>::empty(),
    {
        let b = GreenNodeBuilder { events: Vec::new() };
        assert(b.steps() =~= Seq::<Step>::empty());
        b
    }

    /// Begins a node of a kind.
    pub fn start_node(&mut self, kind: SyntaxKind)
        ensures
            final(self).steps() == old(self).steps().push(Step::Enter(kind)),
    {
        self.events.push(TreeEvent::StartNode(kind));
        assert(self.steps() =~= old(self).steps().push(Step::Enter(kind)));
    }

    /// Adds a token of a kind with its text.
    pub fn token(&mut self, kind: SyntaxKind, text: &str)
        ensures
            final(self).steps() == old(self).steps().push(Step::Token(kind, text@)),
    {
        self.events.push(TreeEvent::Token(kind, text.to_owned()));
        assert(self.steps() =~= old(self).steps().push(Step::Token(kind, text@)));
    }

    /// Ends the node that began last and has not ended.
    pub fn finish_node(&mut self)
        ensures
            final(self).steps() == old(self).steps().push(Step::Leave),
    {
        self.events.push(TreeEvent::FinishNode);
        assert(self.steps() =~= old(self).steps().push(Step::Leave));
    }

    /// The tree of the events received: its root. There is none unless
    /// the events are those of one whole node, and none where `cstree`
    /// has built another tree than the events describe.
    pub fn finish(self) -> (root: Option<ResolvedNode>)
        ensures
            root is Some ==> root->Some_0.ok() && root->Some_0.index() == 0
                && root->Some_0.tree() == self.steps(),
    {
        build_tree(&self.events)
    }
}

impl TreeEvent {
    /// Whether two events are the same.
    pub fn same(&self, other: &TreeEvent) -> (b: bool)
        ensures
            b == (self@ == other@),
    {
        match (self, other) {
            (TreeEvent::StartNode(a), TreeEvent::StartNode(b)) => *a == *b,
            (TreeEvent::Token(a, s), TreeEvent::Token(b, t)) => *a == *b && *s == *t,
            (TreeEvent::FinishNode, TreeEvent::FinishNode) => true,
            _ => false,
        }
    }
}

/// A node, if it and all that is below it are what events describe, and
/// nothing if not.
pub fn checked_tree(root: ResolvedNode, events: &Vec<TreeEvent>) -> (r: Option<ResolvedNode>)
    ensures
        r is Some <==> root.step() is Enter && root.subtree() == steps_of(events@),
        r is Some ==> r->Some_0 == root,
{
    let built = root.events();
    if !root.is_node() {
        return None;
    }
    if built.len() != events.len() {
        assert(steps_of(built@).len() != steps_of(events@).len());
        return None;
    }
    let mut i: usize = 0;
    while i < built.len()
        invariant
            i <= built@.len(),
            built@.len() == events@.len(),
            root.step() is Enter,
            steps_of(built@) == root.subtree(),
            forall|m: int| 0 <= m < i ==> (#[trigger] built@[m])@ == events@[m]@,
        decreases built@.len() - i,
    {
        if !built[i].same(&events[i]) {
            assert(steps_of(built@)[i as int] != steps_of(events@)[i as int]);
            return None;
        }
        i += 1;
    }
    assert(steps_of(built@) =~= steps_of(events@));
    Some(root)
}

/// One step of the walk of a tree, with the range in bytes of the text of
/// the element that begins there: of no meaning where a node is left.
#[derive(Debug)]
pub struct Visit {
    pub event: TreeEvent,
    pub start: u32,
    pub end: u32,
}

/// Whether `visit` is the step at position `j` of a tree, with the range of
/// the element that begins there.
pub open spec fn visit_matches(steps: Seq<Step>, j: int, visit: Visit) -> bool {
    &&& visit.event@ == steps[j]
    &&& is_start(steps[j]) ==> visit.start == text_len(steps, 0, j)
    &&& steps[j] is Enter ==> visit.end == text_len(steps, 0, subtree_end(steps, j) + 1)
    &&& steps[j] is Token ==> visit.end == text_len(steps, 0, j + 1)
}

/// A walk up to an earlier step is the beginning of a walk up to a later
/// one, and shorter if the step is earlier.
pub proof fn lemma_walk_prefix(steps: Seq<Step>, from: int, j: int, to: int)
    requires
        from <= j <= to,
    ensures
        walk_range(steps, from, j).is_prefix_of(walk_range(steps, from, to)),
        j < to ==> walk_range(steps, from, j).len() < walk_range(steps, from, to).len(),
        walk_range(steps, from, j).len() >= j - from,
    decreases to - j,
{
    if j < to {
        lemma_walk_prefix(steps, from, j, to - 1);
        let a = walk_range(steps, from, j);
        let b = walk_range(steps, from, to - 1);
        let c = walk_range(steps, from, to);
        assert(c == b + walk_items(steps, to - 1));
        assert(a =~= c.subrange(0, a.len() as int)) by {
            assert(a =~= b.subrange(0, a.len() as int));
        }
    } else {
        lemma_walk_len(steps, from, j);
        assert(walk_range(steps, from, j) =~= walk_range(steps, from, to).subrange(
            0,
            walk_range(steps, from, j).len() as int,
        ));
    }
    lemma_walk_len(steps, from, j);
}

/// A walk over some steps holds at least one item for each of them.
pub proof fn lemma_walk_len(steps: Seq<Step>, from: int, j: int)
    requires
        from <= j,
    ensures
        walk_range(steps, from, j).len() >= j - from,
    decreases j - from,
{
    if from < j {
        lemma_walk_len(steps, from, j - 1);
    }
}

/// The text before a later step holds the text before an earlier one.
pub proof fn lemma_text_len_split(steps: Seq<Step>, from: int, mid: int, to: int)
    requires
        from <= mid <= to,
    ensures
        text_len(steps, from, to) == text_len(steps, from, mid) + text_len(steps, mid, to),
    decreases to - mid,
{
    if mid < to {
        lemma_text_len_split(steps, from, mid, to - 1);
    }
}

impl Clone for NodeOrToken {
    fn clone(&self) -> (e: NodeOrToken)
        ensures
            e.ok(),
            self.ok(),
            e.same_tree(self),
            e.index() == self.index(),
    {
        self.raw_clone()
    }
}

impl NodeOrToken {
    /// The kind of the element.
    pub fn kind(&self) -> (kind: SyntaxKind)
        ensures
            self.ok(),
            kind == step_kind(self.step()),
    {
        let _same = self.raw_clone();
        self.raw_kind()
    }

    /// Whether the element is a node, not a token.
    pub fn is_node(&self) -> (b: bool)
        ensures
            self.ok(),
            b == (self.step() is Enter),
    {
        let _same = self.raw_clone();
        self.raw_is_node()
    }

    /// The range of the text of the element in the text of its tree, in
    /// bytes.
    pub fn text_range(&self) -> (r: (u32, u32))
        ensures
            self.ok(),
            r.0 == self.spec_start(),
            r.1 == self.spec_end(),
            r.0 <= r.1,
    {
        let _same = self.raw_clone();
        proof {
            lemma_text_len_split(
                self.tree(),
                0,
                self.index(),
                subtree_end(self.tree(), self.index()) + 1,
            );
        }
        self.raw_text_range()
    }

    /// The text of a token; `None` for a node.
    pub fn token_text(&self) -> (text: Option<String>)
        ensures
            self.ok(),
            match text {
                Some(t) => self.step() == Step::Token(step_kind(self.step()), t@),
                None => self.step() is Enter,
            },
    {
        if self.is_node() {
            None
        } else {
            Some(self.raw_token_text())
        }
    }

    /// The first child of a node; `None` for a token and for a node
    /// without children.
    pub fn first_child_or_token(&self) -> (child: Option<NodeOrToken>)
        ensures
            self.ok(),
            match child {
                Some(c) => c.ok() && c.same_tree(self) && Some(c.index())
                    == self.spec_first_child(),
                None => self.spec_first_child() is None,
            },
    {
        if self.is_node() {
            self.raw_first_child()
        } else {
            None
        }
    }

    /// The element after this one under the same parent, if there is one.
    pub fn next_sibling_or_token(&self) -> (sibling: Option<NodeOrToken>)
        ensures
            self.ok(),
            match sibling {
                Some(s) => s.ok() && s.same_tree(self) && Some(s.index())
                    == self.spec_next_sibling(),
                None => self.spec_next_sibling() is None,
            },
    {
        let _same = self.raw_clone();
        self.raw_next_sibling()
    }

    /// The element before this one under the same parent, if there is one.
    pub fn prev_sibling_or_token(&self) -> (sibling: Option<NodeOrToken>)
        ensures
            self.ok(),
            match sibling {
                Some(s) => s.ok() && s.same_tree(self) && self.spec_has_prev() && self.spec_prev(
                    s.index(),
                ),
                None => !self.spec_has_prev(),
            },
    {
        let _same = self.raw_clone();
        self.raw_prev_sibling()
    }

    /// The node that holds this element; `None` for the root.
    pub fn parent(&self) -> (parent: Option<NodeOrToken>)
        ensures
            self.ok(),
            match parent {
                Some(p) => p.ok() && p.same_tree(self) && p.step() is Enter && self.spec_parent(
                    p.index(),
                ) && p.index() < self.index() && subtree_end(self.tree(), self.index())
                    < subtree_end(self.tree(), p.index()),
                None => self.index() == 0,
            },
    {
        let _same = self.raw_clone();
        let parent = self.raw_parent();
        proof {
            if parent is Some {
                lemma_parent_end(self.tree(), parent->Some_0.index(), self.index());
            }
        }
        parent
    }

    /// The number of children of a node; 0 for a token.
    pub fn child_count(&self) -> (n: usize)
        ensures
            self.ok(),
            n == child_count(self.tree(), self.index()),
    {
        if self.is_node() {
            self.raw_child_count()
        } else {
            0
        }
    }

    /// The element as `cstree` formats it for debugging: its kind and
    /// range, and for a token its text.
    pub fn debug(&self) -> (text: String)
        ensures
            text@ == debug_dump(self.tree(), self.index(), false),
    {
        self.raw_debug(false)
    }

    /// The element and all that is below it as `cstree` formats them for
    /// debugging: one line for each element, indented by its depth.
    pub fn debug_pretty(&self) -> (text: String)
        ensures
            text@ == debug_dump(self.tree(), self.index(), true),
    {
        self.raw_debug(true)
    }

    /// The steps of this element from its first to its last.
    pub open spec fn subtree(&self) -> Seq<Step> {
        self.tree().subrange(self.index(), subtree_end(self.tree(), self.index()) + 1)
    }

    /// The walk of a node: its steps from the first to the last, each start
    /// with the range of its element. A token has no walk.
    pub fn walk(&self) -> (visits: Vec<Visit>)
        ensures
            self.ok(),
            self.step() is Enter ==> visits@.len() == self.subtree().len(),
            self.step() is Enter ==> forall|m: int|
                0 <= m < visits@.len() ==> visit_matches(
                    self.tree(),
                    self.index() + m,
                    #[trigger] visits@[m],
                ),
            !(self.step() is Enter) ==> visits@.len() == 0,
    {
        let mut visits: Vec<Visit> = Vec::new();
        if !self.is_node() {
            return visits;
        }
        let walk = self.raw_walk();
        let ghost steps = self.tree();
        let ghost from = self.index();
        let ghost to = subtree_end(steps, from) + 1;
        let ghost wv = walk_view(walk@);
        let ghost mut j: int = from;
        let mut i: usize = 0;
        while i < walk.len()
            invariant
                i <= walk@.len(),
                wv == walk_view(walk@),
                wv == walk_range(steps, from, to),
                0 <= from <= j <= to <= steps.len(),
                walk_range(steps, from, j).len() == i,
                visits@.len() == j - from,
                forall|m: int|
                    0 <= m < visits@.len() ==> visit_matches(steps, from + m, #[trigger] visits@[m]),
            decreases walk@.len() - i,
        {
            proof {
                lemma_walk_prefix(steps, from, j, to);
                lemma_walk_prefix(steps, from, j + 1, to);
                let a = walk_range(steps, from, j);
                let b = walk_range(steps, from, j + 1);
                assert(b == a + walk_items(steps, j));
                assert(b =~= wv.subrange(0, b.len() as int));
                assert(wv[i as int] == b[i as int]);
                assert(b[i as int] == walk_items(steps, j)[0]);
                if steps[j] is Token {
                    assert(wv[i + 1] == b[i + 1]);
                    assert(b[i + 1] == walk_items(steps, j)[1]);
                }
            }
            let ghost before = visits@;
            match &walk[i] {
                WalkStep::EnterNode(kind, start, end) => {
                    visits.push(
                        Visit { event: TreeEvent::StartNode(*kind), start: *start, end: *end },
                    );
                    i += 1;
                },
                WalkStep::EnterToken(kind, text, start, end) => {
                    visits.push(
                        Visit {
                            event: TreeEvent::Token(*kind, text.clone()),
                            start: *start,
                            end: *end,
                        },
                    );
                    i += 2;
                },
                WalkStep::LeaveNode => {
                    visits.push(Visit { event: TreeEvent::FinishNode, start: 0, end: 0 });
                    i += 1;
                },
                WalkStep::LeaveToken => {
                    assert(false);
                    i += 1;
                },
            }
            proof {
                assert forall|m: int| 0 <= m < visits@.len() implies visit_matches(
                    steps,
                    from + m,
                    #[trigger] visits@[m],
                ) by {
                    if m < before.len() {
                        assert(visits@[m] == before[m]);
                    }
                }
                j = j + 1;
            }
        }
        proof {
            if j < to {
                lemma_walk_prefix(steps, from, j, to);
            }
        }
        visits
    }
}

/// A syntax tree, by its root; or any node of one.
pub type ResolvedNode = NodeOrToken;

/// The text before a position does not depend on later steps.
pub proof fn lemma_text_len_prefix(steps: Seq<Step>, n: int, to: int)
    requires
        0 <= to <= n <= steps.len(),
    ensures
        text_len(steps.subrange(0, n), 0, to) == text_len(steps, 0, to),
    decreases to,
{
    if to > 0 {
        lemma_text_len_prefix(steps, n, to - 1);
    }
}

/// The text of the tokens among steps, in order.
pub open spec fn tokens_text(steps: Seq<Step>) -> Seq<char>
    decreases steps.len(),
{
    if steps.len() == 0 {
        Seq::empty()
    } else {
        tokens_text(steps.drop_last()) + match steps.last() {
            Step::Token(_, text) => text,
            _ => Seq::empty(),
        }
    }
}

/// Builds the tree that events describe, with `cstree`. The events must be
/// those of one node with all that is below it, and hold at most as much
/// text as a 32-bit offset can address; for other events there is no tree.
/// What `cstree` has built is compared with the events, and there is no
/// tree either where the two differ.
pub fn build_tree(events: &Vec<TreeEvent>) -> (root: Option<ResolvedNode>)
    ensures
        root is Some ==> root->Some_0.tree() == steps_of(events@) && root->Some_0.index() == 0
            && root->Some_0.ok(),
        !tree_wf(steps_of(events@)) ==> root is None,
{
    let ghost steps = steps_of(events@);
    let n = events.len();
    if n == 0 {
        return None;
    }
    let mut builder = CstreeBuilder::raw_new();
    match &events[0] {
        TreeEvent::StartNode(kind) => {
            builder.raw_start_node(*kind);
        },
        _ => {
            return None;
        },
    }
    proof {
        let first = steps.subrange(0, 1);
        assert(builder_steps(builder) =~= first);
        assert(first.drop_last() =~= Seq::<Step>::empty());
        assert(first.last() == steps[0]);
        assert(open_count(first.drop_last()) == 0);
        assert(open_count(first) == 1);
        assert(text_len(steps, 0, 0) == 0);
        assert(text_len(steps, 0, 1) == 0);
    }
    let mut open: usize = 1;
    let mut total: u64 = 0;
    let mut i: usize = 1;
    while i < n
        invariant
            1 <= i <= n,
            n == events@.len(),
            steps == steps_of(events@),
            steps[0] is Enter,
            1 <= open <= i,
            builder_steps(builder) == steps.subrange(0, i as int),
            open_count(steps.subrange(0, i as int)) == open,
            scan_end(steps, 0, 0) == scan_end(steps, i as int, open as nat),
            total == text_len(steps, 0, i as int),
            total <= u32::MAX,
        decreases n - i,
    {
        let ghost prefix = steps.subrange(0, i as int);
        let ghost next = steps.subrange(0, i + 1);
        proof {
            assert(next.drop_last() =~= prefix);
            assert(next.last() == steps[i as int]);
            lemma_text_len_prefix(steps, i as int, i as int);
            lemma_text_len_split(steps, 0, i + 1, n as int);
            assert(text_len(steps, 0, i + 1) == text_len(steps, 0, i as int) + step_len(
                steps[i as int],
            ));
            assert(steps_len(prefix) == text_len(steps, 0, i as int));
            assert(steps_len(steps) == text_len(steps, 0, n as int));
        }
        match &events[i] {
            TreeEvent::StartNode(kind) => {
                builder.raw_start_node(*kind);
                open += 1;
            },
            TreeEvent::Token(kind, text) => {
                let len = text.as_str().as_bytes().len();
                assert(len == encode_utf8(text@).len());
                if len > 0xFFFF_FFFF || total + len as u64 > 0xFFFF_FFFF {
                    return None;
                }
                builder.raw_token(*kind, text.as_str());
                total = total + len as u64;
            },
            TreeEvent::FinishNode => {
                if open == 1 {
                    if i + 1 != n {
                        return None;
                    }
                    builder.raw_finish_node();
                    assert(builder_steps(builder) =~= steps);
                    let root = builder.raw_finish();
                    let checked = checked_tree(root, events);
                    proof {
                        if checked is Some {
                            assert(root.tree().subrange(0, root.tree().len() as int)
                                =~= root.tree());
                        }
                    }
                    return checked;
                }
                builder.raw_finish_node();
                open -= 1;
            },
        }
        assert(builder_steps(builder) =~= next);
        i += 1;
    }
    None
}

impl NodeOrToken {
    /// The events that build the node and all that is below it. A token
    /// has none.
    pub fn events(&self) -> (events: Vec<TreeEvent>)
        ensures
            self.ok(),
            self.step() is Enter ==> steps_of(events@) == self.subtree(),
            !(self.step() is Enter) ==> events@.len() == 0,
    {
        let visits = self.walk();
        let mut events: Vec<TreeEvent> = Vec::new();
        let mut i: usize = 0;
        while i < visits.len()
            invariant
                i <= visits@.len(),
                events@.len() == i,
                forall|m: int| 0 <= m < i ==> (#[trigger] events@[m])@ == visits@[m].event@,
            decreases visits@.len() - i,
        {
            events.push(visits[i].event.clone());
            i += 1;
        }
        proof {
            if self.step() is Enter {
                assert(steps_of(events@) =~= self.subtree()) by {
                    assert forall|m: int| 0 <= m < events@.len() implies steps_of(events@)[m]
                        == self.subtree()[m] by {
                        assert(visit_matches(self.tree(), self.index() + m, visits@[m]));
                    }
                }
            }
        }
        events
    }

    /// The text of the element: that of its tokens, in order.
    pub fn text(&self) -> (text: String)
        ensures
            self.ok(),
            text@ == tokens_text(self.subtree()),
    {
        match self.token_text() {
            Some(t) => {
                proof {
                    let sub = self.subtree();
                    assert(sub.len() == 1);
                    assert(sub.drop_last() =~= Seq::<Step>::empty());
                    assert(sub.last() == self.step());
                    assert(tokens_text(sub.drop_last()) =~= Seq::<char>::empty());
                    assert(tokens_text(sub) =~= t@);
                }
                t
            },
            None => {
                let events = self.events();
                let mut text = String::new();
                let mut i: usize = 0;
                assert(steps_of(events@).subrange(0, 0) =~= Seq::<Step>::empty());
                while i < events.len()
                    invariant
                        i <= events@.len(),
                        text@ == tokens_text(steps_of(events@).subrange(0, i as int)),
                    decreases events@.len() - i,
                {
                    let ghost prefix = steps_of(events@).subrange(0, i as int);
                    let ghost next = steps_of(events@).subrange(0, i + 1);
                    assert(next.drop_last() =~= prefix);
                    match &events[i] {
                        TreeEvent::Token(_, t) => {
                            text.append(t.as_str());
                        },
                        _ => {
                            assert(text@ + Seq::<char>::empty() =~= text@);
                        },
                    }
                    i += 1;
                }
                assert(steps_of(events@).subrange(0, events@.len() as int) =~= steps_of(events@));
                text
            },
        }
    }
}

} // verus!
