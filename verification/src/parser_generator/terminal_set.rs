//! Sets of terminal ids over a fixed universe `0..n`, as the lookahead and
//! FIRST sets of the table generator need them.

use vstd::prelude::*;
use super::bison::ComponentId;

verus! {

/// A set of terminal ids below a fixed bound. Its view has one flag for
/// each id of the universe, in ascending order of ids.
#[derive(Debug)]
pub struct TerminalSet {
    bits: Vec<bool>,
}

/// How many flags of `s` are set.
pub open spec fn count(s: Seq<bool>) -> nat
    decreases s.len(),
{
    if s.len() == 0 {
        0
    } else {
        count(s.drop_last()) + if s.last() {
            1nat
        } else {
            0nat
        }
    }
}

/// Whether every member of `a` is a member of `b`.
pub open spec fn subset(a: Seq<bool>, b: Seq<bool>) -> bool {
    &&& a.len() == b.len()
    &&& forall|t: int| 0 <= t < a.len() && a[t] ==> b[t]
}

/// The union of two sets over one universe.
pub open spec fn union(a: Seq<bool>, b: Seq<bool>) -> Seq<bool>
    recommends
        a.len() == b.len(),
{
    Seq::new(a.len(), |t: int| a[t] || b[t])
}

/// The empty set over a universe of `n` ids.
pub open spec fn empty(n: nat) -> Seq<bool> {
    Seq::new(n, |t: int| false)
}

/// A set over `n` terminals holds at most `n`.
pub proof fn lemma_count_bound(s: Seq<bool>)
    ensures
        count(s) <= s.len(),
    decreases s.len(),
{
    if s.len() > 0 {
        lemma_count_bound(s.drop_last());
    }
}

/// A set that lies within another has at most as many members, and as many
/// only if the two are equal.
pub proof fn lemma_count_subset(a: Seq<bool>, b: Seq<bool>)
    requires
        subset(a, b),
    ensures
        count(a) <= count(b),
        count(a) == count(b) ==> a == b,
    decreases a.len(),
{
    if a.len() > 0 {
        lemma_count_subset(a.drop_last(), b.drop_last());
        if count(a) == count(b) {
            assert(a.drop_last() == b.drop_last());
            assert(a =~= a.drop_last().push(a.last()));
            assert(b =~= b.drop_last().push(b.last()));
        }
    } else {
        assert(a =~= b);
    }
}

/// The empty set holds no terminal.
pub proof fn lemma_count_empty(n: nat)
    ensures
        count(empty(n)) == 0,
    decreases n,
{
    if n > 0 {
        assert(empty(n).drop_last() =~= empty((n - 1) as nat));
        lemma_count_empty((n - 1) as nat);
    }
}

impl View for TerminalSet {
    type V = Seq<bool>;

    closed spec fn view(&self) -> Seq<bool> {
        self.bits@
    }
}

impl Clone for TerminalSet {
    fn clone(&self) -> (s: TerminalSet)
        ensures
            s@ == self@,
    {
        TerminalSet { bits: self.bits.clone() }
    }
}

impl TerminalSet {
    /// The empty set over the ids `0..n`.
    pub fn new(n: usize) -> (s: TerminalSet)
        ensures
            s@ == empty(n as nat),
    {
        let mut bits: Vec<bool> = Vec::new();
        let mut i: usize = 0;
        while i < n
            invariant
                i <= n,
                bits@ == empty(i as nat),
            decreases n - i,
        {
            bits.push(false);
            i += 1;
            assert(bits@ =~= empty(i as nat));
        }
        TerminalSet { bits }
    }

    /// The size of the universe.
    pub fn universe(&self) -> (n: usize)
        ensures
            n == self@.len(),
    {
        self.bits.len()
    }

    /// Whether the set holds a terminal.
    pub fn contains(&self, t: ComponentId) -> (b: bool)
        ensures
            b == (t < self@.len() && self@[t as int]),
    {
        (t as usize) < self.bits.len() && self.bits[t as usize]
    }

    /// Adds `t`; returns whether it was new.
    pub fn insert(&mut self, t: ComponentId) -> (added: bool)
        requires
            t < old(self)@.len(),
        ensures
            final(self)@ == old(self)@.update(t as int, true),
            added == !old(self)@[t as int],
    {
        let added = !self.bits[t as usize];
        self.bits.set(t as usize, true);
        added
    }

    /// Adds every member of `other`; returns whether the set grew.
    pub fn insert_all(&mut self, other: &TerminalSet) -> (grew: bool)
        requires
            old(self)@.len() == other@.len(),
        ensures
            final(self)@ == union(old(self)@, other@),
            grew == (final(self)@ != old(self)@),
            grew == !subset(other@, old(self)@),
    {
        let mut grew = false;
        let mut i: usize = 0;
        let n = self.bits.len();
        let ghost before = self.bits@;
        while i < n
            invariant
                i <= n,
                n == self.bits@.len(),
                n == other.bits@.len(),
                n == before.len(),
                forall|t: int| 0 <= t < i ==> #[trigger] self.bits@[t] == (before[t] || other.bits@[t]),
                forall|t: int| i <= t < n ==> #[trigger] self.bits@[t] == before[t],
                grew == exists|t: int| 0 <= t < i && other.bits@[t] && !before[t],
            decreases n - i,
        {
            let ghost prev = self.bits@;
            if other.bits[i] && !self.bits[i] {
                self.bits.set(i, true);
                grew = true;
                assert(other.bits@[i as int] && !before[i as int]);
            }
            assert(forall|t: int| 0 <= t < n && t != i ==> #[trigger] self.bits@[t] == prev[t]);
            assert(self.bits@[i as int] == (before[i as int] || other.bits@[i as int]));
            i += 1;
        }
        proof {
            assert(self.bits@ =~= union(before, other@));
            if grew {
                let t = choose|t: int| 0 <= t < n && other.bits@[t] && !before[t];
                assert(self.bits@[t] != before[t]);
            } else {
                assert(self.bits@ =~= before);
            }
        }
        grew
    }

    /// Whether two sets are equal: over as many terminals, and holding the
    /// same ones.
    pub fn equals(&self, other: &TerminalSet) -> (b: bool)
        ensures
            b == (self@ == other@),
    {
        if self.bits.len() != other.bits.len() {
            return false;
        }
        let mut i: usize = 0;
        while i < self.bits.len()
            invariant
                i <= self.bits.len(),
                self.bits.len() == other.bits.len(),
                forall|t: int| 0 <= t < i ==> self.bits@[t] == other.bits@[t],
            decreases self.bits.len() - i,
        {
            if self.bits[i] != other.bits[i] {
                return false;
            }
            i += 1;
        }
        assert(self.bits@ =~= other.bits@);
        true
    }
}

} // verus!
