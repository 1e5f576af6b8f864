//! The cores of item sets: which cores the closure of a kernel holds, and
//! that a kernel decides them.

use vstd::prelude::*;
use super::item_sets::cores_distinct;
use super::lalr::{core_eq, Item, Lalr};

verus! {

/// An item without its lookahead: a rule and a dot position.
pub type Core = (int, int);

/// The core of an item.
pub open spec fn core_of(item: Item) -> Core {
    (item.rule_index as int, item.dot_pos as int)
}

/// The cores of the items of a list, in order.
pub open spec fn cores_of(items: Seq<Item>) -> Seq<Core> {
    items.map_values(|it: Item| core_of(it))
}

/// Whether a core comes before another: by rule, then by dot position.
pub open spec fn core_lt(a: Core, b: Core) -> bool {
    a.0 < b.0 || (a.0 == b.0 && a.1 < b.1)
}

/// Whether cores are in ascending order, none twice.
pub open spec fn sorted_cores(cores: Seq<Core>) -> bool {
    forall|a: int, b: int| 0 <= a < b < cores.len() ==> core_lt(#[trigger] cores[a], #[trigger] cores[b])
}

/// Items with different cores have cores that the list holds once.
pub proof fn lemma_cores_distinct(items: Seq<Item>)
    requires
        cores_distinct(items),
    ensures
        cores_of(items).no_duplicates(),
{
    assert forall|a: int, b: int|
        0 <= a < cores_of(items).len() && 0 <= b < cores_of(items).len() && a != b implies cores_of(
        items,
    )[a] != cores_of(items)[b] by {
        if a < b {
            assert(!core_eq(items[a], items[b]));
        } else {
            assert(!core_eq(items[b], items[a]));
        }
    }
}

/// Two lists of cores in ascending order that hold the same cores are the
/// same list.
pub proof fn lemma_sorted_same(a: Seq<Core>, b: Seq<Core>)
    requires
        sorted_cores(a),
        sorted_cores(b),
        a.len() == b.len(),
        forall|i: int| 0 <= i < a.len() ==> b.contains(#[trigger] a[i]),
        forall|i: int| 0 <= i < b.len() ==> a.contains(#[trigger] b[i]),
    ensures
        a == b,
    decreases a.len(),
{
    if a.len() > 0 {
        let n = a.len() - 1;
        // the last core of each is the greatest of both
        let ia = choose|i: int| 0 <= i < b.len() && b[i] == a[n];
        let ib = choose|i: int| 0 <= i < a.len() && a[i] == b[n];
        assert(b.contains(a[n]));
        assert(a.contains(b[n]));
        if ia < n {
            assert(core_lt(b[ia], b[n]));
        }
        if ib < n {
            assert(core_lt(a[ib], a[n]));
        }
        assert(a[n] == b[n]);
        let ra = a.drop_last();
        let rb = b.drop_last();
        assert forall|i: int| 0 <= i < ra.len() implies rb.contains(#[trigger] ra[i]) by {
            assert(b.contains(a[i]));
            let k = choose|k: int| 0 <= k < b.len() && b[k] == a[i];
            assert(core_lt(a[i], a[n]));
            assert(k != n);
            assert(rb[k] == ra[i]);
        }
        assert forall|i: int| 0 <= i < rb.len() implies ra.contains(#[trigger] rb[i]) by {
            assert(a.contains(b[i]));
            let k = choose|k: int| 0 <= k < a.len() && a[k] == b[i];
            assert(core_lt(b[i], b[n]));
            assert(k != n);
            assert(ra[k] == rb[i]);
        }
        assert(sorted_cores(ra)) by {
            assert forall|x: int, y: int| 0 <= x < y < ra.len() implies core_lt(
                #[trigger] ra[x],
                #[trigger] ra[y],
            ) by {
                assert(core_lt(a[x], a[y]));
            }
        }
        assert(sorted_cores(rb)) by {
            assert forall|x: int, y: int| 0 <= x < y < rb.len() implies core_lt(
                #[trigger] rb[x],
                #[trigger] rb[y],
            ) by {
                assert(core_lt(b[x], b[y]));
            }
        }
        lemma_sorted_same(ra, rb);
        assert(a =~= ra.push(a[n]));
        assert(b =~= rb.push(b[n]));
    } else {
        assert(a =~= b);
    }
}

impl Lalr {
    /// The symbol after the dot of a core, if the dot is not at the end.
    pub open spec fn core_next(&self, c: Core) -> Option<int> {
        let comps = self.rules@[c.0].components@;
        if 0 <= c.0 < self.rules@.len() && 0 <= c.1 < comps.len() {
            Some(comps[c.1] as int)
        } else {
            None
        }
    }

    /// Whether `r` is one of the rules that symbol `b` knows as its own.
    pub open spec fn rule_of(&self, b: int, r: int) -> bool {
        0 <= b < self.rule_indices_by_name_id@.len() && exists|k: int|
            0 <= k < self.rule_indices_by_name_id@[b]@.len() && (
            #[trigger] self.rule_indices_by_name_id@[b]@[k]) == r
    }

    /// Whether a rule of symbol `b` begins with symbol `c`.
    pub open spec fn begins(&self, b: int, c: int) -> bool {
        exists|r: int| #[trigger] self.rule_of(b, r) && self.core_next((r, 0)) == Some(c)
    }

    /// Whether `chain` leads from the dot of a core of `kernel` on: its
    /// first symbol stands after such a dot, and each further symbol
    /// begins a rule of the symbol before it.
    pub open spec fn exposed_by(&self, kernel: Seq<Core>, chain: Seq<int>) -> bool {
        &&& chain.len() >= 1
        &&& exists|p: int|
            0 <= p < kernel.len() && self.core_next(#[trigger] kernel[p]) == Some(chain[0])
        &&& forall|i: int|
            0 <= i < chain.len() - 1 ==> self.begins(#[trigger] chain[i], chain[i + 1])
    }

    /// Whether the closure of `kernel` expands symbol `b`: a chain leads
    /// from the dot of a core of `kernel` to it.
    pub open spec fn exposed(&self, kernel: Seq<Core>, b: int) -> bool {
        exists|chain: Seq<int>| #[trigger] self.exposed_by(kernel, chain) && chain.last() == b
    }

    /// Whether the closure of `kernel` adds core `c`: it starts a rule of a
    /// symbol that the closure expands.
    pub open spec fn added_core(&self, kernel: Seq<Core>, c: Core) -> bool {
        c.1 == 0 && exists|b: int| #[trigger] self.exposed(kernel, b) && self.rule_of(b, c.0)
    }

    /// Whether `cores` are the cores of the closure of `kernel`: those of
    /// `kernel` and those that the closure adds, each once; in the order
    /// of `kernel` if none is added, in ascending order if not.
    pub open spec fn closure_cores(&self, kernel: Seq<Core>, cores: Seq<Core>) -> bool {
        &&& cores.no_duplicates()
        &&& forall|p: int| 0 <= p < kernel.len() ==> cores.contains(#[trigger] kernel[p])
        &&& forall|q: int|
            0 <= q < cores.len() ==> kernel.contains(#[trigger] cores[q]) || self.added_core(
                kernel,
                cores[q],
            )
        &&& forall|c: Core| #[trigger] self.added_core(kernel, c) ==> cores.contains(c)
        &&& if cores.len() == kernel.len() {
            cores == kernel
        } else {
            sorted_cores(cores)
        }
    }

    /// A kernel decides the cores of its closure.
    pub proof fn lemma_closure_cores_same(&self, kernel: Seq<Core>, a: Seq<Core>, b: Seq<Core>)
        requires
            self.closure_cores(kernel, a),
            self.closure_cores(kernel, b),
        ensures
            a == b,
    {
        assert forall|i: int| 0 <= i < a.len() implies b.contains(#[trigger] a[i]) by {
            if kernel.contains(a[i]) {
                let p = choose|p: int| 0 <= p < kernel.len() && kernel[p] == a[i];
                assert(b.contains(kernel[p]));
            }
        }
        assert forall|i: int| 0 <= i < b.len() implies a.contains(#[trigger] b[i]) by {
            if kernel.contains(b[i]) {
                let p = choose|p: int| 0 <= p < kernel.len() && kernel[p] == b[i];
                assert(a.contains(kernel[p]));
            }
        }
        a.unique_seq_to_set();
        b.unique_seq_to_set();
        assert(a.to_set() =~= b.to_set()) by {
            assert forall|c: Core| a.to_set().contains(c) <==> b.to_set().contains(c) by {
                if a.contains(c) {
                    let i = choose|i: int| 0 <= i < a.len() && a[i] == c;
                    assert(b.contains(a[i]));
                }
                if b.contains(c) {
                    let i = choose|i: int| 0 <= i < b.len() && b[i] == c;
                    assert(a.contains(b[i]));
                }
            }
        }
        if a.len() != kernel.len() {
            lemma_sorted_same(a, b);
        }
    }

    /// A chain that leads to a symbol leads on to each symbol that begins
    /// a rule of it.
    pub proof fn lemma_exposed_step(&self, kernel: Seq<Core>, b: int, c: int)
        requires
            self.exposed(kernel, b),
            self.begins(b, c),
        ensures
            self.exposed(kernel, c),
    {
        let chain = choose|chain: Seq<int>| #[trigger]
            self.exposed_by(kernel, chain) && chain.last() == b;
        let longer = chain.push(c);
        assert forall|i: int| 0 <= i < longer.len() - 1 implies self.begins(
            #[trigger] longer[i],
            longer[i + 1],
        ) by {
            if i < chain.len() - 1 {
                assert(self.begins(chain[i], chain[i + 1]));
            }
        }
        assert(longer[0] == chain[0]);
        assert(self.exposed_by(kernel, longer));
        assert(longer.last() == c);
    }

    /// The cores among the first `n` of a list that have the dot before
    /// symbol `x`, each with the dot moved over it, in order.
    pub open spec fn group_cores(&self, cores: Seq<Core>, x: int, n: int) -> Seq<Core>
        decreases n,
    {
        if n <= 0 {
            Seq::empty()
        } else if self.core_next(cores[n - 1]) == Some(x) {
            self.group_cores(cores, x, n - 1).push((cores[n - 1].0, cores[n - 1].1 + 1))
        } else {
            self.group_cores(cores, x, n - 1)
        }
    }

    /// Lists with the same cores have the same cores with the dot before
    /// a symbol.
    pub proof fn lemma_group_cores_same(&self, a: Seq<Core>, b: Seq<Core>, x: int, n: int)
        requires
            0 <= n <= a.len(),
            n <= b.len(),
            forall|i: int| 0 <= i < n ==> #[trigger] a[i] == b[i],
        ensures
            self.group_cores(a, x, n) == self.group_cores(b, x, n),
        decreases n,
    {
        if n > 0 {
            self.lemma_group_cores_same(a, b, x, n - 1);
            assert(a[n - 1] == b[n - 1]);
        }
    }

    /// The symbol after the dot of a core of the kernel is one that the
    /// closure expands.
    pub proof fn lemma_exposed_first(&self, kernel: Seq<Core>, p: int, b: int)
        requires
            0 <= p < kernel.len(),
            self.core_next(kernel[p]) == Some(b),
        ensures
            self.exposed(kernel, b),
    {
        let chain = seq![b];
        assert(self.exposed_by(kernel, chain));
        assert(chain.last() == b);
    }
}

} // verus!
