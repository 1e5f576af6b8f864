//! The two-way mapping between grammar symbols and their dense ids.

use vstd::prelude::*;
use super::bison::{Component, ComponentId, ComponentView};

verus! {

/// The error of looking up a symbol that was never inserted.
#[derive(Debug, Clone, Copy, PartialEq, Eq, Structural)]
pub struct UnknownSymbol;

/// Grammar symbols in the order of their ids: the symbol with id `i` is
/// `components[i]`.
#[derive(Debug)]
pub struct IdMapper {
    pub components: Vec<Component>,
}

impl View for IdMapper {
    type V = Seq<ComponentView>;

    open spec fn view(&self) -> Seq<ComponentView> {
        self.components@.map_values(|c: Component| c@)
    }
}

impl IdMapper {
    /// No symbol has two ids, and every id fits a [`ComponentId`].
    pub open spec fn wf(&self) -> bool {
        &&& self@.no_duplicates()
        &&& self@.len() <= 0x10000
    }

    /// A mapping that holds no symbol.
    pub fn new() -> (m: IdMapper)
        ensures
            m@ == Seq::<ComponentView>::empty(),
            m.wf(),
    {
        IdMapper { components: Vec::new() }
    }

    /// The number of symbols that have an id.
    pub fn len(&self) -> (n: usize)
        ensures
            n == self@.len(),
    {
        self.components.len()
    }

    /// The id of a symbol, or `UnknownSymbol` if it was never inserted.
    pub fn to_component_id(&self, c: &Component) -> (r: Result<ComponentId, UnknownSymbol>)
        requires
            self.wf(),
        ensures
            match r {
                Ok(id) => id < self@.len() && self@[id as int] == c@,
                Err(_) => !self@.contains(c@),
            },
    {
        let mut i: usize = 0;
        while i < self.components.len()
            invariant
                0 <= i <= self.components.len(),
                self@.len() == self.components.len(),
                self@.len() <= 0x10000,
                forall|k: int| 0 <= k < i ==> self@[k] != c@,
            decreases self.components.len() - i,
        {
            if self.components[i].same(c) {
                return Ok(i as u16);
            }
            i += 1;
        }
        Err(UnknownSymbol)
    }

    /// Gives a symbol the next free id, unless it has one already. A new
    /// symbol needs a free id.
    pub fn insert(&mut self, c: Component)
        requires
            old(self).wf(),
            old(self)@.len() < 0x10000 || old(self)@.contains(c@),
        ensures
            final(self).wf(),
            final(self)@ == if old(self)@.contains(c@) {
                old(self)@
            } else {
                old(self)@.push(c@)
            },
    {
        match self.to_component_id(&c) {
            Ok(_) => {},
            Err(_) => {
                proof {
                    assert(self@.push(c@) =~= self.components@.push(c).map_values(
                        |c: Component| c@,
                    ));
                }
                self.components.push(c);
            },
        }
    }
}

} // verus!
