//! The size-bounded entropy source that construction consumes.
//!
//! The testing runtime owns randomness; the library receives it as data: a
//! configured size budget and a finite stream of raw draws, recorded in the
//! order the runtime produced them. Two sources with equal budgets and equal
//! streams are identically seeded, so construction from them is reproducible.

use vstd::prelude::*;

verus! {

/// A caller-supplied generator: a size budget bounding leaf magnitudes and
/// selectable variant counts, and the remaining stream of raw draws.
pub struct Gen {
    size: usize,
    draws: Vec<u64>,
    pos: usize,
}

impl Gen {
    /// The consumed prefix of the stream never runs past its end.
    #[verifier::type_invariant]
    spec fn inv(&self) -> bool {
        self.pos <= self.draws@.len()
    }

    /// The configured size budget.
    pub closed spec fn spec_size(&self) -> nat {
        self.size as nat
    }

    /// The draws not yet consumed, in the order they will be handed out.
    pub closed spec fn stream(&self) -> Seq<u64> {
        self.draws@.skip(self.pos as int)
    }

    /// A source seeded with an explicit draw stream.
    pub fn new(size: usize, draws: Vec<u64>) -> (g: Gen)
        ensures
            g.spec_size() == size as nat,
            g.stream() =~= draws@,
    {
        let g = Gen { size, draws, pos: 0 };
        proof {
            assert(g.stream() =~= g.draws@);
        }
        g
    }

    /// The configured size budget.
    pub fn size(&self) -> (s: usize)
        ensures
            s as nat == self.spec_size(),
    {
        self.size
    }

    /// How many draws are still available.
    pub fn remaining(&self) -> (n: usize)
        ensures
            n as nat == self.stream().len(),
    {
        proof {
            use_type_invariant(&*self);
        }
        self.draws.len() - self.pos
    }

    /// Consume and return the next raw draw.
    pub fn next_draw(&mut self) -> (d: u64)
        requires
            old(self).stream().len() > 0,
        ensures
            d == old(self).stream()[0],
            final(self).stream() =~= old(self).stream().skip(1),
            final(self).spec_size() == old(self).spec_size(),
    {
        proof {
            use_type_invariant(&*self);
            assert(self.stream().len() == self.draws@.len() - self.pos);
        }
        let n = self.draws.len();
        let d = self.draws[self.pos];
        self.pos = self.pos + 1;
        proof {
            assert(self.pos <= n);
        }
        d
    }

    /// Draw one index uniformly shaped into `[0, n)`: the next raw draw
    /// reduced modulo `n`. Consumes exactly one draw.
    pub fn gen_range(&mut self, n: usize) -> (i: usize)
        requires
            n > 0,
            old(self).stream().len() > 0,
        ensures
            i < n,
            i as nat == old(self).stream()[0] as nat % n as nat,
            final(self).stream() =~= old(self).stream().skip(1),
            final(self).spec_size() == old(self).spec_size(),
    {
        let d = self.next_draw();
        (d % (n as u64)) as usize
    }
}

} // verus!
