//! Pointer-chain resolution.
//!
//! A chain is a base address and an ordered list of offsets.  An empty list
//! means the base address itself is the final address.  Otherwise every offset
//! except the last is applied to the current address and the result is
//! dereferenced (one pointer-sized read in the target process per hop); the
//! last offset is applied without a further read.
//!
//! The reads happen in another address space, so the walk is a small state
//! machine: `next_action` says whether the final address is reached or one
//! more read is owed, and `feed` consumes the value such a read returned.
//! The unverified front end performs the reads; everything decided from their
//! results is verified here.

use vstd::prelude::*;

verus! {

/// What a pointer-chain walk asks for next.
#[derive(Clone, Copy, PartialEq, Eq, Structural, Debug)]
pub enum ChainAction {
    /// The final address has been computed; no further memory access is owed.
    Finish { address: usize },
    /// A pointer-sized value must be read at this address and fed back.
    ReadAt { address: usize },
}

/// The state of one pointer-chain walk.
pub struct ChainWalk {
    /// The base address the walk started from; never changes.
    pub base: usize,
    /// The offset list of the chain; never changes.
    pub offsets: Vec<usize>,
    /// The current address: the base, or the last value fed back.
    pub cur: usize,
    /// How many offsets have been consumed by reads so far.
    pub idx: usize,
    /// How many read results have been fed back so far.
    pub reads: usize,
}

impl ChainWalk {
    /// Well-formedness: reads and consumed offsets stay in step, the walk
    /// never runs past the next-to-last offset, and before the first read the
    /// current address is still the base.
    pub open spec fn wf(&self) -> bool {
        &&& self.reads == self.idx
        &&& if self.offsets@.len() == 0 {
                self.idx == 0
            } else {
                self.idx < self.offsets@.len()
            }
        &&& (self.idx == 0 ==> self.cur == self.base)
    }

    /// The pending address computation does not overflow the address space.
    pub open spec fn fits(&self) -> bool {
        self.offsets@.len() > 0 ==> self.cur + self.offsets@[self.idx as int] <= usize::MAX
    }

    /// What `next_action` returns in the current state.
    pub open spec fn action_spec(&self) -> ChainAction {
        if self.offsets@.len() == 0 {
            ChainAction::Finish { address: self.base }
        } else if self.idx + 1 < self.offsets@.len() {
            ChainAction::ReadAt { address: (self.cur + self.offsets@[self.idx as int]) as usize }
        } else {
            ChainAction::Finish { address: (self.cur + self.offsets@[self.idx as int]) as usize }
        }
    }

    /// Start a walk at `base` over `offsets`.
    pub fn new(base: usize, offsets: Vec<usize>) -> (w: ChainWalk)
        ensures
            w.wf(),
            w.base == base,
            w.offsets == offsets,
            w.cur == base,
            w.idx == 0,
            w.reads == 0,
    {
        ChainWalk { base, offsets, cur: base, idx: 0, reads: 0 }
    }

    /// Whether the pending address addition fits in the address space; a
    /// caller must check this before asking for the next action.
    pub fn step_fits(&self) -> (b: bool)
        requires
            self.wf(),
        ensures
            b == self.fits(),
    {
        if self.offsets.len() == 0 {
            true
        } else {
            let off = self.offsets[self.idx];
            self.cur <= usize::MAX - off
        }
    }

    /// The next step of the walk: either the final address, or the address of
    /// the one read that is owed before the walk can continue.
    pub fn next_action(&self) -> (r: ChainAction)
        requires
            self.wf(),
            self.fits(),
        ensures
            r == self.action_spec(),
    {
        if self.offsets.len() == 0 {
            ChainAction::Finish { address: self.base }
        } else {
            let address = self.cur + self.offsets[self.idx];
            if self.idx + 1 < self.offsets.len() {
                ChainAction::ReadAt { address }
            } else {
                ChainAction::Finish { address }
            }
        }
    }

    /// Consume the pointer-sized value that the owed read returned: it becomes
    /// the current address, and one more offset and one more read are counted.
    pub fn feed(&mut self, value: usize)
        requires
            old(self).wf(),
            old(self).fits(),
            old(self).action_spec() is ReadAt,
        ensures
            final(self).wf(),
            final(self).base == old(self).base,
            final(self).offsets == old(self).offsets,
            final(self).cur == value,
            final(self).idx == old(self).idx + 1,
            final(self).reads == old(self).reads + 1,
    {
        let n = self.offsets.len();
        proof {
            assert(old(self).idx + 1 < n);
        }
        self.cur = value;
        self.idx = self.idx + 1;
        self.reads = self.reads + 1;
    }
}

/// An empty offset list resolves to the base address itself, with zero reads
/// performed.
pub proof fn lemma_empty_chain_is_base(w: ChainWalk)
    requires
        w.wf(),
        w.offsets@.len() == 0,
    ensures
        w.action_spec() == (ChainAction::Finish { address: w.base }),
        w.reads == 0,
{
}

/// Whenever a walk reports the final address, it has consumed exactly
/// `offsets.len() - 1` reads for a non-empty chain, and zero for an empty one.
pub proof fn lemma_read_count_at_finish(w: ChainWalk)
    requires
        w.wf(),
        w.action_spec() is Finish,
    ensures
        w.reads == if w.offsets@.len() == 0 { 0int } else { w.offsets@.len() - 1 },
{
}

/// While a walk still asks for a read, fewer than `offsets.len() - 1` reads
/// have been performed, so a walk can never ask for more than that many.
pub proof fn lemma_read_count_at_read(w: ChainWalk)
    requires
        w.wf(),
        w.action_spec() is ReadAt,
    ensures
        w.offsets@.len() > 1,
        w.reads < w.offsets@.len() - 1,
{
}

} // verus!
