//! An explicit model of the 32-bit memory-mapped register space.
//!
//! A [`RegisterSpace`] stands for the set of 4-byte-aligned 32-bit cells
//! that the register primitives read and write.  Cells that were never
//! written read as zero, the architectural reset value.  Only the cells that
//! have been touched are stored, so a space covering a sparse set of
//! peripheral addresses stays small.
//!
//! On real hardware these cells are volatile and accesses have side effects;
//! that boundary is outside this library.  Everything the primitives claim
//! about a `RegisterSpace` holds of the stored values.
//!
//! A mutation goes through `&mut RegisterSpace`: the exclusive borrow is the
//! capability for configuration access.  The read-modify-write helpers are
//! not atomic, so a register reachable from both the main flow and an
//! interrupt handler needs an external discipline — masking the interrupt
//! source for the duration, or keeping the register single-context — before
//! either side mutates it.

use vstd::prelude::*;

verus! {

/// A sparse store of 32-bit cells keyed by their 4-byte-aligned address.
pub struct RegisterSpace {
    addrs: Vec<u32>,
    vals: Vec<u32>,
}

impl RegisterSpace {
    /// Internal shape: one value per stored address, addresses pairwise
    /// distinct and 4-byte aligned.
    pub closed spec fn wf(&self) -> bool {
        &&& self.addrs@.len() == self.vals@.len()
        &&& forall|i: int, j: int|
            0 <= i < j < self.addrs@.len() ==> self.addrs@[i] != self.addrs@[j]
        &&& forall|i: int| 0 <= i < self.addrs@.len() ==> self.addrs@[i] % 4 == 0
    }

    spec fn spec_has(&self, addr: u32) -> bool {
        exists|i: int| 0 <= i < self.addrs@.len() && self.addrs@[i] == addr
    }

    spec fn spec_index_of(&self, addr: u32) -> int {
        choose|i: int| 0 <= i < self.addrs@.len() && self.addrs@[i] == addr
    }

    /// The value the cell at `addr` holds; a cell never written reads as 0.
    pub closed spec fn spec_read(&self, addr: u32) -> u32 {
        if self.spec_has(addr) {
            self.vals@[self.spec_index_of(addr)]
        } else {
            0u32
        }
    }

    /// A fresh space in the reset state: every cell reads as zero.
    pub fn new() -> (s: Self)
        ensures
            s.wf(),
            forall|a: u32| s.spec_read(a) == 0,
    {
        let s = RegisterSpace { addrs: Vec::new(), vals: Vec::new() };
        proof {
            assert(forall|a: u32| !s.spec_has(a));
        }
        s
    }

    /// Read the 32-bit cell at the 4-byte-aligned address `addr`.
    pub fn read(&self, addr: u32) -> (v: u32)
        requires
            self.wf(),
            addr % 4 == 0,
        ensures
            v == self.spec_read(addr),
    {
        let n = self.addrs.len();
        let mut i: usize = 0;
        while i < n
            invariant
                self.wf(),
                n == self.addrs@.len(),
                i <= n,
                forall|j: int| 0 <= j < i ==> self.addrs@[j] != addr,
            decreases n - i,
        {
            if self.addrs[i] == addr {
                proof {
                    assert(self.spec_has(addr));
                    let w = self.spec_index_of(addr);
                    assert(0 <= w < self.addrs@.len() && self.addrs@[w] == addr);
                    assert(w == i);
                }
                return self.vals[i];
            }
            i = i + 1;
        }
        proof {
            assert(!self.spec_has(addr));
        }
        0
    }

    /// Write `val` into the 32-bit cell at the 4-byte-aligned address
    /// `addr`.  Every other cell keeps its value.
    pub fn write(&mut self, addr: u32, val: u32)
        requires
            old(self).wf(),
            addr % 4 == 0,
        ensures
            final(self).wf(),
            final(self).spec_read(addr) == val,
            forall|a: u32| a != addr ==> final(self).spec_read(a) == old(self).spec_read(a),
    {
        let n = self.addrs.len();
        let mut i: usize = 0;
        while i < n
            invariant
                self.wf(),
                self == old(self),
                n == self.addrs@.len(),
                i <= n,
                forall|j: int| 0 <= j < i ==> self.addrs@[j] != addr,
            decreases n - i,
        {
            if self.addrs[i] == addr {
                self.vals.set(i, val);
                proof {
                    assert(self.addrs@ == old(self).addrs@);
                    assert(self.wf());
                    self.lemma_read_at(i as int);
                    assert forall|a: u32| a != addr implies self.spec_read(a) == old(
                        self,
                    ).spec_read(a) by {
                        assert(self.spec_has(a) == old(self).spec_has(a));
                        if self.spec_has(a) {
                            let w = self.spec_index_of(a);
                            assert(0 <= w < self.addrs@.len() && self.addrs@[w] == a);
                            let w0 = old(self).spec_index_of(a);
                            assert(0 <= w0 < self.addrs@.len() && self.addrs@[w0] == a);
                            assert(w == w0);
                            assert(w != i);
                        }
                    }
                }
                return ;
            }
            i = i + 1;
        }
        self.addrs.push(addr);
        self.vals.push(val);
        proof {
            assert(self.addrs@[self.addrs@.len() - 1] == addr);
            assert(self.wf());
            self.lemma_read_at(self.addrs@.len() - 1);
            assert forall|a: u32| a != addr implies self.spec_read(a) == old(self).spec_read(a) by {
                if self.spec_has(a) {
                    let w = self.spec_index_of(a);
                    assert(0 <= w < self.addrs@.len() && self.addrs@[w] == a);
                    assert(w < old(self).addrs@.len());
                    assert(old(self).addrs@[w] == a);
                    assert(old(self).spec_has(a));
                }
                if old(self).spec_has(a) {
                    let w0 = old(self).spec_index_of(a);
                    assert(0 <= w0 < old(self).addrs@.len() && old(self).addrs@[w0] == a);
                    assert(self.addrs@[w0] == a);
                    assert(self.spec_has(a));
                }
                if self.spec_has(a) {
                    let w = self.spec_index_of(a);
                    let w0 = old(self).spec_index_of(a);
                    assert(0 <= w < self.addrs@.len() && self.addrs@[w] == a);
                    assert(0 <= w0 < old(self).addrs@.len() && old(self).addrs@[w0] == a);
                    assert(self.addrs@[w0] == a);
                    assert(w == w0);
                    assert(self.vals@[w0] == old(self).vals@[w0]);
                }
            }
        }
    }

    /// In a well-formed space, the stored entry at `i` is what
    /// `spec_read` returns for its address.
    proof fn lemma_read_at(&self, i: int)
        requires
            self.wf(),
            0 <= i < self.addrs@.len(),
        ensures
            self.spec_read(self.addrs@[i]) == self.vals@[i],
    {
        let a = self.addrs@[i];
        assert(self.spec_has(a));
        let w = self.spec_index_of(a);
        assert(0 <= w < self.addrs@.len() && self.addrs@[w] == a);
        assert(w == i);
    }
}

} // verus!
