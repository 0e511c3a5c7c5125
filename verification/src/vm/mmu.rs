//! The memory unit: a fixed array of words behind a bounds check.

use vstd::prelude::*;
use crate::vm::fault::Fault;

verus! {

/// What a memory unit holds: its cells, and the address and the value of the
/// last access.
pub struct MemoryModel {
    pub cells: Seq<u32>,
    pub mar: u32,
    pub mbr: u32,
}

impl MemoryModel {
    /// The address names a cell.
    pub open spec fn in_bounds(self, addr: int) -> bool {
        0 <= addr < self.cells.len()
    }

    /// What a read at `addr` returns, and the unit after it: in bounds the
    /// cell's value, with the access recorded; out of bounds a memory fault,
    /// with nothing recorded.
    pub open spec fn read(self, addr: int) -> (Result<u32, Fault>, MemoryModel) {
        if self.in_bounds(addr) {
            (
                Ok(self.cells[addr]),
                MemoryModel { cells: self.cells, mar: addr as u32, mbr: self.cells[addr] },
            )
        } else {
            (Err(Fault::MemoryFault(addr as usize)), self)
        }
    }

    /// What a write of `value` at `addr` returns, and the unit after it: in
    /// bounds the cell is replaced and the access recorded; out of bounds a
    /// memory fault, with nothing changed.
    pub open spec fn write(self, addr: int, value: u32) -> (Result<(), Fault>, MemoryModel) {
        if self.in_bounds(addr) {
            (
                Ok(()),
                MemoryModel { cells: self.cells.update(addr, value), mar: addr as u32, mbr: value },
            )
        } else {
            (Err(Fault::MemoryFault(addr as usize)), self)
        }
    }

    /// The unit with the cells from `start` on replaced by `words`, which
    /// must fit; the side registers stay.
    pub open spec fn with_block(self, start: int, words: Seq<u32>) -> MemoryModel
        recommends
            0 <= start,
            start + words.len() <= self.cells.len(),
    {
        MemoryModel {
            cells: Seq::new(
                self.cells.len(),
                |i: int|
                    if start <= i < start + words.len() {
                        words[i - start]
                    } else {
                        self.cells[i]
                    },
            ),
            mar: self.mar,
            mbr: self.mbr,
        }
    }
}

/// A write, then a read of the same address in bounds, gives the value
/// written; a read of any other address gives what it gave before the write.
pub proof fn lemma_read_after_write(memory: MemoryModel, addr: int, value: u32, other: int)
    requires
        memory.in_bounds(addr),
    ensures
        memory.write(addr, value).0 is Ok,
        memory.write(addr, value).1.read(addr).0 == Ok::<u32, Fault>(value),
        other != addr ==> memory.write(addr, value).1.read(other).0 == memory.read(other).0,
{
}

/// Outside the bounds a read and a write both fail with a memory fault and
/// leave the unit as it was; a read never changes a cell, and neither access
/// changes the number of cells.
pub proof fn lemma_access_bounds(memory: MemoryModel, addr: int, value: u32)
    ensures
        !memory.in_bounds(addr) ==> memory.read(addr) == (
            Err::<u32, Fault>(Fault::MemoryFault(addr as usize)),
            memory,
        ),
        !memory.in_bounds(addr) ==> memory.write(addr, value) == (
            Err::<(), Fault>(Fault::MemoryFault(addr as usize)),
            memory,
        ),
        memory.read(addr).1.cells == memory.cells,
        memory.write(addr, value).1.cells.len() == memory.cells.len(),
{
}

/// The memory unit. Its size is fixed when it is made.
#[derive(Debug)]
pub struct MMU {
    mar: u32,
    mbr: u32,
    backing: Vec<u32>,
}

impl View for MMU {
    type V = MemoryModel;

    closed spec fn view(&self) -> MemoryModel {
        MemoryModel { cells: self.backing@, mar: self.mar, mbr: self.mbr }
    }
}

impl MMU {
    /// The unit's invariant: every address fits a word.
    pub open spec fn wf(&self) -> bool {
        self@.cells.len() <= u32::MAX
    }

    /// A unit of `size` cells, all zero.
    pub fn new(size: usize) -> (unit: MMU)
        requires
            size <= u32::MAX,
        ensures
            unit.wf(),
            unit@ == (MemoryModel { cells: Seq::new(size as nat, |i: int| 0u32), mar: 0, mbr: 0 }),
    {
        let backing = vec![0u32; size];
        assert(backing@ =~= Seq::new(size as nat, |i: int| 0u32));
        MMU { backing, mar: 0, mbr: 0 }
    }

    /// The number of cells.
    pub fn limit(&self) -> (size: u32)
        requires
            self.wf(),
        ensures
            size == self@.cells.len(),
    {
        self.backing.len() as u32
    }

    /// Address of the last access.
    pub fn mar(&self) -> (addr: u32)
        ensures
            addr == self@.mar,
    {
        self.mar
    }

    /// Value read or written by the last access.
    pub fn mbr(&self) -> (value: u32)
        ensures
            value == self@.mbr,
    {
        self.mbr
    }

    /// Reads the cell at `addr` and records the access. Fails with
    /// `MemoryFault`, and records nothing, when `addr` is not below the size.
    pub fn read(&mut self, addr: usize) -> (value: Result<u32, Fault>)
        requires
            old(self).wf(),
        ensures
            final(self).wf(),
            (value, final(self)@) == old(self)@.read(addr as int),
    {
        if addr < self.backing.len() {
            self.mar = addr as u32;
            self.mbr = self.backing[addr];
            Ok(self.mbr)
        } else {
            Err(Fault::MemoryFault(addr))
        }
    }

    /// Replaces the cell at `addr` and records the access. Fails with
    /// `MemoryFault`, and changes nothing, when `addr` is not below the size.
    pub fn write(&mut self, addr: usize, value: u32) -> (done: Result<(), Fault>)
        requires
            old(self).wf(),
        ensures
            final(self).wf(),
            (done, final(self)@) == old(self)@.write(addr as int, value),
    {
        if addr < self.backing.len() {
            self.mar = addr as u32;
            self.mbr = value;
            self.backing.set(addr, value);
            Ok(())
        } else {
            Err(Fault::MemoryFault(addr))
        }
    }

    /// The word at `addr`, if there is one, with nothing recorded.
    pub fn peek(&self, addr: usize) -> (value: Option<u32>)
        ensures
            value == if self@.in_bounds(addr as int) {
                Some(self@.cells[addr as int])
            } else {
                None
            },
    {
        if addr < self.backing.len() {
            Some(self.backing[addr])
        } else {
            None
        }
    }

    /// Copies `words` into the cells from `start` on, past the side
    /// registers. Changes nothing and returns `false` when they do not fit.
    pub fn load(&mut self, start: usize, words: &[u32]) -> (fits: bool)
        requires
            old(self).wf(),
        ensures
            final(self).wf(),
            fits == (start + words@.len() <= old(self)@.cells.len()),
            fits ==> final(self)@ == old(self)@.with_block(start as int, words@),
            !fits ==> final(self)@ == old(self)@,
    {
        let size: usize = self.backing.len();
        if start > size || words.len() > size - start {
            return false;
        }
        let mut i: usize = 0;
        while i < words.len()
            invariant
                i <= words@.len(),
                start + words@.len() <= size,
                self.mar == old(self).mar,
                self.mbr == old(self).mbr,
                self.backing@.len() == size,
                forall|k: int|
                    0 <= k < size ==> #[trigger] self.backing@[k] == if start <= k < start + i {
                        words@[k - start]
                    } else {
                        old(self).backing@[k]
                    },
            decreases words@.len() - i,
        {
            self.backing.set(start + i, words[i]);
            i += 1;
        }
        assert(self@.cells =~= old(self)@.with_block(start as int, words@).cells);
        true
    }

    /// The cells, in address order.
    pub fn as_slice(&self) -> (cells: &[u32])
        ensures
            cells@ == self@.cells,
    {
        self.backing.as_slice()
    }
}

} // verus!
