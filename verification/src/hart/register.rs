//! The register file: 32 general-purpose words, with register 0 hardwired
//! to zero — every write to it is silently discarded.

use vstd::prelude::*;

verus! {

/// The 32 general-purpose registers.
#[derive(Debug, Clone, Copy, PartialEq, Eq)]
pub struct RegisterFile {
    regs: [u32; 32],
}

impl View for RegisterFile {
    type V = Seq<u32>;

    closed spec fn view(&self) -> Seq<u32> {
        self.regs@
    }
}

impl RegisterFile {
    /// Register 0 always holds zero.
    pub open spec fn wf(&self) -> bool {
        self@[0] == 0
    }

    /// A register file with every register zero.
    pub fn new() -> (r: Self)
        ensures
            r.wf(),
            forall|i: int| 0 <= i < 32 ==> r@[i] == 0,
    {
        RegisterFile { regs: [0; 32] }
    }

    /// Write a register. A write to register 0 is discarded, whatever the
    /// value: register 0 reads as zero afterwards as before.
    pub fn write(&mut self, id: u8, data: u32)
        requires
            id < 32,
            old(self).wf(),
        ensures
            final(self).wf(),
            final(self)@ == (if id == 0 { old(self)@ } else {
                old(self)@.update(id as int, data)
            }),
            final(self)@[0] == 0,
    {
        if id == 0 {
            return;
        }
        self.regs[id as usize] = data;
    }

    /// Read a register.
    pub fn read(&self, id: u8) -> (r: u32)
        requires
            id < 32,
        ensures
            r == self@[id as int],
    {
        self.regs[id as usize]
    }

    /// Zero every register.
    pub fn reset(&mut self)
        ensures
            final(self).wf(),
            forall|i: int| 0 <= i < 32 ==> final(self)@[i] == 0,
    {
        self.regs = [0; 32];
    }

    /// Walk the registers in order.
    pub fn iter(&self) -> (r: IteratorRegisterFile<'_>)
        ensures
            r.id == 0,
            r.regs@ == self@,
    {
        IteratorRegisterFile { id: 0, regs: self }
    }

    /// A snapshot of all 32 registers.
    pub fn inspect(&self) -> (r: [u32; 32])
        ensures
            r@ == self@,
    {
        self.regs
    }
}

impl Default for RegisterFile {
    /// The reset state: every register zero.
    fn default() -> (r: Self)
        ensures
            r.wf(),
            forall|i: int| 0 <= i < 32 ==> r@[i] == 0,
    {
        Self::new()
    }
}

/// A cursor over the register file, yielding registers in index order.
pub struct IteratorRegisterFile<'a> {
    pub id: u8,
    pub regs: &'a RegisterFile,
}

impl<'a> IteratorRegisterFile<'a> {
    /// The next register value, or `None` past the last one.
    pub fn next(&mut self) -> (r: Option<u32>)
        ensures
            old(self).id < 32 ==> r == Some(old(self).regs@[old(self).id as int])
                && final(self).id == old(self).id + 1,
            old(self).id >= 32 ==> r is None && final(self).id == old(self).id,
            final(self).regs@ == old(self).regs@,
    {
        if self.id < 32 {
            let next = Some(self.regs.read(self.id));
            self.id = self.id + 1;
            next
        } else {
            None
        }
    }
}

} // verus!
