//! The RAM device: a contiguous little-endian byte array behind the bus's
//! RAM window.

use vstd::prelude::*;
use crate::exception::Exception;
use crate::device::Device;
use crate::hart::access::Access;

verus! {

/// The page size the translator and the debug surface assume.
pub const PAGE_SIZE: usize = 4096;

/// A contiguous byte-addressed RAM of a fixed size.
#[derive(Debug, Clone, PartialEq, Eq)]
pub struct Memory {
    size: usize,
    space: Vec<u8>,
}

impl View for Memory {
    type V = Seq<u8>;

    closed spec fn view(&self) -> Seq<u8> {
        self.space@
    }
}

impl Memory {
    /// The byte array always spans exactly the declared size.
    pub open spec fn wf(&self) -> bool {
        self@.len() == self.spec_size()
    }

    /// The declared size in bytes.
    pub closed spec fn spec_size(&self) -> usize {
        self.size
    }

    /// A zero-filled RAM of `size` bytes.
    pub fn new(size: usize) -> (r: Self)
        ensures
            r.wf(),
            r.spec_size() == size,
            forall|i: int| 0 <= i < size ==> r@[i] == 0,
    {
        let mut space: Vec<u8> = Vec::new();
        let mut i: usize = 0;
        while i < size
            invariant
                i <= size,
                space@.len() == i,
                forall|j: int| 0 <= j < i ==> space@[j] == 0,
            decreases size - i,
        {
            space.push(0);
            i = i + 1;
        }
        Memory { size, space }
    }

    /// The size in bytes.
    pub fn size(&self) -> (r: usize)
        ensures
            r == self.spec_size(),
    {
        self.size
    }

    /// Read one byte.
    pub fn fetch_byte(&self, offset: u32) -> (r: u8)
        requires
            self.wf(),
            offset < self.spec_size(),
        ensures
            r == self@[offset as int],
    {
        self.space[offset as usize]
    }

    /// Write one byte.
    pub fn put_byte(&mut self, offset: u32, data: u8)
        requires
            old(self).wf(),
            offset < old(self).spec_size(),
        ensures
            final(self).wf(),
            final(self).spec_size() == old(self).spec_size(),
            final(self)@ == old(self)@.update(offset as int, data),
    {
        self.space[offset as usize] = data;
    }

    /// Zero-fill the whole RAM.
    pub fn reset(&mut self)
        requires
            old(self).wf(),
        ensures
            final(self).wf(),
            final(self).spec_size() == old(self).spec_size(),
            forall|i: int| 0 <= i < final(self)@.len() ==> final(self)@[i] == 0,
    {
        let n = self.space.len();
        let mut i: usize = 0;
        while i < n
            invariant
                i <= n,
                self.space@.len() == n,
                self.size == old(self).size,
                n == self.size,
                forall|j: int| 0 <= j < i ==> self.space@[j] == 0,
            decreases n - i,
        {
            self.space[i] = 0;
            i = i + 1;
        }
    }
}

impl Device for Memory {
    fn read_byte(&self, access: Access) -> Result<u8, Exception> {
        if (access.addr as usize) < self.space.len() {
            Ok(self.space[access.addr as usize])
        } else {
            Err(access.to_access_exception())
        }
    }

    fn write_byte(&mut self, access: Access, data: u8) -> Result<(), Exception> {
        if (access.addr as usize) < self.space.len() {
            self.space[access.addr as usize] = data;
            Ok(())
        } else {
            Err(access.to_access_exception())
        }
    }
}

} // verus!
