//! A host-addressable window of the target machine's byte-addressed memory.
//!
//! The target platform is a fixed 32-bit architecture, so every address is a
//! `u32` regardless of the width of the machine the code is built on. A
//! `Region` models a caller-chosen span of that address space: the writer in
//! [`crate::kernel_vec`] pokes bytes into it, and later boot phases read the
//! same span back byte by byte.

use vstd::prelude::*;

verus! {

/// A contiguous span of target memory, starting at `base` and holding one
/// `u8` per byte address, lowest address first.
pub struct Region {
    base: u32,
    bytes: Vec<u8>,
}

impl View for Region {
    type V = Seq<u8>;

    /// The bytes of the region, lowest address first.
    closed spec fn view(&self) -> Seq<u8> {
        self.bytes@
    }
}

impl Region {
    /// The address of the first byte of the region.
    pub closed spec fn spec_base(&self) -> u32 {
        self.base
    }

    /// Every byte of the region has an address inside the 32-bit address
    /// space of the target platform.
    pub open spec fn wf(&self) -> bool {
        self.spec_base() + self@.len() <= u32::MAX + 1
    }

    /// A fresh region of `size` zeroed bytes starting at address `base`.
    pub fn new(base: u32, size: u32) -> (r: Region)
        requires
            base + size <= u32::MAX + 1,
        ensures
            r.wf(),
            r.spec_base() == base,
            r@.len() == size,
            forall|i: int| 0 <= i < size ==> r@[i] == 0u8,
    {
        let mut bytes: Vec<u8> = Vec::new();
        let mut i: u32 = 0;
        while i < size
            invariant
                i <= size,
                bytes@.len() == i,
                forall|j: int| 0 <= j < i ==> bytes@[j] == 0u8,
            decreases size - i,
        {
            bytes.push(0u8);
            i = i + 1;
        }
        Region { base, bytes }
    }

    /// The address of the first byte of the region.
    pub fn base(&self) -> (b: u32)
        ensures
            b == self.spec_base(),
    {
        self.base
    }

    /// How many bytes the region spans.
    pub fn size(&self) -> (n: usize)
        ensures
            n == self@.len(),
    {
        self.bytes.len()
    }

    /// Reads the byte at absolute address `addr`.
    pub fn read_byte(&self, addr: u32) -> (b: u8)
        requires
            self.spec_base() <= addr,
            addr - self.spec_base() < self@.len(),
        ensures
            b == self@[addr - self.spec_base()],
    {
        let off: u32 = addr - self.base;
        self.bytes[off as usize]
    }

    /// Overwrites the byte at absolute address `addr` with `value`.
    pub fn write_byte(&mut self, addr: u32, value: u8)
        requires
            old(self).spec_base() <= addr,
            addr - old(self).spec_base() < old(self)@.len(),
        ensures
            final(self).spec_base() == old(self).spec_base(),
            final(self)@ == old(self)@.update(addr - old(self).spec_base(), value),
    {
        let off: u32 = addr - self.base;
        self.bytes[off as usize] = value;
    }
}

} // verus!
