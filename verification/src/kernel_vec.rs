//! The boot-phase bump-pointer writer.
//!
//! `KernelVec` assembles a sequence of typed values at a caller-chosen base
//! address, before any memory manager exists: there is no bounds check beyond
//! the extent of the [`Region`] standing in for raw memory, no alignment
//! check, and no read-back API — the caller owns the schema of what was
//! written and where. Values are laid down in the target platform's
//! little-endian byte order.

use vstd::prelude::*;

use crate::region::Region;

verus! {

/// `mem` with `data` written over its bytes at offsets
/// `[off, off + data.len())`; every other byte keeps its old value.
pub open spec fn write_bytes(mem: Seq<u8>, off: int, data: Seq<u8>) -> Seq<u8> {
    Seq::new(
        mem.len(),
        |i: int|
            if off <= i < off + data.len() {
                data[i - off]
            } else {
                mem[i]
            },
    )
}

/// The little-endian byte representation of a 16-bit value.
pub open spec fn le_bytes16(v: u16) -> Seq<u8> {
    seq![(v & 0xff) as u8, ((v >> 8) & 0xff) as u8]
}

/// The little-endian byte representation of a 32-bit value.
pub open spec fn le_bytes32(v: u32) -> Seq<u8> {
    seq![
        (v & 0xff) as u8,
        ((v >> 8) & 0xff) as u8,
        ((v >> 16) & 0xff) as u8,
        ((v >> 24) & 0xff) as u8,
    ]
}

/// A sequential writer over raw target memory: `location` is the address the
/// next value will be written at (the cursor), `length` the number of values
/// appended so far. Addresses are `u32` because the target is a 32-bit
/// platform, whatever the width of the build host.
///
/// The structure records neither the types nor the offsets of the values it
/// wrote: that bookkeeping belongs to the caller.
pub struct KernelVec {
    /// The cursor: the absolute address of the next write.
    pub location: u32,
    /// How many values have been appended.
    pub length: u32,
}

impl KernelVec {
    /// An empty writer whose cursor sits at `location`.
    ///
    /// The address is taken as given: it is not checked for alignment,
    /// reachability, or overlap with other live data. The caller must pick a
    /// span that is writable and free.
    pub fn new(location: u32) -> (v: KernelVec)
        ensures
            v.location == location,
            v.length == 0,
    {
        KernelVec { location, length: 0 }
    }

    /// Appends one value, given as its raw bytes: writes `data` to `memory`
    /// starting at the cursor, advances the cursor by `data.len()`, and
    /// counts one more element.
    pub fn push_bytes(&mut self, memory: &mut Region, data: &Vec<u8>)
        requires
            old(memory).spec_base() <= old(self).location,
            old(self).location + data@.len() <= old(memory).spec_base() + old(memory)@.len(),
            old(self).location + data@.len() <= u32::MAX,
            old(self).length < u32::MAX,
        ensures
            final(self).location == old(self).location + data@.len(),
            final(self).length == old(self).length + 1,
            final(memory).spec_base() == old(memory).spec_base(),
            final(memory)@ == write_bytes(
                old(memory)@,
                old(self).location - old(memory).spec_base(),
                data@,
            ),
    {
        let mut i: usize = 0;
        while i < data.len()
            invariant
                i <= data@.len(),
                self.location == old(self).location,
                self.length == old(self).length,
                memory.spec_base() == old(memory).spec_base(),
                memory@.len() == old(memory)@.len(),
                old(memory).spec_base() <= old(self).location,
                old(self).location + data@.len() <= old(memory).spec_base() + old(memory)@.len(),
                old(self).location + data@.len() <= u32::MAX,
                forall|j: int|
                    0 <= j < memory@.len() ==> memory@[j] == (if old(self).location
                        - old(memory).spec_base() <= j < old(self).location
                        - old(memory).spec_base() + i {
                        data@[j - (old(self).location - old(memory).spec_base())]
                    } else {
                        old(memory)@[j]
                    }),
            decreases data@.len() - i,
        {
            let addr: u32 = self.location + (i as u32);
            memory.write_byte(addr, data[i]);
            i = i + 1;
        }
        proof {
            assert(memory@ =~= write_bytes(
                old(memory)@,
                old(self).location - old(memory).spec_base(),
                data@,
            ));
        }
        self.location = self.location + (data.len() as u32);
        self.length = self.length + 1;
    }

    /// Appends an 8-bit value: one byte at the cursor.
    pub fn push_u8(&mut self, memory: &mut Region, item: u8)
        requires
            old(memory).spec_base() <= old(self).location,
            old(self).location + 1 <= old(memory).spec_base() + old(memory)@.len(),
            old(self).location + 1 <= u32::MAX,
            old(self).length < u32::MAX,
        ensures
            final(self).location == old(self).location + 1,
            final(self).length == old(self).length + 1,
            final(memory).spec_base() == old(memory).spec_base(),
            final(memory)@ == write_bytes(
                old(memory)@,
                old(self).location - old(memory).spec_base(),
                seq![item],
            ),
    {
        let mut data: Vec<u8> = Vec::new();
        data.push(item);
        proof {
            assert(data@ =~= seq![item]);
        }
        self.push_bytes(memory, &data)
    }

    /// Appends a 16-bit value as its two little-endian bytes.
    pub fn push_u16(&mut self, memory: &mut Region, item: u16)
        requires
            old(memory).spec_base() <= old(self).location,
            old(self).location + 2 <= old(memory).spec_base() + old(memory)@.len(),
            old(self).location + 2 <= u32::MAX,
            old(self).length < u32::MAX,
        ensures
            final(self).location == old(self).location + 2,
            final(self).length == old(self).length + 1,
            final(memory).spec_base() == old(memory).spec_base(),
            final(memory)@ == write_bytes(
                old(memory)@,
                old(self).location - old(memory).spec_base(),
                le_bytes16(item),
            ),
    {
        proof {
            assert(item & 0xff < 256 && (item >> 8) & 0xff < 256) by (bit_vector);
        }
        let mut data: Vec<u8> = Vec::new();
        data.push((item & 0xff) as u8);
        data.push(((item >> 8) & 0xff) as u8);
        proof {
            assert(data@ =~= le_bytes16(item));
        }
        self.push_bytes(memory, &data)
    }

    /// Appends a 32-bit value as its four little-endian bytes.
    pub fn push_u32(&mut self, memory: &mut Region, item: u32)
        requires
            old(memory).spec_base() <= old(self).location,
            old(self).location + 4 <= old(memory).spec_base() + old(memory)@.len(),
            old(self).location + 4 <= u32::MAX,
            old(self).length < u32::MAX,
        ensures
            final(self).location == old(self).location + 4,
            final(self).length == old(self).length + 1,
            final(memory).spec_base() == old(memory).spec_base(),
            final(memory)@ == write_bytes(
                old(memory)@,
                old(self).location - old(memory).spec_base(),
                le_bytes32(item),
            ),
    {
        proof {
            assert(item & 0xff < 256 && (item >> 8) & 0xff < 256 && (item >> 16) & 0xff < 256
                && (item >> 24) & 0xff < 256) by (bit_vector);
        }
        let mut data: Vec<u8> = Vec::new();
        data.push((item & 0xff) as u8);
        data.push(((item >> 8) & 0xff) as u8);
        data.push(((item >> 16) & 0xff) as u8);
        data.push(((item >> 24) & 0xff) as u8);
        proof {
            assert(data@ =~= le_bytes32(item));
        }
        self.push_bytes(memory, &data)
    }
}

} // verus!
