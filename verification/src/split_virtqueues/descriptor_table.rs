//! The descriptor table: one entry per buffer the queue can carry.
//!
//! A descriptor names a buffer by address and length and, when its NEXT
//! flag is set, chains to another descriptor; a chain describes one
//! scatter/gather transfer. A fresh table is initialized as an implicit
//! free list, each descriptor chaining to its successor.

use vstd::prelude::*;

use super::{spec_is_power_of_two, VirtqIdx};

verus! {

/// The packed form of a descriptor's flag word.
pub open spec fn spec_flag_bits(next: bool, write: bool, indirect: bool) -> u16 {
    (if next {
        1u16
    } else {
        0u16
    }) | (if write {
        2u16
    } else {
        0u16
    }) | (if indirect {
        4u16
    } else {
        0u16
    })
}

/// A descriptor's flag word.
#[derive(Clone, Copy, PartialEq, Eq, Structural, Debug)]
pub struct Flags(pub u16);

impl Flags {
    /// Whether the descriptor chains to another through its next field.
    pub open spec fn spec_next(self) -> bool {
        self.0 & 1 != 0
    }

    /// Whether the device writes the buffer rather than reads it.
    pub open spec fn spec_write(self) -> bool {
        self.0 & 2 != 0
    }

    /// Whether the buffer itself holds a table of indirect descriptors.
    pub open spec fn spec_indirect(self) -> bool {
        self.0 & 4 != 0
    }

    /// Packs the three descriptor flags into their wire word.
    pub fn new(next: bool, write: bool, indirect: bool) -> (r: Flags)
        ensures
            r.0 == spec_flag_bits(next, write, indirect),
            r.spec_next() == next,
            r.spec_write() == write,
            r.spec_indirect() == indirect,
    {
        let bits: u16 = (if next {
            1
        } else {
            0
        }) | (if write {
            2
        } else {
            0
        }) | (if indirect {
            4
        } else {
            0
        });
        proof {
            assert((0u16 | 0 | 0) == 0 && (1u16 | 0 | 0) == 1 && (0u16 | 2 | 0) == 2 && (1u16 | 2
                | 0) == 3 && (0u16 | 0 | 4) == 4 && (1u16 | 0 | 4) == 5 && (0u16 | 2 | 4) == 6 && (
            1u16 | 2 | 4) == 7) by (bit_vector);
            assert(0u16 & 1 == 0 && 1u16 & 1 != 0 && 2u16 & 1 == 0 && 3u16 & 1 != 0 && 4u16 & 1
                == 0 && 5u16 & 1 != 0 && 6u16 & 1 == 0 && 7u16 & 1 != 0) by (bit_vector);
            assert(0u16 & 2 == 0 && 1u16 & 2 == 0 && 2u16 & 2 != 0 && 3u16 & 2 != 0 && 4u16 & 2
                == 0 && 5u16 & 2 == 0 && 6u16 & 2 != 0 && 7u16 & 2 != 0) by (bit_vector);
            assert(0u16 & 4 == 0 && 1u16 & 4 == 0 && 2u16 & 4 == 0 && 3u16 & 4 == 0 && 4u16 & 4
                != 0 && 5u16 & 4 != 0 && 6u16 & 4 != 0 && 7u16 & 4 != 0) by (bit_vector);
        }
        Flags(bits)
    }

    /// Reads the chaining flag.
    pub fn next(&self) -> (r: bool)
        ensures
            r == self.spec_next(),
    {
        self.0 & 1 != 0
    }

    /// Reads the device-writes flag.
    pub fn write(&self) -> (r: bool)
        ensures
            r == self.spec_write(),
    {
        self.0 & 2 != 0
    }

    /// Reads the indirect-table flag.
    pub fn indirect(&self) -> (r: bool)
        ensures
            r == self.spec_indirect(),
    {
        self.0 & 4 != 0
    }
}

/// One entry of the descriptor table: a buffer's address and length,
/// the flag word, and the index of the next descriptor of the chain.
#[derive(Clone, Copy, PartialEq, Eq, Structural, Debug)]
pub struct VirtqDesc {
    /// The buffer's physical address.
    pub addr: u64,
    /// The buffer's length in bytes.
    pub len: u32,
    /// The descriptor's flag word.
    pub flags: Flags,
    /// The next descriptor of the chain; meaningful only while the NEXT
    /// flag is set.
    pub next: VirtqIdx,
}

impl VirtqDesc {
    /// The buffer's address.
    pub fn addr(&self) -> (r: u64)
        ensures
            r == self.addr,
    {
        self.addr
    }

    /// The buffer's length in bytes.
    pub fn len(&self) -> (r: usize)
        ensures
            r == self.len as usize,
    {
        self.len as usize
    }

    /// The descriptor's flag word.
    pub fn flags(&self) -> (r: Flags)
        ensures
            r == self.flags,
    {
        self.flags
    }

    /// The next descriptor of the chain, if the chain goes on.
    pub fn next(&self) -> (r: Option<VirtqIdx>)
        ensures
            r == if self.flags.spec_next() {
                Some(self.next)
            } else {
                None::<VirtqIdx>
            },
    {
        if self.flags.next() {
            Some(self.next)
        } else {
            None
        }
    }
}

/// The descriptor table of one queue: `capacity` descriptors addressed
/// by small indices, so chains are integer links rather than pointers.
pub struct DescriptorTable {
    /// The descriptors, in table order.
    pub descs: Vec<VirtqDesc>,
}

impl DescriptorTable {
    /// A table of `capacity` zeroed descriptors. The capacity is the
    /// queue size: a power of two no larger than 2^16.
    pub fn new(capacity: usize) -> (r: DescriptorTable)
        requires
            spec_is_power_of_two(capacity as int),
            capacity <= 0x10000,
        ensures
            r.descs@.len() == capacity,
            forall|i: int|
                0 <= i < capacity ==> r.descs@[i] == (VirtqDesc {
                    addr: 0,
                    len: 0,
                    flags: Flags(0),
                    next: VirtqIdx(0),
                }),
    {
        let mut descs: Vec<VirtqDesc> = Vec::new();
        let mut i: usize = 0;
        while i < capacity
            invariant
                i <= capacity,
                descs@.len() == i,
                forall|j: int|
                    0 <= j < i ==> descs@[j] == (VirtqDesc {
                        addr: 0,
                        len: 0,
                        flags: Flags(0),
                        next: VirtqIdx(0),
                    }),
            decreases capacity - i,
        {
            descs.push(VirtqDesc { addr: 0, len: 0, flags: Flags(0), next: VirtqIdx(0) });
            i = i + 1;
        }
        DescriptorTable { descs }
    }

    /// How many descriptors the table holds.
    pub fn capacity(&self) -> (r: usize)
        ensures
            r == self.descs@.len(),
    {
        self.descs.len()
    }

    /// Chains every descriptor to its successor, making the table an
    /// implicit free list; every other field is left as it stands.
    pub fn fill_in_order(&mut self)
        ensures
            final(self).descs@.len() == old(self).descs@.len(),
            forall|i: int|
                0 <= i < old(self).descs@.len() ==> final(self).descs@[i] == (VirtqDesc {
                    next: VirtqIdx((i + 1) as u16),
                    ..old(self).descs@[i]
                }),
    {
        let mut i: usize = 0;
        while i < self.descs.len()
            invariant
                i <= self.descs@.len(),
                self.descs@.len() == old(self).descs@.len(),
                forall|j: int|
                    0 <= j < i ==> self.descs@[j] == (VirtqDesc {
                        next: VirtqIdx((j + 1) as u16),
                        ..old(self).descs@[j]
                    }),
                forall|j: int|
                    i <= j < self.descs@.len() ==> self.descs@[j] == old(self).descs@[j],
            decreases self.descs@.len() - i,
        {
            let d = self.descs[i];
            let linked = VirtqIdx::new(i + 1);
            self.descs.set(i, VirtqDesc { next: linked, ..d });
            i = i + 1;
        }
    }

    /// The descriptor at an index of the table.
    pub fn get(&self, index: VirtqIdx) -> (r: &VirtqDesc)
        requires
            index.0 < self.descs@.len(),
        ensures
            *r == self.descs@[index.0 as int],
    {
        &self.descs[index.0 as usize]
    }

    /// Fills one descriptor with a buffer and its chaining, as the
    /// producer path does for each entry of a chain before publishing
    /// its head.
    pub fn write_descriptor(
        &mut self,
        index: VirtqIdx,
        addr: u64,
        len: u32,
        flags: Flags,
        next: VirtqIdx,
    )
        requires
            index.0 < old(self).descs@.len(),
        ensures
            final(self).descs@ == old(self).descs@.update(
                index.0 as int,
                (VirtqDesc { addr, len, flags, next }),
            ),
    {
        self.descs.set(index.0 as usize, VirtqDesc { addr, len, flags, next });
    }
}

} // verus!
