//! The available ring: driver-written, device-read.
//!
//! The driver publishes a descriptor chain by writing its head index
//! into the slot of the ring its free-running index picks, and only then
//! bumping the index — on real hardware the two accesses are separated
//! by a release barrier, so the device never observes the bump before
//! the slot.

use vstd::prelude::*;

use super::{spec_is_power_of_two, VirtqIdx};

verus! {

/// The available ring's flag word.
#[derive(Clone, Copy, PartialEq, Eq, Structural, Debug)]
pub struct Flags(pub u16);

impl Flags {
    /// Whether the driver asks the device to skip its interrupt when it
    /// consumes entries.
    pub open spec fn spec_no_interrupt(self) -> bool {
        self.0 & 1 != 0
    }

    /// Packs the flag word.
    pub fn new(no_interrupt: bool) -> (r: Flags)
        ensures
            r.0 == (if no_interrupt {
                1u16
            } else {
                0u16
            }),
            r.spec_no_interrupt() == no_interrupt,
    {
        proof {
            assert(1u16 & 1 != 0 && 0u16 & 1 == 0) by (bit_vector);
        }
        Flags(
            if no_interrupt {
                1
            } else {
                0
            },
        )
    }

    /// Reads the interrupt-suppression flag.
    pub fn no_interrupt(&self) -> (r: bool)
        ensures
            r == self.spec_no_interrupt(),
    {
        self.0 & 1 != 0
    }
}

/// The driver-written ring of published descriptor-chain heads.
pub struct VirtqAvail {
    /// The ring's flag word.
    pub flags: Flags,
    /// The free-running index: how many chains have ever been published.
    pub idx: VirtqIdx,
    /// The slots; capacity a power of two no larger than 2^16.
    pub ring: Vec<VirtqIdx>,
    /// The used-ring index below which the driver asks for no interrupt;
    /// meaningful when the event-suppression feature was negotiated.
    pub used_event: VirtqIdx,
}

impl VirtqAvail {
    /// A fresh ring of the queue's capacity, nothing published yet.
    pub fn new(capacity: usize) -> (r: VirtqAvail)
        requires
            spec_is_power_of_two(capacity as int),
            capacity <= 0x10000,
        ensures
            r.flags.0 == 0,
            r.idx.0 == 0,
            r.ring@.len() == capacity,
            forall|i: int| 0 <= i < capacity ==> r.ring@[i] == (VirtqIdx(0)),
            r.used_event.0 == 0,
    {
        let mut ring: Vec<VirtqIdx> = Vec::new();
        let mut i: usize = 0;
        while i < capacity
            invariant
                i <= capacity,
                ring@.len() == i,
                forall|j: int| 0 <= j < i ==> ring@[j] == (VirtqIdx(0)),
            decreases capacity - i,
        {
            ring.push(VirtqIdx(0));
            i = i + 1;
        }
        VirtqAvail { flags: Flags(0), idx: VirtqIdx(0), ring, used_event: VirtqIdx(0) }
    }

    /// The driver's interrupt-suppression threshold, when it asks for
    /// suppression at all.
    pub fn used_event(&self) -> (r: Option<VirtqIdx>)
        ensures
            r == if self.flags.spec_no_interrupt() {
                Some(self.used_event)
            } else {
                None::<VirtqIdx>
            },
    {
        if self.flags.no_interrupt() {
            Some(self.used_event)
        } else {
            None
        }
    }

    /// The published head in a slot of the ring.
    pub fn get(&self, index: VirtqIdx) -> (r: VirtqIdx)
        requires
            index.0 < self.ring@.len(),
        ensures
            r == self.ring@[index.0 as int],
    {
        self.ring[index.0 as usize]
    }

    /// Publishes a descriptor chain: its head index goes into the slot
    /// the free-running index picks, and only afterwards is the index
    /// bumped, wrapping at 2^16.
    pub fn publish(&mut self, head: VirtqIdx)
        requires
            old(self).ring@.len() > 0,
        ensures
            final(self).ring@ == old(self).ring@.update(
                old(self).idx.0 as int % old(self).ring@.len() as int,
                head,
            ),
            final(self).idx.0 == old(self).idx.0.wrapping_add(1),
            final(self).flags == old(self).flags,
            final(self).used_event == old(self).used_event,
    {
        let slot = (self.idx.0 as usize) % self.ring.len();
        self.ring.set(slot, head);
        self.idx = VirtqIdx(self.idx.0.wrapping_add(1));
    }
}

} // verus!
