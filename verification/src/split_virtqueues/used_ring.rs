//! The used ring: device-written, driver-read.
//!
//! The device reports a consumed descriptor chain by writing its head
//! index and the byte count transferred into the next slot and bumping
//! its free-running index; the driver polls that index — with an
//! acquire read on real hardware — and reclaims the chains of every
//! entry it has not seen yet.

use vstd::prelude::*;

use super::{spec_is_power_of_two, VirtqIdx};

verus! {

/// The used ring's flag word.
#[derive(Clone, Copy, PartialEq, Eq, Structural, Debug)]
pub struct Flags(pub u16);

impl Flags {
    /// Whether the device asks the driver to skip the notify write when
    /// it publishes entries.
    pub open spec fn spec_no_notify(self) -> bool {
        self.0 & 1 != 0
    }

    /// Packs the flag word.
    pub fn new(no_notify: bool) -> (r: Flags)
        ensures
            r.0 == (if no_notify {
                1u16
            } else {
                0u16
            }),
            r.spec_no_notify() == no_notify,
    {
        proof {
            assert(1u16 & 1 != 0 && 0u16 & 1 == 0) by (bit_vector);
        }
        Flags(
            if no_notify {
                1
            } else {
                0
            },
        )
    }

    /// Reads the notify-suppression flag.
    pub fn no_notify(&self) -> (r: bool)
        ensures
            r == self.spec_no_notify(),
    {
        self.0 & 1 != 0
    }
}

/// One consumed entry: which chain was used, and how much was
/// transferred.
#[derive(Clone, Copy, PartialEq, Eq, Structural, Debug)]
pub struct VirtqUsedElem {
    /// The head index of the consumed chain, widened to 32 bits on the
    /// wire.
    pub id: u32,
    /// How many bytes the device wrote into the chain's buffers.
    pub len: u32,
}

impl VirtqUsedElem {
    /// An entry as the device would write it.
    pub fn new(id: u32, len: u32) -> (r: VirtqUsedElem)
        ensures
            r.id == id,
            r.len == len,
    {
        VirtqUsedElem { id, len }
    }

    /// The head index of the consumed chain.
    pub fn id(&self) -> (r: VirtqIdx)
        ensures
            r.0 == self.id as u16,
    {
        VirtqIdx(#[verifier::truncate] (self.id as u16))
    }

    /// How many bytes the device transferred.
    pub fn len(&self) -> (r: usize)
        ensures
            r == self.len as usize,
    {
        self.len as usize
    }

    /// Whether the device transferred nothing.
    pub fn is_empty(&self) -> (r: bool)
        ensures
            r == (self.len == 0),
    {
        self.len == 0
    }
}

/// The device-written ring of consumed entries.
pub struct VirtqUsed {
    /// The ring's flag word.
    pub flags: Flags,
    /// The free-running index: how many entries the device has ever
    /// published.
    pub idx: VirtqIdx,
    /// The slots; capacity a power of two no larger than 2^16.
    pub ring: Vec<VirtqUsedElem>,
    /// The available-ring index below which the device asks for no
    /// notify; meaningful when the event-suppression feature was
    /// negotiated.
    pub avail_event: VirtqIdx,
}

impl VirtqUsed {
    /// A fresh ring of the queue's capacity, nothing consumed yet.
    pub fn new(capacity: usize) -> (r: VirtqUsed)
        requires
            spec_is_power_of_two(capacity as int),
            capacity <= 0x10000,
        ensures
            r.flags.0 == 0,
            r.idx.0 == 0,
            r.ring@.len() == capacity,
            forall|i: int| 0 <= i < capacity ==> r.ring@[i] == (VirtqUsedElem { id: 0, len: 0 }),
            r.avail_event.0 == 0,
    {
        let mut ring: Vec<VirtqUsedElem> = Vec::new();
        let mut i: usize = 0;
        while i < capacity
            invariant
                i <= capacity,
                ring@.len() == i,
                forall|j: int| 0 <= j < i ==> ring@[j] == (VirtqUsedElem { id: 0, len: 0 }),
            decreases capacity - i,
        {
            ring.push(VirtqUsedElem { id: 0, len: 0 });
            i = i + 1;
        }
        VirtqUsed { flags: Flags(0), idx: VirtqIdx(0), ring, avail_event: VirtqIdx(0) }
    }

    /// The device's free-running index, as the driver polls it.
    pub fn idx(&self) -> (r: VirtqIdx)
        ensures
            r == self.idx,
    {
        self.idx
    }

    /// The device's notify-suppression threshold, when it asks for
    /// suppression at all.
    pub fn avail_event(&self) -> (r: Option<VirtqIdx>)
        ensures
            r == if self.flags.spec_no_notify() {
                Some(self.avail_event)
            } else {
                None::<VirtqIdx>
            },
    {
        if self.flags.no_notify() {
            Some(self.avail_event)
        } else {
            None
        }
    }

    /// The consumed entry in a slot of the ring.
    pub fn get(&self, index: VirtqIdx) -> (r: &VirtqUsedElem)
        requires
            index.0 < self.ring@.len(),
        ensures
            *r == self.ring@[index.0 as int],
    {
        &self.ring[index.0 as usize]
    }
}

} // verus!
