//! Guest-side transport layer for virtio devices behind a memory-mapped
//! register window.
//!
//! The crate models the driver-visible state of such a device — the status
//! handshake, the feature-negotiation windows, the register block that is
//! probed at discovery, and the split-virtqueue rings — as plain data, and
//! verifies the protocol logic over that model. The volatile accesses that
//! move this state to and from real hardware are the caller's concern; every
//! decision the driver takes between two such accesses is made here.

use vstd::prelude::*;

pub mod device_status_field;
pub mod device_types;
pub mod feature_bits;
pub mod header;
pub mod mmio;
pub mod split_virtqueues;

pub use device_status_field::DeviceStatus;
pub use device_types::DeviceType;
pub use mmio::common::Interface as MmioVirtioCommon;
pub use mmio::{MmioVirtio, MmioVirtioMeta, NeogotiateError, ProbeError};
pub use split_virtqueues::{
    DescriptorTable, VirtqAvail, VirtqAvailFlags, VirtqDesc, VirtqDescFlags, VirtqIdx, VirtqUsed,
    VirtqUsedElem, VirtqUsedFlags,
};

verus! {

use vstd::string::StrSliceExecFns;

/// Four ASCII bytes carried as one 32-bit register word, low byte first.
///
/// Identification registers (the magic value, the vendor id) hold short
/// tags in this packed form.
#[derive(Clone, Copy, PartialEq, Eq, Structural, Debug)]
pub struct U32Str(pub u32);

/// The word that a four-character ASCII tag occupies, low byte first.
pub open spec fn u32_str_bits(s: Seq<char>) -> u32
    recommends
        s.len() == 4,
{
    (s[0] as u32) | ((s[1] as u32) << 8) | ((s[2] as u32) << 16) | ((s[3] as u32) << 24)
}

impl U32Str {
    /// Packs a four-character ASCII tag into its register word.
    pub fn new(s: &str) -> (r: U32Str)
        requires
            s@.len() == 4,
            forall|i: int| 0 <= i < 4 ==> (s@[i] as u32) < 128,
        ensures
            r.0 == u32_str_bits(s@),
    {
        let c0 = s.get_char(0) as u32;
        let c1 = s.get_char(1) as u32;
        let c2 = s.get_char(2) as u32;
        let c3 = s.get_char(3) as u32;
        U32Str(c0 | (c1 << 8) | (c2 << 16) | (c3 << 24))
    }
}

} // verus!
