//! The register block shared by both wire versions, and the driver's
//! setup operations on it.
//!
//! [`Interface`] is the driver-side image of the memory-mapped register
//! window: the identification header, the two feature banks, the queue
//! registers of both layouts, and the status register. The setup path —
//! probe, reset, launch, negotiate, queue registration — is written
//! against this image; a caller driving real hardware performs one
//! volatile access per register touched here, in the same order.

use vstd::prelude::*;

use super::{NeogotiateError, ProbeError};
use crate::device_status_field::{
    lemma_decode_status_bits, spec_advance_raw, spec_advance_result, spec_advance_writes,
    spec_try_from, status_bits, test_and_push, DeviceStatus, DeviceStatusField, StatusRegister,
    STEP_ACKNOWLEDGED, STEP_UNINITIALIZED,
};
use crate::device_types::spec_device_type_from;
use crate::feature_bits::{
    and_words, counted_writes, read_words, spec_contains, written_words, FeatureBits, WindowBank,
};
use crate::header::{spec_version_from, MAGIC, VERSION_LEGACY};

verus! {

/// The driver-side image of a device's register block.
///
/// Registers the device alone writes (the header, the offered feature
/// windows, the maximum queue size) hold what the device announced;
/// registers the driver writes hold the last word written. Both wire
/// versions' queue registers are carried, and the operations touch only
/// those of the version the block announces.
pub struct Interface {
    /// The magic word, first register of the block.
    pub magic_value: u32,
    /// The announced wire-protocol version.
    pub version: u32,
    /// The announced device-type code.
    pub device_id: u32,
    /// The vendor tag.
    pub vendor_id: u32,
    /// The feature windows the device offers (device-written).
    pub device_features: WindowBank,
    /// The feature windows the driver acknowledges (driver-written).
    pub driver_features: WindowBank,
    /// The page size the driver announces; legacy layout only.
    pub guest_page_size: u32,
    /// Which queue the queue registers currently address.
    pub queue_sel: u32,
    /// The largest queue size the device accepts for the selected queue.
    pub queue_num_max: u32,
    /// The queue size the driver announces for the selected queue.
    pub queue_num: u32,
    /// The ring alignment the driver announces; legacy layout only.
    pub queue_align: u32,
    /// The selected queue's page-frame number; legacy layout only.
    pub queue_pfn: u32,
    /// Whether the selected queue is live; modern layout only.
    pub queue_ready: u32,
    /// The notify register; written with a queue index to kick the device.
    pub queue_notify: u32,
    /// Pending interrupt causes (device-written).
    pub interrupt_status: u32,
    /// The interrupt acknowledge register.
    pub interrupt_ack: u32,
    /// The device status register, with its writes counted.
    pub status: StatusRegister,
    /// Low half of the descriptor table address; modern layout only.
    pub queue_desc_low: u32,
    /// High half of the descriptor table address; modern layout only.
    pub queue_desc_high: u32,
    /// Low half of the driver-area (available ring) address; modern only.
    pub queue_driver_low: u32,
    /// High half of the driver-area (available ring) address; modern only.
    pub queue_driver_high: u32,
    /// Low half of the device-area (used ring) address; modern only.
    pub queue_device_low: u32,
    /// High half of the device-area (used ring) address; modern only.
    pub queue_device_high: u32,
    /// Bumped by the device when the configuration block changes.
    pub config_generation: u32,
}

/// The verdict of header validation during a probe, checked in address
/// order: the magic word, then the version, then the device id, with the
/// reserved code meaning that no device is there at all.
pub open spec fn spec_probe_result(magic_value: u32, version: u32, device_id: u32) -> Result<
    (),
    ProbeError,
> {
    if magic_value != MAGIC {
        Err(ProbeError::InvalidMagic)
    } else if spec_version_from(version) is Err {
        Err(ProbeError::InvalidVersion)
    } else if device_id == 0 {
        Err(ProbeError::NoDevice)
    } else if spec_device_type_from(device_id) is Err {
        Err(ProbeError::UnknownType(device_id))
    } else {
        Ok(())
    }
}

/// How many status writes restarting a device takes: one from a fresh
/// device, none when it already acknowledged, and two — a clearing write
/// and the acknowledge — from any other state.
pub open spec fn spec_reset_writes(raw: u32) -> int {
    match spec_try_from(DeviceStatusField(raw)) {
        Ok(DeviceStatus::Uninitialized) => 1,
        Ok(DeviceStatus::Acknowledged) => 0,
        _ => 2,
    }
}

impl Interface {
    /// An image of a freshly discovered block: the header words and the
    /// offered feature windows as the device presents them, the given
    /// status word, and every driver-written register still zero. The
    /// driver-side feature bank is as wide as the offered one.
    pub fn new(
        magic_value: u32,
        version: u32,
        device_id: u32,
        vendor_id: u32,
        device_features: Vec<u32>,
        status: u32,
    ) -> (r: Interface)
        ensures
            r.magic_value == magic_value,
            r.version == version,
            r.device_id == device_id,
            r.vendor_id == vendor_id,
            r.device_features.words == device_features,
            r.device_features.sel == 0,
            r.device_features.writes == 0,
            r.driver_features.words@ =~= Seq::new(device_features@.len(), |i: int| 0u32),
            r.driver_features.sel == 0,
            r.driver_features.writes == 0,
            r.status.value.0 == status,
            r.status.writes == 0,
            r.guest_page_size == 0 && r.queue_sel == 0 && r.queue_num_max == 0 && r.queue_num == 0
                && r.queue_align == 0 && r.queue_pfn == 0 && r.queue_ready == 0 && r.queue_notify
                == 0 && r.interrupt_status == 0 && r.interrupt_ack == 0 && r.queue_desc_low == 0
                && r.queue_desc_high == 0 && r.queue_driver_low == 0 && r.queue_driver_high == 0
                && r.queue_device_low == 0 && r.queue_device_high == 0 && r.config_generation == 0,
    {
        let width = device_features.len();
        Interface {
            magic_value,
            version,
            device_id,
            vendor_id,
            device_features: WindowBank::new(device_features),
            driver_features: WindowBank::new_zeroed(width),
            guest_page_size: 0,
            queue_sel: 0,
            queue_num_max: 0,
            queue_num: 0,
            queue_align: 0,
            queue_pfn: 0,
            queue_ready: 0,
            queue_notify: 0,
            interrupt_status: 0,
            interrupt_ack: 0,
            status: StatusRegister::new(DeviceStatusField(status)),
            queue_desc_low: 0,
            queue_desc_high: 0,
            queue_driver_low: 0,
            queue_driver_high: 0,
            queue_device_low: 0,
            queue_device_high: 0,
            config_generation: 0,
        }
    }

    /// Validates the header in address order and, if a recognizable
    /// device is there, restarts it: afterwards the device has exactly
    /// acknowledged the guest. A rejected block is left entirely
    /// untouched — in particular, its status register never sees a write.
    pub fn probe(&mut self) -> (r: Result<(), ProbeError>)
        ensures
            r == spec_probe_result(
                old(self).magic_value,
                old(self).version,
                old(self).device_id,
            ),
            r is Err ==> *final(self) == *old(self),
            r is Ok ==> *final(self) == (Interface { status: final(self).status, ..*old(self) }),
            r is Ok ==> final(self).status.value.0 == STEP_ACKNOWLEDGED,
            r is Ok ==> final(self).status.writes == counted_writes(
                old(self).status.writes,
                spec_reset_writes(old(self).status.value.0),
            ),
    {
        if self.magic_value != MAGIC {
            return Err(ProbeError::InvalidMagic);
        }
        match crate::header::Version::try_from(self.version) {
            Err(_) => {
                return Err(ProbeError::InvalidVersion);
            },
            Ok(_) => {},
        }
        match crate::device_types::DeviceType::try_from(self.device_id) {
            Ok(crate::device_types::DeviceType::Reserved) => {
                return Err(ProbeError::NoDevice);
            },
            Err(code) => {
                return Err(ProbeError::UnknownType(code));
            },
            Ok(_) => {},
        }
        self.reset();
        Ok(())
    }

    /// Restarts the device: if it is fresh or already acknowledged, only
    /// the missing acknowledge is written; from any other state the
    /// status field is cleared first, which is the one way its bits can
    /// be taken back. Either way the device ends exactly acknowledged.
    pub fn reset(&mut self)
        ensures
            *final(self) == (Interface { status: final(self).status, ..*old(self) }),
            final(self).status.value.0 == STEP_ACKNOWLEDGED,
            final(self).status.writes == counted_writes(
                old(self).status.writes,
                spec_reset_writes(old(self).status.value.0),
            ),
    {
        match test_and_push(&mut self.status, DeviceStatus::Uninitialized) {
            Ok(_) => {
                proof {
                    let w = old(self).status.writes;
                    assert(counted_writes(w, 0) == w);
                    assert(counted_writes(w, 1) == w.wrapping_add(1));
                }
            },
            Err(Ok(DeviceStatus::Acknowledged)) => {
                proof {
                    let w = old(self).status.writes;
                    assert(counted_writes(w, 0) == w);
                }
            },
            Err(_) => {
                proof {
                    lemma_decode_status_bits();
                    assert(status_bits(DeviceStatus::Uninitialized) == STEP_UNINITIALIZED);
                    assert(spec_try_from(DeviceStatusField(STEP_UNINITIALIZED)) == Ok::<
                        DeviceStatus,
                        DeviceStatusField,
                    >(DeviceStatus::Uninitialized));
                }
                self.status.write(DeviceStatusField(STEP_UNINITIALIZED));
                let pushed = test_and_push(&mut self.status, DeviceStatus::Uninitialized);
                assert(pushed is Ok);
                proof {
                    let w = old(self).status.writes;
                    assert(counted_writes(w, 0) == w);
                    assert(counted_writes(w, 1) == w.wrapping_add(1));
                    assert(counted_writes(w, 2) == counted_writes(w, 1).wrapping_add(1));
                }
            },
        }
    }

    /// Reports the driver present, moving an acknowledged device to the
    /// launched state; hands back whether the step was taken.
    pub(crate) fn launch(&mut self) -> (r: bool)
        ensures
            *final(self) == (Interface { status: final(self).status, ..*old(self) }),
            r == (spec_advance_result(old(self).status.value.0, DeviceStatus::Acknowledged) is Ok),
            final(self).status.value.0 == spec_advance_raw(
                old(self).status.value.0,
                DeviceStatus::Acknowledged,
            ),
            final(self).status.writes == if spec_advance_writes(
                old(self).status.value.0,
                DeviceStatus::Acknowledged,
            ) {
                old(self).status.writes.wrapping_add(1)
            } else {
                old(self).status.writes
            },
    {
        test_and_push(&mut self.status, DeviceStatus::Acknowledged).is_ok()
    }

    /// Negotiates capabilities with a launched device. The offered row is
    /// assembled window by window from the device bank; if it lacks any
    /// bit of `minimum`, negotiation fails before anything is written to
    /// the driver bank. Otherwise the intersection of offered and
    /// supported is written window by window, and the device is pushed
    /// from launched to features-accepted; only when that step is taken
    /// is the negotiated row handed back.
    pub fn negotiate(&mut self, minimum: FeatureBits, supported: FeatureBits) -> (r: Result<
        FeatureBits,
        NeogotiateError,
    >)
        requires
            minimum@.len() == supported@.len(),
            minimum@.len() <= 0xffff_ffff,
        ensures
            *final(self) == (Interface {
                device_features: final(self).device_features,
                driver_features: final(self).driver_features,
                status: final(self).status,
                ..*old(self)
            }),
            final(self).device_features.words == old(self).device_features.words,
            final(self).device_features.writes == old(self).device_features.writes,
            !spec_contains(
                read_words(old(self).device_features.words@, minimum@.len()),
                minimum@,
            ) ==> {
                &&& r == Err::<FeatureBits, NeogotiateError>(NeogotiateError::LeakFeature)
                &&& final(self).driver_features == old(self).driver_features
                &&& final(self).status == old(self).status
            },
            spec_contains(
                read_words(old(self).device_features.words@, minimum@.len()),
                minimum@,
            ) ==> {
                let offered = read_words(old(self).device_features.words@, minimum@.len());
                let negotiated = and_words(offered, supported@);
                &&& final(self).driver_features.words@ == written_words(
                    old(self).driver_features.words@,
                    negotiated,
                )
                &&& final(self).driver_features.writes == counted_writes(
                    old(self).driver_features.writes,
                    minimum@.len() as int,
                )
                &&& final(self).status.value.0 == spec_advance_raw(
                    old(self).status.value.0,
                    DeviceStatus::DriverLaunched,
                )
                &&& (spec_advance_result(old(self).status.value.0, DeviceStatus::DriverLaunched)
                    is Ok ==> (r matches Ok(f) && f@ == negotiated))
                &&& (spec_advance_result(old(self).status.value.0, DeviceStatus::DriverLaunched)
                    is Err ==> r == Err::<FeatureBits, NeogotiateError>(
                    NeogotiateError::SetStatusFailed,
                ))
            },
    {
        let len = minimum.0.len();
        let offered = FeatureBits::read_from_device(len, &mut self.device_features);
        if !offered.contains(minimum) {
            return Err(NeogotiateError::LeakFeature);
        }
        let negotiated = offered.intersect(&supported);
        negotiated.write_to_device(&mut self.driver_features);
        if test_and_push(&mut self.status, DeviceStatus::DriverLaunched).is_ok() {
            Ok(negotiated)
        } else {
            Err(NeogotiateError::SetStatusFailed)
        }
    }

    /// Announces the page size the driver will use for queue addressing;
    /// meaningful on the legacy layout only, whose queues are located by
    /// page-frame number.
    pub fn set_page_size(&mut self, page_size: u32)
        requires
            old(self).version == VERSION_LEGACY,
        ensures
            *final(self) == (Interface { guest_page_size: page_size, ..*old(self) }),
    {
        self.guest_page_size = page_size;
    }

    /// Registers a queue's memory with the device, as the announced wire
    /// version wants it. The queue is selected and its size announced;
    /// then the legacy layout takes the whole area as one page-frame
    /// number at the page size announced earlier, while the modern
    /// layout takes the descriptor table, the driver area (available
    /// ring) and the device area (used ring) as three 64-bit addresses
    /// in halves and flips the ready register.
    pub fn register_queue(&mut self, index: u32, size: u32, desc: u64, driver: u64, device: u64)
        requires
            spec_version_from(old(self).version) is Ok,
            old(self).version == VERSION_LEGACY ==> old(self).guest_page_size > 0 && desc / (
            old(self).guest_page_size as u64) <= 0xffff_ffff,
        ensures
            old(self).version == VERSION_LEGACY ==> *final(self) == (Interface {
                queue_sel: index,
                queue_num: size,
                queue_align: old(self).guest_page_size,
                queue_pfn: (desc / (old(self).guest_page_size as u64)) as u32,
                ..*old(self)
            }),
            old(self).version != VERSION_LEGACY ==> *final(self) == (Interface {
                queue_sel: index,
                queue_num: size,
                queue_desc_low: (desc & 0xffff_ffff) as u32,
                queue_desc_high: (desc >> 32) as u32,
                queue_driver_low: (driver & 0xffff_ffff) as u32,
                queue_driver_high: (driver >> 32) as u32,
                queue_device_low: (device & 0xffff_ffff) as u32,
                queue_device_high: (device >> 32) as u32,
                queue_ready: 1,
                ..*old(self)
            }),
            old(self).version != VERSION_LEGACY ==> {
                &&& final(self).queue_desc_low + final(self).queue_desc_high * 0x1_0000_0000
                    == desc
                &&& final(self).queue_driver_low + final(self).queue_driver_high * 0x1_0000_0000
                    == driver
                &&& final(self).queue_device_low + final(self).queue_device_high * 0x1_0000_0000
                    == device
            },
    {
        self.queue_sel = index;
        self.queue_num = size;
        if self.version == VERSION_LEGACY {
            self.queue_align = self.guest_page_size;
            self.queue_pfn = (desc / (self.guest_page_size as u64)) as u32;
        } else {
            proof {
                assert(desc & 0xffff_ffff <= 0xffff_ffff && desc >> 32 <= 0xffff_ffff && (desc
                    & 0xffff_ffff) + (desc >> 32) * 0x1_0000_0000 == desc) by (bit_vector);
                assert(driver & 0xffff_ffff <= 0xffff_ffff && driver >> 32 <= 0xffff_ffff && (
                driver & 0xffff_ffff) + (driver >> 32) * 0x1_0000_0000 == driver) by (bit_vector);
                assert(device & 0xffff_ffff <= 0xffff_ffff && device >> 32 <= 0xffff_ffff && (
                device & 0xffff_ffff) + (device >> 32) * 0x1_0000_0000 == device) by (bit_vector);
            }
            self.queue_desc_low = (desc & 0xffff_ffff) as u32;
            self.queue_desc_high = (desc >> 32) as u32;
            self.queue_driver_low = (driver & 0xffff_ffff) as u32;
            self.queue_driver_high = (driver >> 32) as u32;
            self.queue_device_low = (device & 0xffff_ffff) as u32;
            self.queue_device_high = (device >> 32) as u32;
            self.queue_ready = 1;
        }
    }

    /// Kicks the device after publishing chains: writes the queue's
    /// index into the notify register. A caller honouring notification
    /// suppression consults the used ring's threshold first and may skip
    /// this write.
    pub fn notify(&mut self, queue: u32)
        ensures
            *final(self) == (Interface { queue_notify: queue, ..*old(self) }),
    {
        self.queue_notify = queue;
    }

    /// Reads the pending interrupt causes. Whether to poll or wait on
    /// them is the caller's choice; this transport only exposes the
    /// register.
    pub fn interrupt_status(&self) -> (r: u32)
        ensures
            r == self.interrupt_status,
    {
        self.interrupt_status
    }

    /// Acknowledges interrupt causes by writing their bits back.
    pub fn ack_interrupt(&mut self, causes: u32)
        ensures
            *final(self) == (Interface { interrupt_ack: causes, ..*old(self) }),
    {
        self.interrupt_ack = causes;
    }
}

} // verus!
