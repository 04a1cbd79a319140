//! The memory-mapped transport: probing, binding and bringing up a
//! device of a known type.

pub mod common;

use vstd::prelude::*;

use core::marker::PhantomData;

use crate::device_status_field::{
    lemma_decode_status_bits, spec_try_from, status_bits, DeviceStatus, DeviceStatusField,
    STEP_ACKNOWLEDGED, STEP_DRIVER_LAUNCHED, STEP_FEATURES_OK,
};
use crate::device_types::{spec_device_type_from, DeviceType};
use crate::feature_bits::{and_words, read_words, spec_contains, written_words, FeatureBits};
use crate::header::VERSION_LEGACY;
use crate::U32Str;
use common::{spec_probe_result, Interface};

pub use crate::header::{Magic, Version};

verus! {

/// Why probing or binding a device failed.
#[derive(Clone, Copy, PartialEq, Eq, Structural, Debug)]
pub enum ProbeError {
    /// The first word of the block is not the magic word.
    InvalidMagic,
    /// The version word is neither known encoding.
    InvalidVersion,
    /// The device-id register holds the reserved code: nothing is there.
    NoDevice,
    /// The device-id register holds an unrecognized code, carried along.
    UnknownType(u32),
    /// The block announces a version other than the consumer expected.
    VersionMismatch(Version),
    /// A recognized device of some other type sits behind the block.
    TypeMismatch(DeviceType),
    /// A status handshake step found the device in an unexpected state.
    SetStatusFailed,
    /// The device does not offer a feature the driver cannot work
    /// without.
    LeakFeature,
}

/// Why feature negotiation failed.
#[derive(Clone, Copy, PartialEq, Eq, Structural, Debug)]
pub enum NeogotiateError {
    /// The offered set lacks a required feature.
    LeakFeature,
    /// The device was not in the launched state when the driver tried to
    /// accept the features.
    SetStatusFailed,
}

/// What a driver for one device type knows statically: the type code it
/// binds, the features it cannot work without, and the features it
/// understands. The two rows are of the same width — the width the
/// device type prescribes.
pub trait MmioVirtioMeta {
    /// The device-specific configuration block's layout.
    type Config;

    /// The device type this driver binds.
    spec fn spec_device_type() -> DeviceType;

    /// The feature words the driver cannot work without.
    spec fn spec_minimum_feature_set() -> Seq<u32>;

    /// The feature words the driver understands.
    spec fn spec_supported_feature_set() -> Seq<u32>;

    /// The device type this driver binds.
    fn device_type() -> (t: DeviceType)
        ensures
            t == Self::spec_device_type(),
    ;

    /// The feature row the driver cannot work without.
    fn minimum_feature_set() -> (f: FeatureBits)
        ensures
            f@ == Self::spec_minimum_feature_set(),
            f@.len() == Self::spec_supported_feature_set().len(),
            f@.len() <= 0xffff_ffff,
    ;

    /// The feature row the driver understands.
    fn supported_feature_set() -> (f: FeatureBits)
        ensures
            f@ == Self::spec_supported_feature_set(),
    ;
}

/// A device of type `Meta`, probed, launched and negotiated: the outcome
/// of the whole construction-time lifecycle, ready for queue setup.
pub struct MmioVirtio<Meta> {
    /// The register block, now owned by this handle.
    pub regs: Interface,
    /// Whether the block announced the legacy wire version.
    pub legacy: bool,
    /// Marker tying the handle to its device type.
    pub _meta: PhantomData<Meta>,
}

impl<Meta: MmioVirtioMeta> MmioVirtio<Meta> {
    /// Drives the construction-time lifecycle on a freshly discovered
    /// block: probe and restart the device, check that it is of the type
    /// this driver binds, report the driver present, negotiate features,
    /// and, on the legacy layout, announce the fixed page size. On
    /// success the device has accepted the features and awaits queue
    /// setup; on any failure the reason is handed back and no handle is
    /// produced.
    pub fn new(regs: Interface) -> (r: Result<MmioVirtio<Meta>, ProbeError>)
        ensures
            spec_probe_result(regs.magic_value, regs.version, regs.device_id) matches Err(e)
                ==> r == Err::<MmioVirtio<Meta>, ProbeError>(e),
            spec_probe_result(regs.magic_value, regs.version, regs.device_id) is Ok
                && spec_device_type_from(regs.device_id)->Ok_0 != Meta::spec_device_type() ==> r
                == Err::<MmioVirtio<Meta>, ProbeError>(
                ProbeError::TypeMismatch(spec_device_type_from(regs.device_id)->Ok_0),
            ),
            spec_probe_result(regs.magic_value, regs.version, regs.device_id) is Ok
                && spec_device_type_from(regs.device_id)->Ok_0 == Meta::spec_device_type()
                && !spec_contains(
                read_words(regs.device_features.words@, Meta::spec_minimum_feature_set().len()),
                Meta::spec_minimum_feature_set(),
            ) ==> r == Err::<MmioVirtio<Meta>, ProbeError>(ProbeError::LeakFeature),
            spec_probe_result(regs.magic_value, regs.version, regs.device_id) is Ok
                && spec_device_type_from(regs.device_id)->Ok_0 == Meta::spec_device_type()
                && spec_contains(
                read_words(regs.device_features.words@, Meta::spec_minimum_feature_set().len()),
                Meta::spec_minimum_feature_set(),
            ) ==> (r matches Ok(v) && {
                let offered = read_words(
                    regs.device_features.words@,
                    Meta::spec_minimum_feature_set().len(),
                );
                &&& v.legacy == (regs.version == VERSION_LEGACY)
                &&& v.regs.magic_value == regs.magic_value
                &&& v.regs.version == regs.version
                &&& v.regs.device_id == regs.device_id
                &&& v.regs.vendor_id == regs.vendor_id
                &&& v.regs.device_features.words == regs.device_features.words
                &&& v.regs.driver_features.words@ == written_words(
                    regs.driver_features.words@,
                    and_words(offered, Meta::spec_supported_feature_set()),
                )
                &&& v.regs.status.value.0 == STEP_FEATURES_OK
                &&& v.regs.guest_page_size == if regs.version == VERSION_LEGACY {
                    4096u32
                } else {
                    regs.guest_page_size
                }
            }),
    {
        let mut iface = regs;
        match iface.probe() {
            Err(e) => {
                return Err(e);
            },
            Ok(()) => {},
        }
        let legacy = iface.version == VERSION_LEGACY;
        let device_type = match crate::device_types::DeviceType::try_from(iface.device_id) {
            Ok(t) => t,
            Err(code) => {
                return Err(ProbeError::UnknownType(code));
            },
        };
        if device_type != Meta::device_type() {
            return Err(ProbeError::TypeMismatch(device_type));
        }
        proof {
            lemma_decode_status_bits();
            assert(status_bits(DeviceStatus::Acknowledged) == STEP_ACKNOWLEDGED);
            assert(spec_try_from(DeviceStatusField(STEP_ACKNOWLEDGED)) == Ok::<
                DeviceStatus,
                DeviceStatusField,
            >(DeviceStatus::Acknowledged));
            assert(status_bits(DeviceStatus::DriverLaunched) == STEP_DRIVER_LAUNCHED);
            assert(spec_try_from(DeviceStatusField(STEP_DRIVER_LAUNCHED)) == Ok::<
                DeviceStatus,
                DeviceStatusField,
            >(DeviceStatus::DriverLaunched));
            assert(status_bits(DeviceStatus::FeaturesOK) == STEP_FEATURES_OK);
        }
        if !iface.launch() {
            return Err(ProbeError::SetStatusFailed);
        }
        match iface.negotiate(Meta::minimum_feature_set(), Meta::supported_feature_set()) {
            Ok(_negotiated) => {},
            Err(NeogotiateError::LeakFeature) => {
                return Err(ProbeError::LeakFeature);
            },
            Err(NeogotiateError::SetStatusFailed) => {
                return Err(ProbeError::SetStatusFailed);
            },
        }
        if legacy {
            iface.set_page_size(4096);
        }
        Ok(MmioVirtio { regs: iface, legacy, _meta: PhantomData })
    }

    /// The register block this handle drives.
    pub fn common(&self) -> (r: &Interface)
        ensures
            r == &self.regs,
    {
        &self.regs
    }

    /// The vendor tag the block announced.
    pub fn vendor_id(&self) -> (r: U32Str)
        ensures
            r == U32Str(self.regs.vendor_id),
    {
        U32Str(self.regs.vendor_id)
    }
}

} // verus!
