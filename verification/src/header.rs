//! The identification header at the head of every register block.
//!
//! The first four 32-bit registers of a block name what sits behind it: a
//! fixed magic word, a wire-protocol version, a device-type code and a
//! vendor tag. A prober must read them in address order — reading an
//! unexpected register of a foreign block out of order risks side
//! effects on real hardware — and validate each before touching any
//! other register.

use vstd::prelude::*;

use crate::device_types::{spec_device_type_from, DeviceType};
use crate::U32Str;

verus! {

/// The magic word every register block of this transport carries: the
/// four ASCII bytes of `virt`, packed low byte first.
pub const MAGIC: u32 = 0x7472_6976;

/// The raw version word of the legacy wire protocol.
pub const VERSION_LEGACY: u32 = 1;

/// The raw version word of the modern wire protocol.
pub const VERSION_NORMAL: u32 = 2;

/// The magic register's word, once validated.
#[derive(Clone, Copy, PartialEq, Eq, Structural, Debug)]
pub struct Magic(pub U32Str);

/// The wire-protocol version a block announces. The two versions lay
/// their registers out differently from the queue registers onward.
#[derive(Clone, Copy, PartialEq, Eq, Structural, Debug)]
pub enum Version {
    /// The first, page-frame-number based layout.
    Legacy,
    /// The current layout, with split 64-bit queue addresses.
    Normal,
}

/// Decoding of a raw version word; only the two known encodings are
/// accepted.
pub open spec fn spec_version_from(value: u32) -> Result<Version, u32> {
    if value == VERSION_LEGACY {
        Ok(Version::Legacy)
    } else if value == VERSION_NORMAL {
        Ok(Version::Normal)
    } else {
        Err(value)
    }
}

impl Version {
    /// Fallible decoding of a raw version word.
    pub fn try_from(value: u32) -> (r: Result<Version, u32>)
        ensures
            r == spec_version_from(value),
    {
        if value == VERSION_LEGACY {
            Ok(Version::Legacy)
        } else if value == VERSION_NORMAL {
            Ok(Version::Normal)
        } else {
            Err(value)
        }
    }
}

/// The decoded identification header of a register block.
#[derive(Clone, Copy, PartialEq, Eq, Structural, Debug)]
pub struct Header {
    /// The validated magic word.
    pub magic_value: Magic,
    /// The wire-protocol version the block announces.
    pub version: Version,
    /// The device type behind the block.
    pub device_id: DeviceType,
    /// The vendor tag, taken as it stands.
    pub vendor_id: U32Str,
}

/// Why a candidate register block was rejected.
#[derive(Clone, Copy, PartialEq, Eq, Structural, Debug)]
pub enum Error {
    /// The first word is not the magic word.
    InvalidMagic,
    /// The version word is neither known encoding.
    InvalidVersion,
    /// The device-id word is not a recognized code; it is carried along.
    UnknownType(u32),
}

/// Whether four raw header words identify a device this transport can
/// drive.
pub open spec fn spec_header_ok(magic_value: u32, version: u32, device_id: u32) -> bool {
    &&& magic_value == MAGIC
    &&& spec_version_from(version) is Ok
    &&& spec_device_type_from(device_id) is Ok
}

impl Header {
    /// Validates the first four words of a candidate register block,
    /// handed in the order they were read: the magic word first, then the
    /// version, the device id, and the vendor tag, which is taken as it
    /// stands.
    pub fn probe(magic_value: u32, version: u32, device_id: u32, vendor_id: u32) -> (r: Result<
        Header,
        Error,
    >)
        ensures
            magic_value != MAGIC ==> r == Err::<Header, Error>(Error::InvalidMagic),
            magic_value == MAGIC && spec_version_from(version) is Err ==> r == Err::<
                Header,
                Error,
            >(Error::InvalidVersion),
            magic_value == MAGIC && spec_version_from(version) is Ok && spec_device_type_from(
                device_id,
            ) is Err ==> r == Err::<Header, Error>(Error::UnknownType(device_id)),
            spec_header_ok(magic_value, version, device_id) ==> r == Ok::<Header, Error>(
                (Header {
                    magic_value: Magic(U32Str(magic_value)),
                    version: spec_version_from(version)->Ok_0,
                    device_id: spec_device_type_from(device_id)->Ok_0,
                    vendor_id: U32Str(vendor_id),
                }),
            ),
    {
        if magic_value != MAGIC {
            return Err(Error::InvalidMagic);
        }
        let version = match Version::try_from(version) {
            Ok(v) => v,
            Err(_) => {
                return Err(Error::InvalidVersion);
            },
        };
        let device_id = match DeviceType::try_from(device_id) {
            Ok(t) => t,
            Err(code) => {
                return Err(Error::UnknownType(code));
            },
        };
        Ok(Header { magic_value: Magic(U32Str(magic_value)), version, device_id, vendor_id: U32Str(vendor_id) })
    }
}

} // verus!
