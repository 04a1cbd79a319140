//! The network device type: its feature bits and configuration block.

use vstd::prelude::*;

use crate::device_types::DeviceType;
use crate::feature_bits::FeatureBits;
use crate::mmio::MmioVirtioMeta;

verus! {

/// Feature bit: the device can checksum packets on behalf of the driver.
pub const CSUM: u32 = 1;

/// Feature bit: the driver may hand over packets with partial checksums.
pub const GUEST_CSUM: u32 = 2;

/// Feature bit: control channel offload reconfiguration.
pub const CTRL_GUEST_OFFLOADS: u32 = 4;

/// Feature bit: the device reports a maximum transmission unit.
pub const MTU: u32 = 8;

/// Feature bit: the device has a fixed hardware address.
pub const MAC: u32 = 32;

/// Feature bit: the driver can receive TSOv4 frames.
pub const GUEST_TSO4: u32 = 128;

/// Feature bit: the driver can receive TSOv6 frames.
pub const GUEST_TSO6: u32 = 256;

/// Feature bit: the driver can receive TSO frames with ECN.
pub const GUEST_ECN: u32 = 512;

/// Feature bit: the driver can receive UFO frames.
pub const GUEST_UFO: u32 = 1024;

/// Feature bit: the device can receive TSOv4 frames.
pub const HOST_TSO4: u32 = 2048;

/// Feature bit: the device can receive TSOv6 frames.
pub const HOST_TSO6: u32 = 4096;

/// Feature bit: the device can receive TSO frames with ECN.
pub const HOST_ECN: u32 = 8192;

/// Feature bit: the device can receive UFO frames.
pub const HOST_UFO: u32 = 16384;

/// Feature bit: the driver can merge receive buffers.
pub const MRG_RXBUF: u32 = 32768;

/// Feature bit: the configuration block carries a link-status word.
pub const STATUS: u32 = 65536;

/// Feature bit: the device has a control virtqueue.
pub const CTRL_VQ: u32 = 131072;

/// Feature bit: the control channel supports receive-mode commands.
pub const CTRL_RX: u32 = 262144;

/// Feature bit: the control channel supports VLAN filtering.
pub const CTRL_VLAN: u32 = 524288;

/// Feature bit: the driver can send gratuitous announcement packets.
pub const GUEST_ANNOUNCE: u32 = 2097152;

/// Feature bit: the device supports more than one virtqueue pair.
pub const MQ: u32 = 4194304;

/// Feature bit: the control channel can set the hardware address.
pub const CTRL_MAC_ADDR: u32 = 8388608;

/// A network device's tag.
pub struct NetMeta;

impl MmioVirtioMeta for NetMeta {
    type Config = Config;

    open spec fn spec_device_type() -> DeviceType {
        DeviceType::NetworkCard
    }

    open spec fn spec_minimum_feature_set() -> Seq<u32> {
        seq![MAC]
    }

    open spec fn spec_supported_feature_set() -> Seq<u32> {
        seq![MAC | STATUS]
    }

    fn device_type() -> (t: DeviceType) {
        DeviceType::NetworkCard
    }

    fn minimum_feature_set() -> (f: FeatureBits) {
        let mut words: Vec<u32> = Vec::new();
        words.push(MAC);
        assert(words@ =~= seq![MAC]);
        FeatureBits(words)
    }

    fn supported_feature_set() -> (f: FeatureBits) {
        let mut words: Vec<u32> = Vec::new();
        words.push(MAC | STATUS);
        assert(words@ =~= seq![MAC | STATUS]);
        FeatureBits(words)
    }
}

/// The device-specific configuration block of a network device, as laid
/// out past the common registers.
pub struct Config {
    /// The hardware address, valid when the MAC feature was offered.
    pub mac: [u8; 6],
    /// Link status bits, valid when the STATUS feature was negotiated.
    pub status: u16,
    /// How many virtqueue pairs the device supports.
    pub max_virtqueue_pairs: u16,
    /// The maximum transmission unit the device advises.
    pub mtu: u16,
    /// Link speed in megabits per second.
    pub speed: u32,
    /// Duplex state of the link.
    pub duplex: u8,
    /// The widest key the receive-side-scaling hash accepts.
    pub rss_max_key_size: u8,
    /// The longest indirection table receive-side scaling supports.
    pub rss_max_indirection_table_length: u16,
    /// Which hash types the device can compute.
    pub supported_hash_types: u32,
}

} // verus!
