use virtio_drivers::device_status_field::DeviceStatusField;
use virtio_drivers::device_types::net::{MAC, STATUS};
use virtio_drivers::device_types::NetMeta;
use virtio_drivers::feature_bits::FeatureBits;
use virtio_drivers::header::{Error, Header, Magic, Version, MAGIC};
use virtio_drivers::mmio::common::Interface;
use virtio_drivers::{DeviceType, MmioVirtio, NeogotiateError, ProbeError, U32Str};

fn fresh_net_device(version: u32, offered: Vec<u32>, status: u32) -> Interface {
    Interface::new(MAGIC, version, 1, 0x554d_4551, offered, status)
}

#[test]
fn magic_word_is_virt() {
    assert_eq!(U32Str::new("virt").0, MAGIC);
    assert_eq!(MAGIC, u32::from_le_bytes(*b"virt"));
}

#[test]
fn probing_a_foreign_region_never_touches_status() {
    let mut regs = Interface::new(0x0a0b_0c0d, 2, 1, 0, vec![MAC], 15);
    assert_eq!(regs.probe(), Err(ProbeError::InvalidMagic));
    assert_eq!(regs.status.value, DeviceStatusField(15));
    assert_eq!(regs.status.writes, 0);
}

#[test]
fn probe_rejects_unknown_version() {
    let mut regs = Interface::new(MAGIC, 3, 1, 0, vec![MAC], 0);
    assert_eq!(regs.probe(), Err(ProbeError::InvalidVersion));
    assert_eq!(regs.status.writes, 0);
}

#[test]
fn probe_rejects_absent_device() {
    let mut regs = Interface::new(MAGIC, 2, 0, 0, vec![], 0);
    assert_eq!(regs.probe(), Err(ProbeError::NoDevice));
    assert_eq!(regs.status.writes, 0);
}

#[test]
fn probe_rejects_unknown_device_type() {
    let mut regs = Interface::new(MAGIC, 2, 37, 0, vec![], 0);
    assert_eq!(regs.probe(), Err(ProbeError::UnknownType(37)));
    assert_eq!(regs.status.writes, 0);
}

#[test]
fn probe_acknowledges_a_fresh_device() {
    let mut regs = fresh_net_device(2, vec![MAC], 0);
    assert_eq!(regs.probe(), Ok(()));
    assert_eq!(regs.status.value, DeviceStatusField(1));
    assert_eq!(regs.status.writes, 1);
}

#[test]
fn probe_restarts_a_device_left_running() {
    // A previous owner left the device fully initialized: probing clears
    // the field and acknowledges anew.
    let mut regs = fresh_net_device(2, vec![MAC], 15);
    assert_eq!(regs.probe(), Ok(()));
    assert_eq!(regs.status.value, DeviceStatusField(1));
    assert_eq!(regs.status.writes, 2);

    // A device that already acknowledged needs no write at all.
    let mut acked = fresh_net_device(2, vec![MAC], 1);
    assert_eq!(acked.probe(), Ok(()));
    assert_eq!(acked.status.value, DeviceStatusField(1));
    assert_eq!(acked.status.writes, 0);
}

#[test]
fn negotiation_fails_when_a_required_feature_is_missing() {
    // The device offers MAC only; the driver cannot work without MAC and
    // STATUS. Nothing may reach the driver-features registers.
    let mut regs = fresh_net_device(2, vec![MAC], 3);
    let outcome = regs.negotiate(
        FeatureBits(vec![MAC | STATUS]),
        FeatureBits(vec![MAC | STATUS]),
    );
    assert!(matches!(outcome, Err(NeogotiateError::LeakFeature)));
    assert_eq!(regs.driver_features.writes, 0);
    assert_eq!(regs.driver_features.words, vec![0]);
    assert_eq!(regs.status.value, DeviceStatusField(3));
    assert_eq!(regs.status.writes, 0);
}

#[test]
fn negotiation_intersects_offered_and_supported() {
    let offered = MAC | STATUS | 0b100;
    let mut regs = fresh_net_device(2, vec![offered], 3);
    let outcome = regs.negotiate(FeatureBits(vec![MAC]), FeatureBits(vec![MAC | STATUS]));
    match outcome {
        Ok(negotiated) => assert_eq!(negotiated.0, vec![MAC | STATUS]),
        Err(e) => panic!("negotiation failed: {e:?}"),
    }
    assert_eq!(regs.driver_features.words, vec![MAC | STATUS]);
    assert_eq!(regs.driver_features.writes, 1);
    assert_eq!(regs.status.value, DeviceStatusField(11));
}

#[test]
fn negotiation_needs_a_launched_device() {
    // The device is merely acknowledged: the features are written, but
    // the status step is refused and the negotiated row is not handed
    // back.
    let mut regs = fresh_net_device(2, vec![MAC], 1);
    let outcome = regs.negotiate(FeatureBits(vec![MAC]), FeatureBits(vec![MAC]));
    assert!(matches!(outcome, Err(NeogotiateError::SetStatusFailed)));
    assert_eq!(regs.status.value, DeviceStatusField(1));
}

#[test]
fn new_brings_a_modern_device_to_features_ok() {
    let regs = fresh_net_device(2, vec![MAC | STATUS], 0);
    let device = MmioVirtio::<NetMeta>::new(regs).expect("lifecycle must succeed");
    assert!(!device.legacy);
    assert_eq!(device.common().status.value, DeviceStatusField(11));
    assert_eq!(device.common().driver_features.words, vec![MAC | STATUS]);
    // The modern layout does not take a page size.
    assert_eq!(device.common().guest_page_size, 0);
    assert_eq!(device.vendor_id(), U32Str(0x554d_4551));
}

#[test]
fn new_announces_page_size_on_legacy_devices() {
    let regs = fresh_net_device(1, vec![MAC | STATUS], 0);
    let device = MmioVirtio::<NetMeta>::new(regs).expect("lifecycle must succeed");
    assert!(device.legacy);
    assert_eq!(device.common().guest_page_size, 4096);
    assert_eq!(device.common().status.value, DeviceStatusField(11));
}

#[test]
fn new_rejects_a_device_of_another_type() {
    let regs = Interface::new(MAGIC, 2, 2, 0, vec![MAC | STATUS], 0);
    let outcome = MmioVirtio::<NetMeta>::new(regs);
    assert!(matches!(
        outcome,
        Err(ProbeError::TypeMismatch(DeviceType::BlockDevice))
    ));
}

#[test]
fn new_rejects_a_device_that_lacks_required_features() {
    let regs = fresh_net_device(2, vec![STATUS], 0);
    let outcome = MmioVirtio::<NetMeta>::new(regs);
    assert!(matches!(outcome, Err(ProbeError::LeakFeature)));
}

#[test]
fn new_propagates_probe_failures() {
    let bad_magic = Interface::new(0x7472_6977, 2, 1, 0, vec![MAC], 0);
    assert!(matches!(
        MmioVirtio::<NetMeta>::new(bad_magic),
        Err(ProbeError::InvalidMagic)
    ));
    let bad_version = Interface::new(MAGIC, 9, 1, 0, vec![MAC], 0);
    assert!(matches!(
        MmioVirtio::<NetMeta>::new(bad_version),
        Err(ProbeError::InvalidVersion)
    ));
    let nothing_there = Interface::new(MAGIC, 2, 0, 0, vec![], 0);
    assert!(matches!(
        MmioVirtio::<NetMeta>::new(nothing_there),
        Err(ProbeError::NoDevice)
    ));
}

#[test]
fn header_probe_decodes_the_four_words() {
    let header = Header::probe(MAGIC, 2, 1, 0x1af4).expect("header must parse");
    assert_eq!(header.magic_value, Magic(U32Str(MAGIC)));
    assert_eq!(header.version, Version::Normal);
    assert_eq!(header.device_id, DeviceType::NetworkCard);
    assert_eq!(header.vendor_id, U32Str(0x1af4));
}

#[test]
fn header_probe_rejects_each_bad_word() {
    assert_eq!(Header::probe(0, 2, 1, 0), Err(Error::InvalidMagic));
    assert_eq!(Header::probe(MAGIC, 0, 1, 0), Err(Error::InvalidVersion));
    assert_eq!(Header::probe(MAGIC, 3, 1, 0), Err(Error::InvalidVersion));
    assert_eq!(Header::probe(MAGIC, 1, 43, 0), Err(Error::UnknownType(43)));
}

#[test]
fn version_words_decode() {
    assert_eq!(Version::try_from(1), Ok(Version::Legacy));
    assert_eq!(Version::try_from(2), Ok(Version::Normal));
    assert_eq!(Version::try_from(0), Err(0));
    assert_eq!(Version::try_from(3), Err(3));
}

#[test]
fn device_type_codes_decode() {
    assert_eq!(DeviceType::try_from(0), Ok(DeviceType::Reserved));
    assert_eq!(DeviceType::try_from(1), Ok(DeviceType::NetworkCard));
    assert_eq!(DeviceType::try_from(2), Ok(DeviceType::BlockDevice));
    assert_eq!(DeviceType::try_from(4), Ok(DeviceType::EntropySource));
    assert_eq!(DeviceType::try_from(13), Ok(DeviceType::MemoryBalloon));
    assert_eq!(DeviceType::try_from(16), Ok(DeviceType::GpuDevice));
    assert_eq!(DeviceType::try_from(36), Ok(DeviceType::CanDevice));
    assert_eq!(DeviceType::try_from(38), Ok(DeviceType::ParameterServer));
    assert_eq!(DeviceType::try_from(42), Ok(DeviceType::RdmaDevice));
    // The gaps and everything past the table are unknown codes.
    assert_eq!(DeviceType::try_from(14), Err(14));
    assert_eq!(DeviceType::try_from(15), Err(15));
    assert_eq!(DeviceType::try_from(37), Err(37));
    assert_eq!(DeviceType::try_from(43), Err(43));
    assert_eq!(DeviceType::try_from(u32::MAX), Err(u32::MAX));
}

#[test]
fn queue_registration_follows_the_wire_version() {
    // Modern: three 64-bit addresses in halves, then ready.
    let mut modern = fresh_net_device(2, vec![MAC], 0);
    modern.register_queue(0, 256, 0x0001_2345_6789_0000, 0x2_0000_1000, 0x3_0000_2000);
    assert_eq!(modern.queue_sel, 0);
    assert_eq!(modern.queue_num, 256);
    assert_eq!(modern.queue_desc_low, 0x6789_0000);
    assert_eq!(modern.queue_desc_high, 0x0001_2345);
    assert_eq!(modern.queue_driver_low, 0x0000_1000);
    assert_eq!(modern.queue_driver_high, 0x2);
    assert_eq!(modern.queue_device_low, 0x0000_2000);
    assert_eq!(modern.queue_device_high, 0x3);
    assert_eq!(modern.queue_ready, 1);
    assert_eq!(modern.queue_pfn, 0);

    // Legacy: one page-frame number at the announced page size.
    let mut legacy = fresh_net_device(1, vec![MAC], 0);
    legacy.set_page_size(4096);
    legacy.register_queue(1, 128, 0x0080_0000, 0, 0);
    assert_eq!(legacy.queue_sel, 1);
    assert_eq!(legacy.queue_num, 128);
    assert_eq!(legacy.queue_align, 4096);
    assert_eq!(legacy.queue_pfn, 0x0080_0000 / 4096);
    assert_eq!(legacy.queue_ready, 0);
}

#[test]
fn notify_writes_the_queue_index() {
    let mut regs = fresh_net_device(2, vec![MAC], 0);
    regs.notify(3);
    assert_eq!(regs.queue_notify, 3);
}
