use virtio_drivers::feature_bits::{FeatureBits, WindowBank};

#[test]
fn containment_is_wordwise() {
    let offered = FeatureBits(vec![0b1011, 0b0110]);
    assert!(offered.contains(FeatureBits(vec![0b0011, 0b0100])));
    assert!(offered.contains(FeatureBits(vec![0, 0])));
    assert!(!offered.contains(FeatureBits(vec![0b0100, 0])));
    assert!(!offered.contains(FeatureBits(vec![0b1011, 0b1000])));
}

#[test]
fn intersection_is_wordwise() {
    let offered = FeatureBits(vec![0xff00_ff00, 0x0000_ffff]);
    let supported = FeatureBits(vec![0xf0f0_f0f0, 0x1234_5678]);
    let negotiated = offered.intersect(&supported);
    assert_eq!(negotiated.0, vec![0xf000_f000, 0x0000_5678]);
}

#[test]
fn window_write_then_read_round_trips() {
    let row = FeatureBits(vec![0xdead_beef, 0x1234_5678, 0, 0xffff_ffff]);
    let mut bank = WindowBank::new(vec![0, 0, 0, 0]);
    row.write_to_device(&mut bank);
    let back = FeatureBits::read_from_device(4, &mut bank);
    assert_eq!(back.0, vec![0xdead_beef, 0x1234_5678, 0, 0xffff_ffff]);
}

#[test]
fn reading_past_the_bank_yields_zero_windows() {
    let mut bank = WindowBank::new(vec![7, 9]);
    let row = FeatureBits::read_from_device(4, &mut bank);
    assert_eq!(row.0, vec![7, 9, 0, 0]);
    assert_eq!(bank.writes, 0);
    assert_eq!(bank.words, vec![7, 9]);
}

#[test]
fn every_window_write_is_counted() {
    let row = FeatureBits(vec![1, 2, 3]);
    let mut bank = WindowBank::new(vec![0, 0, 0]);
    row.write_to_device(&mut bank);
    assert_eq!(bank.writes, 3);
    assert_eq!(bank.words, vec![1, 2, 3]);
}

#[test]
fn writes_past_the_bank_change_no_backing_word() {
    let row = FeatureBits(vec![5, 6, 7]);
    let mut bank = WindowBank::new(vec![0]);
    row.write_to_device(&mut bank);
    assert_eq!(bank.words, vec![5]);
    // The extra writes still went out on the bus and are counted.
    assert_eq!(bank.writes, 3);
}

#[test]
fn select_moves_the_window() {
    let mut bank = WindowBank::new(vec![10, 20, 30]);
    assert_eq!(bank.read(), 10);
    bank.select(2);
    assert_eq!(bank.read(), 30);
    bank.select(5);
    assert_eq!(bank.read(), 0);
    bank.select(1);
    bank.write(21);
    assert_eq!(bank.read(), 21);
    assert_eq!(bank.words, vec![10, 21, 30]);
    assert_eq!(bank.writes, 1);
}
