use virtio_drivers::device_status_field::{
    advance_decision, test_and_push, DeviceStatus, DeviceStatusField, StatusRegister,
};

#[test]
fn walks_the_whole_handshake_chain() {
    let mut status = StatusRegister::new(DeviceStatusField(0));

    assert_eq!(
        test_and_push(&mut status, DeviceStatus::Uninitialized),
        Ok(DeviceStatus::Acknowledged)
    );
    assert_eq!(status.value, DeviceStatusField(1));

    assert_eq!(
        test_and_push(&mut status, DeviceStatus::Acknowledged),
        Ok(DeviceStatus::DriverLaunched)
    );
    assert_eq!(status.value, DeviceStatusField(3));

    assert_eq!(
        test_and_push(&mut status, DeviceStatus::DriverLaunched),
        Ok(DeviceStatus::FeaturesOK)
    );
    assert_eq!(status.value, DeviceStatusField(11));

    assert_eq!(
        test_and_push(&mut status, DeviceStatus::FeaturesOK),
        Ok(DeviceStatus::DriverOK)
    );
    assert_eq!(status.value, DeviceStatusField(15));
    assert_eq!(status.writes, 4);
}

#[test]
fn failed_device_never_sees_a_write() {
    let mut status = StatusRegister::new(DeviceStatusField(128));

    assert_eq!(
        test_and_push(&mut status, DeviceStatus::Failed),
        Ok(DeviceStatus::Failed)
    );
    assert_eq!(status.value, DeviceStatusField(128));
    assert_eq!(status.writes, 0);

    // An expectation other than the decoded state is a mismatch, and
    // still no write reaches the register.
    assert_eq!(
        test_and_push(&mut status, DeviceStatus::Uninitialized),
        Err(Ok(DeviceStatus::Failed))
    );
    assert_eq!(
        test_and_push(&mut status, DeviceStatus::DriverOK),
        Err(Ok(DeviceStatus::Failed))
    );
    assert_eq!(status.value, DeviceStatusField(128));
    assert_eq!(status.writes, 0);
}

#[test]
fn terminal_states_are_idempotent() {
    let mut status = StatusRegister::new(DeviceStatusField(15));
    assert_eq!(
        test_and_push(&mut status, DeviceStatus::DriverOK),
        Ok(DeviceStatus::DriverOK)
    );
    assert_eq!(
        test_and_push(&mut status, DeviceStatus::DriverOK),
        Ok(DeviceStatus::DriverOK)
    );
    assert_eq!(status.value, DeviceStatusField(15));
    assert_eq!(status.writes, 0);

    let mut needs_reset = StatusRegister::new(DeviceStatusField(64));
    assert_eq!(
        test_and_push(&mut needs_reset, DeviceStatus::DeviceNeedsReset),
        Ok(DeviceStatus::DeviceNeedsReset)
    );
    assert_eq!(needs_reset.value, DeviceStatusField(64));
    assert_eq!(needs_reset.writes, 0);
}

#[test]
fn out_of_order_expectation_is_a_mismatch() {
    let mut status = StatusRegister::new(DeviceStatusField(1));
    assert_eq!(
        test_and_push(&mut status, DeviceStatus::DriverLaunched),
        Err(Ok(DeviceStatus::Acknowledged))
    );
    assert_eq!(status.value, DeviceStatusField(1));
    assert_eq!(status.writes, 0);
}

#[test]
fn undecodable_word_is_handed_back() {
    let mut status = StatusRegister::new(DeviceStatusField(5));
    assert_eq!(
        test_and_push(&mut status, DeviceStatus::Uninitialized),
        Err(Err(DeviceStatusField(5)))
    );
    assert_eq!(status.value, DeviceStatusField(5));
    assert_eq!(status.writes, 0);
}

#[test]
fn decodes_the_five_chain_encodings() {
    assert_eq!(
        DeviceStatus::try_from(DeviceStatusField(0)),
        Ok(DeviceStatus::Uninitialized)
    );
    assert_eq!(
        DeviceStatus::try_from(DeviceStatusField(1)),
        Ok(DeviceStatus::Acknowledged)
    );
    assert_eq!(
        DeviceStatus::try_from(DeviceStatusField(3)),
        Ok(DeviceStatus::DriverLaunched)
    );
    assert_eq!(
        DeviceStatus::try_from(DeviceStatusField(11)),
        Ok(DeviceStatus::FeaturesOK)
    );
    assert_eq!(
        DeviceStatus::try_from(DeviceStatusField(15)),
        Ok(DeviceStatus::DriverOK)
    );
}

#[test]
fn error_bits_take_priority_when_decoding() {
    assert_eq!(
        DeviceStatus::try_from(DeviceStatusField(128)),
        Ok(DeviceStatus::Failed)
    );
    assert_eq!(
        DeviceStatus::try_from(DeviceStatusField(64)),
        Ok(DeviceStatus::DeviceNeedsReset)
    );
    // The reset-request bit wins over the failure bit.
    assert_eq!(
        DeviceStatus::try_from(DeviceStatusField(192)),
        Ok(DeviceStatus::DeviceNeedsReset)
    );
    // Error bits beat an otherwise valid chain encoding.
    assert_eq!(
        DeviceStatus::try_from(DeviceStatusField(128 | 3)),
        Ok(DeviceStatus::Failed)
    );
}

#[test]
fn non_accumulative_words_are_invalid() {
    for raw in [2u32, 4, 5, 7, 8, 9, 10, 12, 13, 14, 16, 31, 256] {
        assert_eq!(
            DeviceStatus::try_from(DeviceStatusField(raw)),
            Err(DeviceStatusField(raw)),
            "raw {raw} must not decode"
        );
    }
}

#[test]
fn encodes_every_status() {
    assert_eq!(DeviceStatus::Uninitialized.into_bits(), 0);
    assert_eq!(DeviceStatus::Acknowledged.into_bits(), 1);
    assert_eq!(DeviceStatus::DriverLaunched.into_bits(), 3);
    assert_eq!(DeviceStatus::FeaturesOK.into_bits(), 11);
    assert_eq!(DeviceStatus::DriverOK.into_bits(), 15);
    assert_eq!(DeviceStatus::Failed.into_bits(), 128);
    assert_eq!(DeviceStatus::DeviceNeedsReset.into_bits(), 64);
}

#[test]
fn decision_says_what_to_write() {
    let (outcome, write) =
        advance_decision(DeviceStatusField(3), DeviceStatus::DriverLaunched);
    assert_eq!(outcome, Ok(DeviceStatus::FeaturesOK));
    assert_eq!(write, Some(DeviceStatusField(11)));

    let (outcome, write) = advance_decision(DeviceStatusField(15), DeviceStatus::DriverOK);
    assert_eq!(outcome, Ok(DeviceStatus::DriverOK));
    assert_eq!(write, None);

    let (outcome, write) = advance_decision(DeviceStatusField(6), DeviceStatus::Acknowledged);
    assert_eq!(outcome, Err(Err(DeviceStatusField(6))));
    assert_eq!(write, None);
}

#[test]
fn reset_writes_zero_once() {
    let mut status = StatusRegister::new(DeviceStatusField(77));
    status.reset();
    assert_eq!(status.value, DeviceStatusField(0));
    assert_eq!(status.writes, 1);
}
