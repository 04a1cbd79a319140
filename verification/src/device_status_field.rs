//! The device status field and its handshake state machine.
//!
//! The status register accumulates bits as the driver brings a device up:
//! each step of the handshake ORs one more bit into the field, so exactly
//! five words ever encode a healthy device. Two error bits can appear at
//! any time and take priority over the additive chain when decoding. The
//! field is write-accumulate only; the single way to clear it is to write
//! zero, which resets the device.

use vstd::prelude::*;

verus! {

/// Bit acknowledging that the guest has seen the device.
pub const BIT_ACKNOWLEDGE: u32 = 1;

/// Bit reporting that a driver for the device is present.
pub const BIT_DRIVER: u32 = 2;

/// Bit reporting that the driver is fully initialized.
pub const BIT_DRIVER_OK: u32 = 4;

/// Bit reporting that the driver has accepted the negotiated features.
pub const BIT_FEATURES_OK: u32 = 8;

/// Error bit: the device has hit a fault and needs to be reset.
pub const BIT_DEVICE_NEEDS_RESET: u32 = 64;

/// Error bit: the driver has given up on the device.
pub const BIT_FAILED: u32 = 128;

/// Encoding of a device that has not been touched since reset.
pub const STEP_UNINITIALIZED: u32 = 0;

/// Encoding after the guest acknowledges the device.
pub const STEP_ACKNOWLEDGED: u32 = 1;

/// Encoding after the driver reports itself present (adds the driver bit).
pub const STEP_DRIVER_LAUNCHED: u32 = 3;

/// Encoding after feature negotiation succeeds (adds the features-ok bit).
pub const STEP_FEATURES_OK: u32 = 11;

/// Encoding of a fully initialized driver (adds the driver-ok bit).
pub const STEP_DRIVER_OK: u32 = 15;

/// The raw 32-bit word held by the device status register.
#[derive(Clone, Copy, PartialEq, Eq, Structural, Debug)]
pub struct DeviceStatusField(pub u32);

/// The decoded condition of a device, as read from the status field.
#[derive(Clone, Copy, PartialEq, Eq, Structural, Debug)]
pub enum DeviceStatus {
    /// Freshly reset; no handshake step taken yet.
    Uninitialized,
    /// The guest has noticed the device.
    Acknowledged,
    /// A driver for the device is present.
    DriverLaunched,
    /// The driver has accepted a feature set.
    FeaturesOK,
    /// The driver is up; the data path may be used.
    DriverOK,
    /// The driver has given up on the device.
    Failed,
    /// The device has hit a fault and wants a reset.
    DeviceNeedsReset,
}

/// The raw word that encodes a decoded status.
pub open spec fn status_bits(s: DeviceStatus) -> u32 {
    match s {
        DeviceStatus::Uninitialized => STEP_UNINITIALIZED,
        DeviceStatus::Acknowledged => STEP_ACKNOWLEDGED,
        DeviceStatus::DriverLaunched => STEP_DRIVER_LAUNCHED,
        DeviceStatus::FeaturesOK => STEP_FEATURES_OK,
        DeviceStatus::DriverOK => STEP_DRIVER_OK,
        DeviceStatus::Failed => BIT_FAILED,
        DeviceStatus::DeviceNeedsReset => BIT_DEVICE_NEEDS_RESET,
    }
}

/// Decoding of a raw status word. The two error bits are checked first,
/// the reset-request bit ahead of the failure bit; otherwise only the five
/// accumulative encodings are accepted, and anything else is handed back
/// as undecodable.
pub open spec fn spec_try_from(value: DeviceStatusField) -> Result<DeviceStatus, DeviceStatusField> {
    if value.0 & BIT_DEVICE_NEEDS_RESET != 0 {
        Ok(DeviceStatus::DeviceNeedsReset)
    } else if value.0 & BIT_FAILED != 0 {
        Ok(DeviceStatus::Failed)
    } else if value.0 == STEP_UNINITIALIZED {
        Ok(DeviceStatus::Uninitialized)
    } else if value.0 == STEP_ACKNOWLEDGED {
        Ok(DeviceStatus::Acknowledged)
    } else if value.0 == STEP_DRIVER_LAUNCHED {
        Ok(DeviceStatus::DriverLaunched)
    } else if value.0 == STEP_FEATURES_OK {
        Ok(DeviceStatus::FeaturesOK)
    } else if value.0 == STEP_DRIVER_OK {
        Ok(DeviceStatus::DriverOK)
    } else {
        Err(value)
    }
}

/// Whether a status is one the handshake never leaves by advancing:
/// either the driver is fully up, or an error state absorbed it.
pub open spec fn is_terminal(s: DeviceStatus) -> bool {
    match s {
        DeviceStatus::DriverOK | DeviceStatus::Failed | DeviceStatus::DeviceNeedsReset => true,
        _ => false,
    }
}

/// The state that follows a non-terminal state in the handshake chain.
/// Terminal states map to themselves; the handshake never writes them.
pub open spec fn chain_next(s: DeviceStatus) -> DeviceStatus {
    match s {
        DeviceStatus::Uninitialized => DeviceStatus::Acknowledged,
        DeviceStatus::Acknowledged => DeviceStatus::DriverLaunched,
        DeviceStatus::DriverLaunched => DeviceStatus::FeaturesOK,
        DeviceStatus::FeaturesOK => DeviceStatus::DriverOK,
        _ => s,
    }
}

/// What advancing hands back for a given raw word and expectation.
pub open spec fn spec_advance_result(raw: u32, expected: DeviceStatus) -> Result<
    DeviceStatus,
    Result<DeviceStatus, DeviceStatusField>,
> {
    match spec_try_from(DeviceStatusField(raw)) {
        Err(f) => Err(Err(f)),
        Ok(current) => if current != expected {
            Err(Ok(current))
        } else if is_terminal(current) {
            Ok(current)
        } else {
            Ok(chain_next(current))
        },
    }
}

/// Whether advancing writes the status register at all: only when the
/// word decodes, matches the expectation, and is not terminal.
pub open spec fn spec_advance_writes(raw: u32, expected: DeviceStatus) -> bool {
    match spec_try_from(DeviceStatusField(raw)) {
        Ok(current) => current == expected && !is_terminal(current),
        Err(_) => false,
    }
}

/// The raw word held by the register after advancing.
pub open spec fn spec_advance_raw(raw: u32, expected: DeviceStatus) -> u32 {
    match spec_try_from(DeviceStatusField(raw)) {
        Ok(current) => if current == expected && !is_terminal(current) {
            status_bits(chain_next(current))
        } else {
            raw
        },
        Err(_) => raw,
    }
}

impl DeviceStatus {
    /// Fallible decoding of a raw status word; an undecodable word is
    /// handed back unchanged.
    pub fn try_from(value: DeviceStatusField) -> (r: Result<DeviceStatus, DeviceStatusField>)
        ensures
            r == spec_try_from(value),
    {
        if value.0 & BIT_DEVICE_NEEDS_RESET != 0 {
            Ok(DeviceStatus::DeviceNeedsReset)
        } else if value.0 & BIT_FAILED != 0 {
            Ok(DeviceStatus::Failed)
        } else if value.0 == STEP_UNINITIALIZED {
            Ok(DeviceStatus::Uninitialized)
        } else if value.0 == STEP_ACKNOWLEDGED {
            Ok(DeviceStatus::Acknowledged)
        } else if value.0 == STEP_DRIVER_LAUNCHED {
            Ok(DeviceStatus::DriverLaunched)
        } else if value.0 == STEP_FEATURES_OK {
            Ok(DeviceStatus::FeaturesOK)
        } else if value.0 == STEP_DRIVER_OK {
            Ok(DeviceStatus::DriverOK)
        } else {
            Err(value)
        }
    }

    /// The raw word that encodes this status.
    pub fn into_bits(self) -> (r: u32)
        ensures
            r == status_bits(self),
    {
        match self {
            DeviceStatus::Uninitialized => STEP_UNINITIALIZED,
            DeviceStatus::Acknowledged => STEP_ACKNOWLEDGED,
            DeviceStatus::DriverLaunched => STEP_DRIVER_LAUNCHED,
            DeviceStatus::FeaturesOK => STEP_FEATURES_OK,
            DeviceStatus::DriverOK => STEP_DRIVER_OK,
            DeviceStatus::Failed => BIT_FAILED,
            DeviceStatus::DeviceNeedsReset => BIT_DEVICE_NEEDS_RESET,
        }
    }
}

/// A status register together with the count of words written to it.
///
/// This is the driver-side image of the hardware register: reads return
/// the held word, and every write is counted, so that callers can tell a
/// skipped write from a rewrite of the same word.
pub struct StatusRegister {
    /// The word the register currently holds.
    pub value: DeviceStatusField,
    /// How many words have been written to the register (wrapping).
    pub writes: u64,
}

impl StatusRegister {
    /// A register holding the given word, with no writes counted yet.
    pub fn new(value: DeviceStatusField) -> (r: StatusRegister)
        ensures
            r.value == value,
            r.writes == 0,
    {
        StatusRegister { value, writes: 0 }
    }

    /// Reads the held word.
    pub fn read(&self) -> (r: DeviceStatusField)
        ensures
            r == self.value,
    {
        self.value
    }

    /// Writes a word into the register.
    pub fn write(&mut self, value: DeviceStatusField)
        ensures
            final(self).value == value,
            final(self).writes == old(self).writes.wrapping_add(1),
    {
        self.value = value;
        self.writes = self.writes.wrapping_add(1);
    }

    /// Writes raw zero: the only way to clear the accumulated bits, and
    /// the recovery primitive a caller invokes deliberately.
    pub fn reset(&mut self)
        ensures
            final(self).value.0 == STEP_UNINITIALIZED,
            final(self).writes == old(self).writes.wrapping_add(1),
    {
        self.write(DeviceStatusField(STEP_UNINITIALIZED));
    }
}

/// The decision taken after reading the raw status word: the outcome to
/// hand back, and the word to write into the register, if any. A caller
/// driving a real device performs the read, takes this decision, and
/// performs the write exactly when one is handed back.
pub fn advance_decision(current: DeviceStatusField, expected: DeviceStatus) -> (r: (
    Result<DeviceStatus, Result<DeviceStatus, DeviceStatusField>>,
    Option<DeviceStatusField>,
))
    ensures
        r.0 == spec_advance_result(current.0, expected),
        r.1 == if spec_advance_writes(current.0, expected) {
            Some(DeviceStatusField(spec_advance_raw(current.0, expected)))
        } else {
            None::<DeviceStatusField>
        },
{
    match DeviceStatus::try_from(current) {
        Err(f) => (Err(Err(f)), None),
        Ok(cur) => {
            if cur != expected {
                (Err(Ok(cur)), None)
            } else {
                match cur {
                    DeviceStatus::DriverOK | DeviceStatus::Failed | DeviceStatus::DeviceNeedsReset => (
                        Ok(cur),
                        None,
                    ),
                    DeviceStatus::Uninitialized => (
                        Ok(DeviceStatus::Acknowledged),
                        Some(DeviceStatusField(STEP_ACKNOWLEDGED)),
                    ),
                    DeviceStatus::Acknowledged => (
                        Ok(DeviceStatus::DriverLaunched),
                        Some(DeviceStatusField(STEP_DRIVER_LAUNCHED)),
                    ),
                    DeviceStatus::DriverLaunched => (
                        Ok(DeviceStatus::FeaturesOK),
                        Some(DeviceStatusField(STEP_FEATURES_OK)),
                    ),
                    DeviceStatus::FeaturesOK => (
                        Ok(DeviceStatus::DriverOK),
                        Some(DeviceStatusField(STEP_DRIVER_OK)),
                    ),
                }
            }
        },
    }
}

/// If the register holds the expected status, pushes the device to the
/// next state of the handshake chain. A terminal state that matches the
/// expectation is handed back as-is, without a write; a decoded state
/// other than the expected one, or an undecodable word, is handed back as
/// the error, also without a write.
pub fn test_and_push(status: &mut StatusRegister, expected: DeviceStatus) -> (r: Result<
    DeviceStatus,
    Result<DeviceStatus, DeviceStatusField>,
>)
    ensures
        r == spec_advance_result(old(status).value.0, expected),
        final(status).value.0 == spec_advance_raw(old(status).value.0, expected),
        spec_advance_writes(old(status).value.0, expected) ==> final(status).writes == old(
            status,
        ).writes.wrapping_add(1),
        !spec_advance_writes(old(status).value.0, expected) ==> *final(status) == *old(status),
{
    let current = status.read();
    let (result, write) = advance_decision(current, expected);
    match write {
        Some(field) => status.write(field),
        None => (),
    }
    result
}

/// The raw word after a whole sequence of advance attempts, each handing
/// in the next expectation of the sequence.
pub open spec fn run_status(raw: u32, expected_seq: Seq<DeviceStatus>) -> u32
    decreases expected_seq.len(),
{
    if expected_seq.len() == 0 {
        raw
    } else {
        run_status(spec_advance_raw(raw, expected_seq[0]), expected_seq.skip(1))
    }
}

/// The states written to the register over a sequence of advance
/// attempts, in the order they are written.
pub open spec fn writes_in_run(raw: u32, expected_seq: Seq<DeviceStatus>) -> Seq<DeviceStatus>
    decreases expected_seq.len(),
{
    if expected_seq.len() == 0 {
        seq![]
    } else {
        (if spec_advance_writes(raw, expected_seq[0]) {
            seq![chain_next(expected_seq[0])]
        } else {
            seq![]
        }) + writes_in_run(spec_advance_raw(raw, expected_seq[0]), expected_seq.skip(1))
    }
}

/// The handshake chain by position: the five healthy states in order.
pub open spec fn chain_state(p: int) -> DeviceStatus {
    if p <= 0 {
        DeviceStatus::Uninitialized
    } else if p == 1 {
        DeviceStatus::Acknowledged
    } else if p == 2 {
        DeviceStatus::DriverLaunched
    } else if p == 3 {
        DeviceStatus::FeaturesOK
    } else {
        DeviceStatus::DriverOK
    }
}

/// The chain position reached from position `p` after a sequence of
/// advance attempts: an attempt moves one step up exactly when it hands
/// in the state at the current position and the chain has not ended.
pub open spec fn chain_run_pos(p: int, expected_seq: Seq<DeviceStatus>) -> int
    decreases expected_seq.len(),
{
    if expected_seq.len() == 0 {
        p
    } else {
        chain_run_pos(
            if expected_seq[0] == chain_state(p) && p < 4 {
                p + 1
            } else {
                p
            },
            expected_seq.skip(1),
        )
    }
}

/// The chain states at positions `lo .. hi`, in order.
pub open spec fn chain_seq(lo: int, hi: int) -> Seq<DeviceStatus> {
    Seq::new(
        if hi >= lo {
            (hi - lo) as nat
        } else {
            0
        },
        |k: int| chain_state(lo + k),
    )
}

/// Each of the seven valid encodings decodes back to the status that
/// produced it.
pub proof fn lemma_decode_status_bits()
    ensures
        forall|s: DeviceStatus| #[trigger] spec_try_from(DeviceStatusField(status_bits(s))) == Ok::<
            DeviceStatus,
            DeviceStatusField,
        >(s),
{
    assert(0u32 & 64 == 0 && 0u32 & 128 == 0 && 1u32 & 64 == 0 && 1u32 & 128 == 0 && 3u32 & 64 == 0
        && 3u32 & 128 == 0 && 11u32 & 64 == 0 && 11u32 & 128 == 0 && 15u32 & 64 == 0 && 15u32 & 128
        == 0 && 64u32 & 64 != 0 && 128u32 & 64 == 0 && 128u32 & 128 != 0) by (bit_vector);
    assert forall|s: DeviceStatus| #[trigger] spec_try_from(DeviceStatusField(status_bits(s)))
        == Ok::<DeviceStatus, DeviceStatusField>(s) by {
        match s {
            DeviceStatus::Uninitialized => {},
            DeviceStatus::Acknowledged => {},
            DeviceStatus::DriverLaunched => {},
            DeviceStatus::FeaturesOK => {},
            DeviceStatus::DriverOK => {},
            DeviceStatus::Failed => {},
            DeviceStatus::DeviceNeedsReset => {},
        }
    }
}

/// Running a sequence of advance attempts from a chain state stays on the
/// chain, never moves backwards, and writes exactly the chain states it
/// passes, in order.
proof fn lemma_chain_run(p: int, expected_seq: Seq<DeviceStatus>)
    requires
        0 <= p <= 4,
    ensures
        p <= chain_run_pos(p, expected_seq) <= 4,
        run_status(status_bits(chain_state(p)), expected_seq) == status_bits(
            chain_state(chain_run_pos(p, expected_seq)),
        ),
        writes_in_run(status_bits(chain_state(p)), expected_seq) =~= chain_seq(
            p + 1,
            chain_run_pos(p, expected_seq) + 1,
        ),
    decreases expected_seq.len(),
{
    lemma_decode_status_bits();
    if expected_seq.len() == 0 {
    } else {
        let e = expected_seq[0];
        let raw = status_bits(chain_state(p));
        let rest = expected_seq.skip(1);
        if e == chain_state(p) && p < 4 {
            assert(chain_next(chain_state(p)) == chain_state(p + 1));
            lemma_chain_run(p + 1, rest);
            let q = chain_run_pos(p + 1, rest);
            assert(writes_in_run(raw, expected_seq) =~= seq![chain_state(p + 1)] + chain_seq(
                p + 2,
                q + 1,
            ));
            assert(seq![chain_state(p + 1)] + chain_seq(p + 2, q + 1) =~= chain_seq(p + 1, q + 1));
        } else {
            assert(!spec_advance_writes(raw, e));
            assert(spec_advance_raw(raw, e) == raw);
            lemma_chain_run(p, rest);
        }
    }
}

/// From a freshly reset status word, the driver-ready encoding is reached
/// only by acknowledging, launching the driver, accepting the features and
/// reporting readiness, in exactly that order: whenever a run of advance
/// attempts ends on the driver-ready encoding, the register saw exactly
/// those four writes. An attempt handing in any other expectation is a
/// mismatch and writes nothing.
pub proof fn lemma_driver_ok_only_in_order(expected_seq: Seq<DeviceStatus>)
    ensures
        spec_try_from(DeviceStatusField(run_status(STEP_UNINITIALIZED, expected_seq))) == Ok::<
            DeviceStatus,
            DeviceStatusField,
        >(DeviceStatus::DriverOK) ==> writes_in_run(STEP_UNINITIALIZED, expected_seq) =~= seq![
            DeviceStatus::Acknowledged,
            DeviceStatus::DriverLaunched,
            DeviceStatus::FeaturesOK,
            DeviceStatus::DriverOK,
        ],
{
    lemma_decode_status_bits();
    assert(status_bits(chain_state(0)) == STEP_UNINITIALIZED);
    lemma_chain_run(0, expected_seq);
    let q = chain_run_pos(0, expected_seq);
    if spec_try_from(DeviceStatusField(run_status(STEP_UNINITIALIZED, expected_seq))) == Ok::<
        DeviceStatus,
        DeviceStatusField,
    >(DeviceStatus::DriverOK) {
        assert(spec_try_from(DeviceStatusField(status_bits(chain_state(q)))) == Ok::<
            DeviceStatus,
            DeviceStatusField,
        >(chain_state(q)));
        assert(chain_state(q) == DeviceStatus::DriverOK);
        assert(q == 4);
        assert(writes_in_run(STEP_UNINITIALIZED, expected_seq) =~= chain_seq(1, 5));
        assert(chain_seq(1, 5) =~= seq![
            DeviceStatus::Acknowledged,
            DeviceStatus::DriverLaunched,
            DeviceStatus::FeaturesOK,
            DeviceStatus::DriverOK,
        ]);
    }
}

/// Once the status word holds a terminal encoding, advancing never
/// changes it and never writes, whatever the caller expected; when the
/// expectation matches, the terminal state itself is handed back, so
/// repeated advance calls are idempotent.
pub proof fn lemma_terminal_advance_never_writes(raw: u32, expected: DeviceStatus)
    requires
        spec_try_from(DeviceStatusField(raw)) matches Ok(s) && is_terminal(s),
    ensures
        spec_advance_raw(raw, expected) == raw,
        !spec_advance_writes(raw, expected),
        spec_try_from(DeviceStatusField(raw)) == Ok::<DeviceStatus, DeviceStatusField>(expected)
            ==> spec_advance_result(raw, expected) == Ok::<
            DeviceStatus,
            Result<DeviceStatus, DeviceStatusField>,
        >(expected),
{
}

} // verus!
