//! The device-type codes a register block can announce.

pub mod net;

use vstd::prelude::*;

pub use net::NetMeta;

verus! {

/// The kind of device behind a register block, as announced by its
/// device-id register. Code zero is reserved and means that no device is
/// present at the probed address.
#[derive(Clone, Copy, PartialEq, Eq, Structural, Debug)]
pub enum DeviceType {
    Reserved,
    NetworkCard,
    BlockDevice,
    Console,
    EntropySource,
    MemoryBallooningTraditional,
    IoMemory,
    Rpmsg,
    ScsiHost,
    Transport9P,
    Mac80211Wlan,
    RprocSerial,
    VirtioCaif,
    MemoryBalloon,
    GpuDevice,
    TimerOrClockDevice,
    InputDevice,
    SocketDevice,
    CryptoDevice,
    SignalDistributionModule,
    PstoreDevice,
    IommuDevice,
    MemoryDevice,
    AudioDevice,
    FileSystemDevice,
    PmemDevice,
    RpmbDevice,
    Mac80211HwsimWireSimulationDevice,
    VidioEncoderDevice,
    VidioDecoderDevice,
    ScmiDevice,
    NitroSecureModule,
    I2cAdapter,
    Watchdog,
    CanDevice,
    ParameterServer,
    AudioPolicyDevice,
    BluetoothDevice,
    GpioDevice,
    RdmaDevice,
}

/// Decoding of a raw device-id word: the recognized codes, with every
/// other word handed back as unknown.
pub open spec fn spec_device_type_from(value: u32) -> Result<DeviceType, u32> {
    if value == 0 {
        Ok(DeviceType::Reserved)
    } else if value == 1 {
        Ok(DeviceType::NetworkCard)
    } else if value == 2 {
        Ok(DeviceType::BlockDevice)
    } else if value == 3 {
        Ok(DeviceType::Console)
    } else if value == 4 {
        Ok(DeviceType::EntropySource)
    } else if value == 5 {
        Ok(DeviceType::MemoryBallooningTraditional)
    } else if value == 6 {
        Ok(DeviceType::IoMemory)
    } else if value == 7 {
        Ok(DeviceType::Rpmsg)
    } else if value == 8 {
        Ok(DeviceType::ScsiHost)
    } else if value == 9 {
        Ok(DeviceType::Transport9P)
    } else if value == 10 {
        Ok(DeviceType::Mac80211Wlan)
    } else if value == 11 {
        Ok(DeviceType::RprocSerial)
    } else if value == 12 {
        Ok(DeviceType::VirtioCaif)
    } else if value == 13 {
        Ok(DeviceType::MemoryBalloon)
    } else if value == 16 {
        Ok(DeviceType::GpuDevice)
    } else if value == 17 {
        Ok(DeviceType::TimerOrClockDevice)
    } else if value == 18 {
        Ok(DeviceType::InputDevice)
    } else if value == 19 {
        Ok(DeviceType::SocketDevice)
    } else if value == 20 {
        Ok(DeviceType::CryptoDevice)
    } else if value == 21 {
        Ok(DeviceType::SignalDistributionModule)
    } else if value == 22 {
        Ok(DeviceType::PstoreDevice)
    } else if value == 23 {
        Ok(DeviceType::IommuDevice)
    } else if value == 24 {
        Ok(DeviceType::MemoryDevice)
    } else if value == 25 {
        Ok(DeviceType::AudioDevice)
    } else if value == 26 {
        Ok(DeviceType::FileSystemDevice)
    } else if value == 27 {
        Ok(DeviceType::PmemDevice)
    } else if value == 28 {
        Ok(DeviceType::RpmbDevice)
    } else if value == 29 {
        Ok(DeviceType::Mac80211HwsimWireSimulationDevice)
    } else if value == 30 {
        Ok(DeviceType::VidioEncoderDevice)
    } else if value == 31 {
        Ok(DeviceType::VidioDecoderDevice)
    } else if value == 32 {
        Ok(DeviceType::ScmiDevice)
    } else if value == 33 {
        Ok(DeviceType::NitroSecureModule)
    } else if value == 34 {
        Ok(DeviceType::I2cAdapter)
    } else if value == 35 {
        Ok(DeviceType::Watchdog)
    } else if value == 36 {
        Ok(DeviceType::CanDevice)
    } else if value == 38 {
        Ok(DeviceType::ParameterServer)
    } else if value == 39 {
        Ok(DeviceType::AudioPolicyDevice)
    } else if value == 40 {
        Ok(DeviceType::BluetoothDevice)
    } else if value == 41 {
        Ok(DeviceType::GpioDevice)
    } else if value == 42 {
        Ok(DeviceType::RdmaDevice)
    } else {
        Err(value)
    }
}

impl DeviceType {
    /// Fallible decoding of a raw device-id word; an unrecognized code is
    /// handed back unchanged.
    pub fn try_from(value: u32) -> (r: Result<DeviceType, u32>)
        ensures
            r == spec_device_type_from(value),
    {
        match value {
            0 => Ok(DeviceType::Reserved),
            1 => Ok(DeviceType::NetworkCard),
            2 => Ok(DeviceType::BlockDevice),
            3 => Ok(DeviceType::Console),
            4 => Ok(DeviceType::EntropySource),
            5 => Ok(DeviceType::MemoryBallooningTraditional),
            6 => Ok(DeviceType::IoMemory),
            7 => Ok(DeviceType::Rpmsg),
            8 => Ok(DeviceType::ScsiHost),
            9 => Ok(DeviceType::Transport9P),
            10 => Ok(DeviceType::Mac80211Wlan),
            11 => Ok(DeviceType::RprocSerial),
            12 => Ok(DeviceType::VirtioCaif),
            13 => Ok(DeviceType::MemoryBalloon),
            16 => Ok(DeviceType::GpuDevice),
            17 => Ok(DeviceType::TimerOrClockDevice),
            18 => Ok(DeviceType::InputDevice),
            19 => Ok(DeviceType::SocketDevice),
            20 => Ok(DeviceType::CryptoDevice),
            21 => Ok(DeviceType::SignalDistributionModule),
            22 => Ok(DeviceType::PstoreDevice),
            23 => Ok(DeviceType::IommuDevice),
            24 => Ok(DeviceType::MemoryDevice),
            25 => Ok(DeviceType::AudioDevice),
            26 => Ok(DeviceType::FileSystemDevice),
            27 => Ok(DeviceType::PmemDevice),
            28 => Ok(DeviceType::RpmbDevice),
            29 => Ok(DeviceType::Mac80211HwsimWireSimulationDevice),
            30 => Ok(DeviceType::VidioEncoderDevice),
            31 => Ok(DeviceType::VidioDecoderDevice),
            32 => Ok(DeviceType::ScmiDevice),
            33 => Ok(DeviceType::NitroSecureModule),
            34 => Ok(DeviceType::I2cAdapter),
            35 => Ok(DeviceType::Watchdog),
            36 => Ok(DeviceType::CanDevice),
            38 => Ok(DeviceType::ParameterServer),
            39 => Ok(DeviceType::AudioPolicyDevice),
            40 => Ok(DeviceType::BluetoothDevice),
            41 => Ok(DeviceType::GpioDevice),
            42 => Ok(DeviceType::RdmaDevice),
            _ => Err(value),
        }
    }
}

} // verus!
