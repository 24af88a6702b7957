//! Decoded views of the AL Control and AL Status registers, and the
//! vendor-independent AL status code table.

use vstd::prelude::*;

use crate::subdevice::ECState;

verus! {

/// Decoding of a state nibble: the five valid encodings, or the raw nibble.
pub open spec fn spec_state_of_nibble(n: u8) -> Result<ECState, u8> {
    if n == 0x01 {
        Ok(ECState::Init)
    } else if n == 0x02 {
        Ok(ECState::PreOp)
    } else if n == 0x03 {
        Ok(ECState::Bootstrap)
    } else if n == 0x04 {
        Ok(ECState::SafeOp)
    } else if n == 0x08 {
        Ok(ECState::Op)
    } else {
        Err(n)
    }
}

/// What `AlControl::new` decodes out of a raw AL Control byte.
pub open spec fn spec_al_control(b: u8) -> AlControl {
    AlControl { state: spec_state_of_nibble(b & 0x0F), acknowledge: (b & 0x10) != 0 }
}

/// What `AlStatus::new` decodes out of a raw AL Status byte.
pub open spec fn spec_al_status(b: u8) -> AlStatus {
    AlStatus { state: spec_state_of_nibble(b & 0x0F), error: (b & 0x10) != 0 }
}

/// The AL Control byte: requested state in the low nibble, acknowledge flag
/// in bit 4.
#[derive(Debug, Clone, Copy, PartialEq, Eq)]
pub struct AlControl {
    /// The requested state, or the raw nibble when it decodes to no state.
    pub state: Result<ECState, u8>,
    /// The acknowledge / error-reset flag (bit 4).
    pub acknowledge: bool,
}

impl AlControl {
    /// Decode a raw AL Control byte.
    pub fn new(al_control: u8) -> (r: AlControl)
        ensures
            r == spec_al_control(al_control),
    {
        let nibble = al_control & 0x0F;
        let state: Result<ECState, u8> = if nibble == 0x01 {
            Ok(ECState::Init)
        } else if nibble == 0x02 {
            Ok(ECState::PreOp)
        } else if nibble == 0x03 {
            Ok(ECState::Bootstrap)
        } else if nibble == 0x04 {
            Ok(ECState::SafeOp)
        } else if nibble == 0x08 {
            Ok(ECState::Op)
        } else {
            Err(nibble)
        };
        let acknowledge = (al_control & 0x10) != 0;
        AlControl { state, acknowledge }
    }
}

/// The AL Status byte: current state in the low nibble, error flag in bit 4.
#[derive(Debug, Clone, Copy, PartialEq, Eq)]
pub struct AlStatus {
    /// The current state, or the raw nibble when it decodes to no state.
    pub state: Result<ECState, u8>,
    /// The error flag (bit 4).
    pub error: bool,
}

impl AlStatus {
    /// Decode a raw AL Status byte.
    pub fn new(al_status: u8) -> (r: AlStatus)
        ensures
            r == spec_al_status(al_status),
    {
        let nibble = al_status & 0x0F;
        let state: Result<ECState, u8> = if nibble == 0x01 {
            Ok(ECState::Init)
        } else if nibble == 0x02 {
            Ok(ECState::PreOp)
        } else if nibble == 0x03 {
            Ok(ECState::Bootstrap)
        } else if nibble == 0x04 {
            Ok(ECState::SafeOp)
        } else if nibble == 0x08 {
            Ok(ECState::Op)
        } else {
            Err(nibble)
        };
        let error = (al_status & 0x10) != 0;
        AlStatus { state, error }
    }
}

/// The vendor-independent AL status codes.
///
/// Codes `0x8000..=0xFFFF` are vendor specific; other codes below `0x8000`
/// that are not listed here are reserved.
#[derive(Debug, Clone, Copy, PartialEq, Eq, Structural)]
pub enum AlStatusCode {
    NoError,
    UnspecifiedError,
    NoMemory,
    InvalidDeviceSetup,
    CompatibilityReserved,
    InvalidRequestedStateChange,
    UnknownRequestedState,
    BootstrapNotSupported,
    NoValidFirmware,
    InvalidMailboxConfiguration,
    InvalidMailboxConfiguration2,
    InvalidSyncManagerConfiguration,
    NoValidInputsAvailable,
    NoValidOutputs,
    SynchronizationError,
    SyncManagerWatchdog,
    InvalidSyncManagerTypes,
    InvalidOutputConfiguration,
    InvalidInputConfiguration,
    InvalidWatchdogConfiguration,
    SubDeviceNeedsColdStart,
    SubDeviceNeedsInit,
    SubDeviceNeedsPreop,
    SubDeviceNeedsSafeop,
    InvalidInputMapping,
    InvalidOutputMapping,
    InconsistentSettings,
    FreeRunNotSupported,
    SyncModeNotSupported,
    FreeRunNeeds3BufferMode,
    BackgroundWatchdog,
    NoValidInputsAndOutputs,
    FatalSyncError,
    NoSyncError,
    InvalidDcSyncConfiguration,
    InvalidDcLatchConfiguration,
    PllError,
    DcSyncIoError,
    DcSyncTimeoutError,
    DcInvalidSyncCycleTime,
    DcSync0CycleTime,
    DcSync1CycleTime,
    MbxAoe,
    MbxEoe,
    MbxCoe,
    MbxFoe,
    MbxSoe,
    MbxVoe,
    EepromNoAccess,
    EepromError,
    SubDeviceRestartedLocally,
    DeviceIdentificationValueUpdated,
    ApplicationControllerAvailable,
}

/// The numeric register value of a named AL status code.
pub open spec fn spec_al_status_code_value(c: AlStatusCode) -> u16 {
    match c {
        AlStatusCode::NoError => 0x0000,
        AlStatusCode::UnspecifiedError => 0x0001,
        AlStatusCode::NoMemory => 0x0002,
        AlStatusCode::InvalidDeviceSetup => 0x0003,
        AlStatusCode::CompatibilityReserved => 0x0005,
        AlStatusCode::InvalidRequestedStateChange => 0x0011,
        AlStatusCode::UnknownRequestedState => 0x0012,
        AlStatusCode::BootstrapNotSupported => 0x0013,
        AlStatusCode::NoValidFirmware => 0x0014,
        AlStatusCode::InvalidMailboxConfiguration => 0x0015,
        AlStatusCode::InvalidMailboxConfiguration2 => 0x0016,
        AlStatusCode::InvalidSyncManagerConfiguration => 0x0017,
        AlStatusCode::NoValidInputsAvailable => 0x0018,
        AlStatusCode::NoValidOutputs => 0x0019,
        AlStatusCode::SynchronizationError => 0x001A,
        AlStatusCode::SyncManagerWatchdog => 0x001B,
        AlStatusCode::InvalidSyncManagerTypes => 0x001C,
        AlStatusCode::InvalidOutputConfiguration => 0x001D,
        AlStatusCode::InvalidInputConfiguration => 0x001E,
        AlStatusCode::InvalidWatchdogConfiguration => 0x001F,
        AlStatusCode::SubDeviceNeedsColdStart => 0x0020,
        AlStatusCode::SubDeviceNeedsInit => 0x0021,
        AlStatusCode::SubDeviceNeedsPreop => 0x0022,
        AlStatusCode::SubDeviceNeedsSafeop => 0x0023,
        AlStatusCode::InvalidInputMapping => 0x0024,
        AlStatusCode::InvalidOutputMapping => 0x0025,
        AlStatusCode::InconsistentSettings => 0x0026,
        AlStatusCode::FreeRunNotSupported => 0x0027,
        AlStatusCode::SyncModeNotSupported => 0x0028,
        AlStatusCode::FreeRunNeeds3BufferMode => 0x0029,
        AlStatusCode::BackgroundWatchdog => 0x002A,
        AlStatusCode::NoValidInputsAndOutputs => 0x002B,
        AlStatusCode::FatalSyncError => 0x002C,
        AlStatusCode::NoSyncError => 0x002D,
        AlStatusCode::InvalidDcSyncConfiguration => 0x0030,
        AlStatusCode::InvalidDcLatchConfiguration => 0x0031,
        AlStatusCode::PllError => 0x0032,
        AlStatusCode::DcSyncIoError => 0x0033,
        AlStatusCode::DcSyncTimeoutError => 0x0034,
        AlStatusCode::DcInvalidSyncCycleTime => 0x0035,
        AlStatusCode::DcSync0CycleTime => 0x0036,
        AlStatusCode::DcSync1CycleTime => 0x0037,
        AlStatusCode::MbxAoe => 0x0041,
        AlStatusCode::MbxEoe => 0x0042,
        AlStatusCode::MbxCoe => 0x0043,
        AlStatusCode::MbxFoe => 0x0044,
        AlStatusCode::MbxSoe => 0x0045,
        AlStatusCode::MbxVoe => 0x004F,
        AlStatusCode::EepromNoAccess => 0x0050,
        AlStatusCode::EepromError => 0x0051,
        AlStatusCode::SubDeviceRestartedLocally => 0x0060,
        AlStatusCode::DeviceIdentificationValueUpdated => 0x0061,
        AlStatusCode::ApplicationControllerAvailable => 0x00F0,
    }
}

impl AlStatusCode {
    /// The numeric register value of this code.
    pub fn code(&self) -> (v: u16)
        ensures
            v == spec_al_status_code_value(*self),
    {
        match *self {
            AlStatusCode::NoError => 0x0000,
            AlStatusCode::UnspecifiedError => 0x0001,
            AlStatusCode::NoMemory => 0x0002,
            AlStatusCode::InvalidDeviceSetup => 0x0003,
            AlStatusCode::CompatibilityReserved => 0x0005,
            AlStatusCode::InvalidRequestedStateChange => 0x0011,
            AlStatusCode::UnknownRequestedState => 0x0012,
            AlStatusCode::BootstrapNotSupported => 0x0013,
            AlStatusCode::NoValidFirmware => 0x0014,
            AlStatusCode::InvalidMailboxConfiguration => 0x0015,
            AlStatusCode::InvalidMailboxConfiguration2 => 0x0016,
            AlStatusCode::InvalidSyncManagerConfiguration => 0x0017,
            AlStatusCode::NoValidInputsAvailable => 0x0018,
            AlStatusCode::NoValidOutputs => 0x0019,
            AlStatusCode::SynchronizationError => 0x001A,
            AlStatusCode::SyncManagerWatchdog => 0x001B,
            AlStatusCode::InvalidSyncManagerTypes => 0x001C,
            AlStatusCode::InvalidOutputConfiguration => 0x001D,
            AlStatusCode::InvalidInputConfiguration => 0x001E,
            AlStatusCode::InvalidWatchdogConfiguration => 0x001F,
            AlStatusCode::SubDeviceNeedsColdStart => 0x0020,
            AlStatusCode::SubDeviceNeedsInit => 0x0021,
            AlStatusCode::SubDeviceNeedsPreop => 0x0022,
            AlStatusCode::SubDeviceNeedsSafeop => 0x0023,
            AlStatusCode::InvalidInputMapping => 0x0024,
            AlStatusCode::InvalidOutputMapping => 0x0025,
            AlStatusCode::InconsistentSettings => 0x0026,
            AlStatusCode::FreeRunNotSupported => 0x0027,
            AlStatusCode::SyncModeNotSupported => 0x0028,
            AlStatusCode::FreeRunNeeds3BufferMode => 0x0029,
            AlStatusCode::BackgroundWatchdog => 0x002A,
            AlStatusCode::NoValidInputsAndOutputs => 0x002B,
            AlStatusCode::FatalSyncError => 0x002C,
            AlStatusCode::NoSyncError => 0x002D,
            AlStatusCode::InvalidDcSyncConfiguration => 0x0030,
            AlStatusCode::InvalidDcLatchConfiguration => 0x0031,
            AlStatusCode::PllError => 0x0032,
            AlStatusCode::DcSyncIoError => 0x0033,
            AlStatusCode::DcSyncTimeoutError => 0x0034,
            AlStatusCode::DcInvalidSyncCycleTime => 0x0035,
            AlStatusCode::DcSync0CycleTime => 0x0036,
            AlStatusCode::DcSync1CycleTime => 0x0037,
            AlStatusCode::MbxAoe => 0x0041,
            AlStatusCode::MbxEoe => 0x0042,
            AlStatusCode::MbxCoe => 0x0043,
            AlStatusCode::MbxFoe => 0x0044,
            AlStatusCode::MbxSoe => 0x0045,
            AlStatusCode::MbxVoe => 0x004F,
            AlStatusCode::EepromNoAccess => 0x0050,
            AlStatusCode::EepromError => 0x0051,
            AlStatusCode::SubDeviceRestartedLocally => 0x0060,
            AlStatusCode::DeviceIdentificationValueUpdated => 0x0061,
            AlStatusCode::ApplicationControllerAvailable => 0x00F0,
        }
    }

    /// Look a numeric register value up in the table; `None` for reserved and
    /// vendor-specific codes.
    pub fn from_code(code: u16) -> (r: Option<AlStatusCode>)
        ensures
            match r {
                Some(c) => spec_al_status_code_value(c) == code,
                None => forall|c: AlStatusCode| spec_al_status_code_value(c) != code,
            },
    {
        let r: Option<AlStatusCode> = match code {
            0x0000 => Some(AlStatusCode::NoError),
            0x0001 => Some(AlStatusCode::UnspecifiedError),
            0x0002 => Some(AlStatusCode::NoMemory),
            0x0003 => Some(AlStatusCode::InvalidDeviceSetup),
            0x0005 => Some(AlStatusCode::CompatibilityReserved),
            0x0011 => Some(AlStatusCode::InvalidRequestedStateChange),
            0x0012 => Some(AlStatusCode::UnknownRequestedState),
            0x0013 => Some(AlStatusCode::BootstrapNotSupported),
            0x0014 => Some(AlStatusCode::NoValidFirmware),
            0x0015 => Some(AlStatusCode::InvalidMailboxConfiguration),
            0x0016 => Some(AlStatusCode::InvalidMailboxConfiguration2),
            0x0017 => Some(AlStatusCode::InvalidSyncManagerConfiguration),
            0x0018 => Some(AlStatusCode::NoValidInputsAvailable),
            0x0019 => Some(AlStatusCode::NoValidOutputs),
            0x001A => Some(AlStatusCode::SynchronizationError),
            0x001B => Some(AlStatusCode::SyncManagerWatchdog),
            0x001C => Some(AlStatusCode::InvalidSyncManagerTypes),
            0x001D => Some(AlStatusCode::InvalidOutputConfiguration),
            0x001E => Some(AlStatusCode::InvalidInputConfiguration),
            0x001F => Some(AlStatusCode::InvalidWatchdogConfiguration),
            0x0020 => Some(AlStatusCode::SubDeviceNeedsColdStart),
            0x0021 => Some(AlStatusCode::SubDeviceNeedsInit),
            0x0022 => Some(AlStatusCode::SubDeviceNeedsPreop),
            0x0023 => Some(AlStatusCode::SubDeviceNeedsSafeop),
            0x0024 => Some(AlStatusCode::InvalidInputMapping),
            0x0025 => Some(AlStatusCode::InvalidOutputMapping),
            0x0026 => Some(AlStatusCode::InconsistentSettings),
            0x0027 => Some(AlStatusCode::FreeRunNotSupported),
            0x0028 => Some(AlStatusCode::SyncModeNotSupported),
            0x0029 => Some(AlStatusCode::FreeRunNeeds3BufferMode),
            0x002A => Some(AlStatusCode::BackgroundWatchdog),
            0x002B => Some(AlStatusCode::NoValidInputsAndOutputs),
            0x002C => Some(AlStatusCode::FatalSyncError),
            0x002D => Some(AlStatusCode::NoSyncError),
            0x0030 => Some(AlStatusCode::InvalidDcSyncConfiguration),
            0x0031 => Some(AlStatusCode::InvalidDcLatchConfiguration),
            0x0032 => Some(AlStatusCode::PllError),
            0x0033 => Some(AlStatusCode::DcSyncIoError),
            0x0034 => Some(AlStatusCode::DcSyncTimeoutError),
            0x0035 => Some(AlStatusCode::DcInvalidSyncCycleTime),
            0x0036 => Some(AlStatusCode::DcSync0CycleTime),
            0x0037 => Some(AlStatusCode::DcSync1CycleTime),
            0x0041 => Some(AlStatusCode::MbxAoe),
            0x0042 => Some(AlStatusCode::MbxEoe),
            0x0043 => Some(AlStatusCode::MbxCoe),
            0x0044 => Some(AlStatusCode::MbxFoe),
            0x0045 => Some(AlStatusCode::MbxSoe),
            0x004F => Some(AlStatusCode::MbxVoe),
            0x0050 => Some(AlStatusCode::EepromNoAccess),
            0x0051 => Some(AlStatusCode::EepromError),
            0x0060 => Some(AlStatusCode::SubDeviceRestartedLocally),
            0x0061 => Some(AlStatusCode::DeviceIdentificationValueUpdated),
            0x00F0 => Some(AlStatusCode::ApplicationControllerAvailable),
            _ => None,
        };
        r
    }
}

} // verus!
