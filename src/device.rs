//! Device roles, device states, audio formats and the audio error model.
use vstd::prelude::*;

verus! {

/// Role for which Windows keeps a separate default capture device.
#[derive(Debug, Clone, Copy, PartialEq, Eq, Structural, Hash)]
pub enum DeviceRole {
    /// Games, system sounds and most general applications.
    Console,
    /// Music and video players.
    Multimedia,
    /// Voice-over-IP applications.
    Communications,
}

/// The numeric value Windows uses for a role.
pub open spec fn role_index(role: DeviceRole) -> u32 {
    match role {
        DeviceRole::Console => 0,
        DeviceRole::Multimedia => 1,
        DeviceRole::Communications => 2,
    }
}

impl DeviceRole {
    /// The numeric value of the role (0, 1 or 2).
    pub fn index(&self) -> (r: u32)
        ensures
            r == role_index(*self),
    {
        match self {
            DeviceRole::Console => 0,
            DeviceRole::Multimedia => 1,
            DeviceRole::Communications => 2,
        }
    }

    /// The role with numeric value `value`, if there is one.
    pub fn from_index(value: u32) -> (r: Option<DeviceRole>)
        ensures
            value <= 2 <==> r is Some,
            r matches Some(role) ==> role_index(role) == value,
    {
        match value {
            0 => Some(DeviceRole::Console),
            1 => Some(DeviceRole::Multimedia),
            2 => Some(DeviceRole::Communications),
            _ => None,
        }
    }

    /// The role that a notification reports: console and communications are
    /// recognised, every other value is taken as multimedia.
    pub fn from_notification(value: i32) -> (r: DeviceRole)
        ensures
            value == 0 ==> r == DeviceRole::Console,
            value == 2 ==> r == DeviceRole::Communications,
            value != 0 && value != 2 ==> r == DeviceRole::Multimedia,
    {
        if value == 0 {
            DeviceRole::Console
        } else if value == 2 {
            DeviceRole::Communications
        } else {
            DeviceRole::Multimedia
        }
    }
}

/// State of an audio endpoint.
#[derive(Debug, Clone, Copy, PartialEq, Eq, Structural)]
pub enum DeviceState {
    /// Active and available for use.
    Active,
    /// Disabled in the sound settings.
    Disabled,
    /// Not present (driver issue).
    NotPresent,
    /// Unplugged (pluggable devices).
    Unplugged,
}

/// The state that an endpoint state flag denotes; an unknown flag is read as
/// not present.
pub open spec fn state_of_flag(flag: u32) -> DeviceState {
    if flag == 1 {
        DeviceState::Active
    } else if flag == 2 {
        DeviceState::Disabled
    } else if flag == 8 {
        DeviceState::Unplugged
    } else {
        DeviceState::NotPresent
    }
}

impl DeviceState {
    /// Reads an endpoint state flag (1, 2, 4 or 8).
    pub fn from_flag(flag: u32) -> (r: DeviceState)
        ensures
            r == state_of_flag(flag),
    {
        match flag {
            1 => DeviceState::Active,
            2 => DeviceState::Disabled,
            4 => DeviceState::NotPresent,
            8 => DeviceState::Unplugged,
            _ => DeviceState::NotPresent,
        }
    }
}

/// Audio format of a device: sample rate, bits per sample and channels.
#[derive(Debug, Clone, Copy, PartialEq, Eq, Structural)]
pub struct AudioFormat {
    /// Sample rate in Hz.
    pub sample_rate: u32,
    /// Bits per sample.
    pub bit_depth: u16,
    /// Number of channels.
    pub channels: u16,
}

/// A failed system call: its result code and the system's description.
#[derive(Debug, Clone)]
pub struct SystemError {
    /// The HRESULT the call returned.
    pub code: i32,
    /// Text describing the failure.
    pub message: String,
}

/// Errors of the audio service.
#[derive(Debug, Clone)]
pub enum AudioError {
    DeviceNotFound { device_id: String },
    NoDefaultDevice,
    ComInitFailed(SystemError),
    EnumerationFailed(SystemError),
    SetDefaultFailed(SystemError),
    VolumeNotAvailable,
    MeterNotAvailable,
    WindowsError(SystemError),
    StringConversion(String),
}

} // verus!
