//! Device commands and their argument ranges.

use vstd::prelude::*;

verus! {

/// Smallest number of profiles the device can be told to keep active.
pub const MIN_PROFILE_COUNT: u8 = 1;

/// Largest number of profiles the device can be told to keep active.
pub const MAX_PROFILE_COUNT: u8 = 4;

/// Largest valid profile index (profiles are indexed from zero).
pub const MAX_PROFILE_INDEX: u8 = 3;

/// Smallest DPI value a profile can be programmed with.
pub const MIN_DPI: u16 = 50;

/// Largest DPI value a profile can be programmed with.
pub const MAX_DPI: u16 = 26000;

/// One of the three commands the device understands.
#[derive(Debug, Clone, Copy, PartialEq, Eq, Structural)]
pub enum Command {
    /// Set how many profiles are active on the device.
    Activate { count: u8 },
    /// Select the active profile.
    Select { profile: u8 },
    /// Program one profile's DPI value.
    SetDpi { profile: u8, value: u16 },
}

/// The ranges each command's arguments must lie in before any device
/// interaction is allowed.
pub open spec fn cmd_valid(c: Command) -> bool {
    match c {
        Command::Activate { count } => MIN_PROFILE_COUNT <= count <= MAX_PROFILE_COUNT,
        Command::Select { profile } => profile <= MAX_PROFILE_INDEX,
        Command::SetDpi { profile, value } => profile <= MAX_PROFILE_INDEX && MIN_DPI <= value
            <= MAX_DPI,
    }
}

/// Range-check a command's arguments; no device interaction happens here.
pub fn validate(c: &Command) -> (r: bool)
    ensures
        r == cmd_valid(*c),
{
    match *c {
        Command::Activate { count } => MIN_PROFILE_COUNT <= count && count <= MAX_PROFILE_COUNT,
        Command::Select { profile } => profile <= MAX_PROFILE_INDEX,
        Command::SetDpi { profile, value } => profile <= MAX_PROFILE_INDEX && MIN_DPI <= value
            && value <= MAX_DPI,
    }
}

/// Everything that can go wrong between parsing the arguments and the
/// device answering the control transfer.
#[derive(Debug, Clone, Copy, PartialEq, Eq, Structural)]
pub enum SessionError {
    /// No matching device was enumerated.
    DeviceNotFound,
    /// A matching device was found but could not be opened.
    OpenFailed,
    /// A descriptor could not be read; non-fatal during enumeration,
    /// where the unreadable entry is skipped.
    DescriptorReadFailed,
    /// The device exposed no endpoints in any configuration.
    NoEndpoints,
    /// Setting the active configuration or the alternate setting failed.
    ConfigurationFailed,
    /// Probing or detaching the kernel driver on an interface failed.
    DriverDetachFailed,
    /// Claiming an interface failed.
    ClaimFailed,
    /// The control transfer itself failed or was short.
    TransferError,
    /// A command argument was out of range; rejected before any device
    /// interaction.
    InvalidArgument,
}

} // verus!
