//! Error taxonomy for the driver, one variant per originating stage.
//!
//! Each USB-subsystem failure is wrapped with the stage at which it occurred;
//! the underlying `rusb` cause is preserved for diagnostics.
use vstd::prelude::*;

verus! {

/// A failure of one stage of discovery, activation or transfer.
#[derive(Debug)]
pub enum DisplayError {
    /// Reading a device descriptor failed.
    Descriptor { source: rusb::Error },
    /// Enumeration finished without a matching display device.
    NoDevicesFound,
    /// Reading a configuration descriptor failed.
    DeviceFind { source: rusb::Error },
    /// Opening the device to obtain a handle failed.
    HandleOpen { source: rusb::Error },
    /// The bulk write to the display failed.
    WriteBulk { source: rusb::Error },
    /// Selecting the active configuration failed.
    SetActiveConfig { source: rusb::Error },
    /// Claiming the interface failed.
    ClaimInterface { source: rusb::Error },
    /// Selecting the alternate setting failed.
    SetAlternateSetting { source: rusb::Error },
    /// Listing the devices on the bus failed.
    DeviceList { source: rusb::Error },
    /// Reading a string descriptor field failed.
    ReadString { source: rusb::Error, field: String },
}

impl DisplayError {
    /// A short human-readable description of the failed stage.
    pub fn message(&self) -> (r: &'static str)
        ensures
            r@ == self.spec_message(),
    {
        match self {
            DisplayError::Descriptor { .. } => "Could not read USB device descriptor",
            DisplayError::NoDevicesFound => "No Matching USB display devices found",
            DisplayError::DeviceFind { .. } => "Error finding USB device",
            DisplayError::HandleOpen { .. } => "Could not open device",
            DisplayError::WriteBulk { .. } => "Could not write to USB device",
            DisplayError::SetActiveConfig { .. } => "Could not set active configuration",
            DisplayError::ClaimInterface { .. } => "Could not claim USB interface",
            DisplayError::SetAlternateSetting { .. } => "Could not set interface setting",
            DisplayError::DeviceList { .. } => "Could not list USB devices",
            DisplayError::ReadString { .. } => "Could not read string from USB device",
        }
    }

    /// The description that `message` returns for each stage.
    pub open spec fn spec_message(&self) -> Seq<char> {
        match self {
            DisplayError::Descriptor { .. } => "Could not read USB device descriptor"@,
            DisplayError::NoDevicesFound => "No Matching USB display devices found"@,
            DisplayError::DeviceFind { .. } => "Error finding USB device"@,
            DisplayError::HandleOpen { .. } => "Could not open device"@,
            DisplayError::WriteBulk { .. } => "Could not write to USB device"@,
            DisplayError::SetActiveConfig { .. } => "Could not set active configuration"@,
            DisplayError::ClaimInterface { .. } => "Could not claim USB interface"@,
            DisplayError::SetAlternateSetting { .. } => "Could not set interface setting"@,
            DisplayError::DeviceList { .. } => "Could not list USB devices"@,
            DisplayError::ReadString { .. } => "Could not read string from USB device"@,
        }
    }
}

} // verus!
