//! User-space driver for LDX-family USB line displays.
//!
//! The driver discovers a matching device on the USB bus, walks its
//! descriptor tree to find a bulk OUT endpoint, performs the three-step
//! endpoint activation sequence, and translates a small vocabulary of
//! display commands into the vendor-specific byte sequences the controller
//! expects.
use vstd::prelude::*;

pub mod cli;
pub mod display;
pub mod errors;
pub mod helpers;
pub mod usb;

pub use display::find_display;
pub use display::{Brightness, CursorMode, ScrollDirection, ScrollPosition};
pub use errors::DisplayError;

verus! {

/// Control a single connected display device.
///
/// A value of this type is only constructed after the endpoint activation
/// sequence (configuration, interface claim, alternate setting) succeeded.
pub struct Display {
    pub(crate) device: usb::UsbHandle,
    pub(crate) endpoint: helpers::UsbEndpoint,
}

impl Display {
    /// The resolved endpoint this session was activated for and writes to.
    pub closed spec fn spec_endpoint(&self) -> helpers::UsbEndpoint {
        self.endpoint
    }
}

} // verus!
