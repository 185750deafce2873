//! Trusted boundary around the `rusb` and `usb-ids` crates.
//!
//! Every item here is believed, not proved: each declaration or wrapper
//! names the outside function it relies on.  Whatever a wrapper returns
//! depends on the host's USB bus, so the wrappers state nothing of their
//! results; the `usb-ids` lookups are functions of their arguments alone
//! and their results are named.
use vstd::prelude::*;

use crate::helpers::{AltSettingDesc, ConfigDesc, DeviceIdentity, EndpointDesc, InterfaceDesc,
    TransferKind};

verus! {

#[verifier::external_type_specification]
#[verifier::external_body]
pub struct ExRusbError(rusb::Error);

#[verifier::external_type_specification]
#[verifier::external_body]
pub struct ExTransferType(rusb::TransferType);

/// An enumerated USB device.  Opaque: everything the driver reads from it
/// comes through the wrappers below.
#[verifier::external_body]
pub struct UsbDevice {
    dev: rusb::Device<rusb::GlobalContext>,
}

/// An opened USB device handle.  Opaque: everything the driver does with it
/// goes through the wrappers below.
#[verifier::external_body]
pub struct UsbHandle {
    handle: rusb::DeviceHandle<rusb::GlobalContext>,
}

/// Relies on rusb::devices: lists the devices currently visible on the bus.
#[verifier::external_body]
pub(crate) fn list_devices() -> (r: Result<Vec<UsbDevice>, rusb::Error>) {
    match rusb::devices() {
        Ok(list) => Ok(list.iter().map(|dev| UsbDevice { dev }).collect()),
        Err(e) => Err(e),
    }
}

/// Relies on rusb::Device::device_descriptor and the descriptor's
/// vendor_id / product_id accessors.
#[verifier::external_body]
pub(crate) fn read_identity(dev: &UsbDevice) -> (r: Result<DeviceIdentity, rusb::Error>) {
    let d = dev.dev.device_descriptor()?;
    Ok(DeviceIdentity { vendor_id: d.vendor_id(), product_id: d.product_id() })
}

/// Relies on rusb::Device::device_descriptor and the descriptor's
/// num_configurations accessor.
#[verifier::external_body]
pub(crate) fn read_num_configurations(dev: &UsbDevice) -> (r: Result<u8, rusb::Error>) {
    let d = dev.dev.device_descriptor()?;
    Ok(d.num_configurations())
}

/// Relies on rusb::TransferType: the same four transfer kinds, one for one.
#[verifier::external_body]
pub(crate) fn convert_transfer_type(t: rusb::TransferType) -> (r: TransferKind) {
    match t {
        rusb::TransferType::Control => TransferKind::Control,
        rusb::TransferType::Isochronous => TransferKind::Isochronous,
        rusb::TransferType::Bulk => TransferKind::Bulk,
        rusb::TransferType::Interrupt => TransferKind::Interrupt,
    }
}

/// Relies on rusb::Device::config_descriptor and the descriptor tree
/// accessors (interfaces, descriptors, endpoint_descriptors): reads one
/// configuration descriptor into plain data, keeping declaration order at
/// every level.
#[verifier::external_body]
pub(crate) fn read_config_tree(dev: &UsbDevice, index: u8) -> (r: Result<ConfigDesc, rusb::Error>) {
    let cd = dev.dev.config_descriptor(index)?;
    Ok(ConfigDesc {
        number: cd.number(),
        interfaces: cd.interfaces().map(|i| InterfaceDesc {
            alt_settings: i.descriptors().map(|a| AltSettingDesc {
                interface_number: a.interface_number(),
                setting_number: a.setting_number(),
                endpoints: a.endpoint_descriptors().map(|e| EndpointDesc {
                    address: e.address(),
                    transfer_type: convert_transfer_type(e.transfer_type()),
                }).collect(),
            }).collect(),
        }).collect(),
    })
}

/// Relies on rusb::Device::bus_number.
#[verifier::external_body]
pub(crate) fn bus_number(dev: &UsbDevice) -> (r: u8) {
    dev.dev.bus_number()
}

/// Relies on rusb::Device::address.
#[verifier::external_body]
pub(crate) fn device_address(dev: &UsbDevice) -> (r: u8) {
    dev.dev.address()
}

/// Relies on rusb::Device::open: obtains an exclusive handle to the device.
#[verifier::external_body]
pub(crate) fn open_device(dev: &UsbDevice) -> (r: Result<UsbHandle, rusb::Error>) {
    Ok(UsbHandle { handle: dev.dev.open()? })
}

/// Relies on rusb::DeviceHandle::device: the device this handle was opened
/// from.
#[verifier::external_body]
pub(crate) fn handle_device(h: &UsbHandle) -> (r: UsbDevice) {
    UsbDevice { dev: h.handle.device() }
}

/// Relies on rusb::DeviceHandle::set_active_configuration.
#[verifier::external_body]
pub(crate) fn set_active_configuration(h: &UsbHandle, config: u8) -> (r: Result<(), rusb::Error>) {
    h.handle.set_active_configuration(config)
}

/// Relies on rusb::DeviceHandle::claim_interface.
#[verifier::external_body]
pub(crate) fn claim_interface(h: &UsbHandle, interface: u8) -> (r: Result<(), rusb::Error>) {
    h.handle.claim_interface(interface)
}

/// Relies on rusb::DeviceHandle::set_alternate_setting.
#[verifier::external_body]
pub(crate) fn set_alternate_setting(h: &UsbHandle, interface: u8, setting: u8) -> (r: Result<
    (),
    rusb::Error,
>) {
    h.handle.set_alternate_setting(interface, setting)
}

/// Relies on rusb::DeviceHandle::write_bulk: one blocking bulk transfer of
/// the whole payload to the endpoint address, with the given timeout.
#[verifier::external_body]
pub(crate) fn bulk_write(h: &UsbHandle, address: u8, payload: &[u8], timeout_secs: u64) -> (r:
    Result<usize, rusb::Error>) {
    h.handle.write_bulk(address, payload, core::time::Duration::from_secs(timeout_secs))
}

/// The vendor name the bundled USB ID database holds for a vendor id, if
/// any.
pub uninterp spec fn vendor_name_of(vid: u16) -> Option<Seq<char>>;

/// The product name the bundled USB ID database holds for a vendor/product
/// id pair, if any.
pub uninterp spec fn product_name_of(vid: u16, pid: u16) -> Option<Seq<char>>;

/// Relies on usb_ids::Vendor::from_id and Vendor::name: a lookup in the
/// crate's bundled copy of the public USB ID database, a function of the
/// vendor id alone.
#[verifier::external_body]
pub(crate) fn vendor_name(vid: u16) -> (r: Option<String>)
    ensures
        r matches Some(s) ==> vendor_name_of(vid) == Some(s@),
        r is None ==> vendor_name_of(vid) is None,
{
    <usb_ids::Vendor as usb_ids::FromId<u16>>::from_id(vid).map(|v| v.name().to_string())
}

/// Relies on usb_ids::Device::from_vid_pid and Device::name: a lookup in
/// the crate's bundled copy of the public USB ID database, a function of
/// the id pair alone.
#[verifier::external_body]
pub(crate) fn product_name(vid: u16, pid: u16) -> (r: Option<String>)
    ensures
        r matches Some(s) ==> product_name_of(vid, pid) == Some(s@),
        r is None ==> product_name_of(vid, pid) is None,
{
    usb_ids::Device::from_vid_pid(vid, pid).map(|d| d.name().to_string())
}

/// Relies on String::push: appends one character to the string.
#[verifier::external_body]
pub(crate) fn push_char(s: &mut String, c: char)
    ensures
        final(s)@ == old(s)@ + seq![c],
{
    s.push(c)
}

} // verus!
