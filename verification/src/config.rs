//! The fixed identity of the device: name, appearance, plug-and-play
//! identifiers, HID info and battery level, all compile-time
//! constants set once at start-up.

use vstd::prelude::*;

verus! {

/// Advertised appearance value: keyboard-class HID device.
pub const APPEARANCE_HID_KEYBOARD: u16 = 0x03C1;
/// PnP vendor-ID source (USB vendor-ID namespace).
pub const PNP_VENDOR_ID_SOURCE: u8 = 0x02;
/// PnP vendor identifier.
pub const PNP_VENDOR_ID: u16 = 0x05AC;
/// PnP product identifier.
pub const PNP_PRODUCT_ID: u16 = 0x820A;
/// PnP product version.
pub const PNP_PRODUCT_VERSION: u16 = 0x0210;
/// HID info country code (not localized).
pub const HID_COUNTRY_CODE: u8 = 0x00;
/// HID info flags.
pub const HID_INFO_FLAGS: u8 = 0x01;
/// Battery level reported at start-up, in percent.
pub const BATTERY_LEVEL_PERCENT: u8 = 100;

/// Everything the BLE stack is told about the device at start-up.
#[derive(Clone, Copy, Debug)]
pub struct DeviceConfig {
    /// Device name, used both for naming and in the advertisement.
    pub name: &'static str,
    /// Manufacturer string of the HID device.
    pub manufacturer: &'static str,
    /// Advertised appearance value.
    pub appearance: u16,
    /// PnP vendor-ID source.
    pub pnp_vendor_id_source: u8,
    /// PnP vendor identifier.
    pub pnp_vendor_id: u16,
    /// PnP product identifier.
    pub pnp_product_id: u16,
    /// PnP product version.
    pub pnp_product_version: u16,
    /// HID info country code.
    pub hid_country_code: u8,
    /// HID info flags.
    pub hid_info_flags: u8,
    /// Battery level reported at start-up, in percent.
    pub battery_level: u8,
    /// Whether a scan-response payload is advertised.
    pub scan_response: bool,
}

/// The one configuration this device ever uses.
pub fn device_config() -> (c: DeviceConfig)
    ensures
        c.name@ == "Rusty Scooter"@,
        c.manufacturer@ == "Shaun Keys"@,
        c.appearance == APPEARANCE_HID_KEYBOARD,
        c.pnp_vendor_id_source == PNP_VENDOR_ID_SOURCE,
        c.pnp_vendor_id == PNP_VENDOR_ID,
        c.pnp_product_id == PNP_PRODUCT_ID,
        c.pnp_product_version == PNP_PRODUCT_VERSION,
        c.hid_country_code == HID_COUNTRY_CODE,
        c.hid_info_flags == HID_INFO_FLAGS,
        c.battery_level == BATTERY_LEVEL_PERCENT,
        c.scan_response == false,
{
    DeviceConfig {
        name: "Rusty Scooter",
        manufacturer: "Shaun Keys",
        appearance: APPEARANCE_HID_KEYBOARD,
        pnp_vendor_id_source: PNP_VENDOR_ID_SOURCE,
        pnp_vendor_id: PNP_VENDOR_ID,
        pnp_product_id: PNP_PRODUCT_ID,
        pnp_product_version: PNP_PRODUCT_VERSION,
        hid_country_code: HID_COUNTRY_CODE,
        hid_info_flags: HID_INFO_FLAGS,
        battery_level: BATTERY_LEVEL_PERCENT,
        scan_response: false,
    }
}

} // verus!
