//! Identity of the wheel's USB diagnostic port.
use vstd::prelude::*;

verus! {

/// What the USB port reports about the device.
pub struct UsbDeviceInfo {
    pub vendor_id: u16,
    pub product_id: u16,
    pub manufacturer: &'static str,
    pub product: &'static str,
    pub serial_number: &'static str,
}

/// Endpoint buffer size, in bytes.
pub const ENDPOINT_BUFFER_SIZE: usize = 256;

/// Logger buffer size, in bytes.
pub const LOGGER_BUFFER_SIZE: usize = 1024;

/// The identity the wheel's debug port uses.
pub fn default_usb_info() -> (r: UsbDeviceInfo)
    ensures
        r.vendor_id == 0x16c0,
        r.product_id == 0x27dd,
        r.manufacturer@ == "Stanford Solar Car"@,
        r.product@ == "Vehicle Computer Debug"@,
        r.serial_number@ == "001"@,
{
    UsbDeviceInfo {
        vendor_id: 0x16c0,
        product_id: 0x27dd,
        manufacturer: "Stanford Solar Car",
        product: "Vehicle Computer Debug",
        serial_number: "001",
    }
}

} // verus!
