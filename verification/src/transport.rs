//! Device discovery and the transport-level data model: which serial ports
//! look like this keyboard family, how a discovered device is described, and
//! how the serial and BLE candidate lists merge.
//!
//! The enumeration and scanning I/O itself (serial port listing, the BLE
//! scan) happens in the surrounding application, which hands the raw port and
//! peripheral attributes to the functions here.

use vstd::prelude::*;

verus! {

use crate::text::{contains_seq, str_contains};
use vstd::string::StringExecFns;

/// The Studio RPC GATT service UUID, as a 128-bit value.
pub const STUDIO_SERVICE_UUID: u128 = 0x00000000_0196_6107_c967_c5cfb1c2482a;

/// The Studio RPC GATT characteristic UUID.
pub const STUDIO_CHAR_UUID: u128 = 0x00000001_0196_6107_c967_c5cfb1c2482a;

/// The standard Battery Level characteristic UUID.
pub const BATTERY_LEVEL_CHAR_UUID: u128 = 0x00002A19_0000_1000_8000_00805f9b34fb;

/// Which physical link a device is reached over.
#[derive(Debug, Clone, Copy, PartialEq, Eq, Structural)]
pub enum TransportKind {
    Usb,
    Ble,
}

/// A discovered device: its platform identifier, a display name, and the
/// transport it was found on.
#[derive(Debug, Clone, PartialEq)]
pub struct DeviceInfo {
    pub id: String,
    pub name: String,
    pub transport: TransportKind,
}

/// A serial port belongs to this keyboard family: its USB product string or
/// its manufacturer string carries one of the known markers.
pub open spec fn spec_is_zmk_usb_device(
    product: Option<Seq<char>>,
    manufacturer: Option<Seq<char>>,
) -> bool {
    ||| (product matches Some(p) && (contains_seq(p, "TOTEM"@) || contains_seq(p, "ZMK"@)
        || contains_seq(p, "nRF"@)))
    ||| (manufacturer matches Some(m) && (contains_seq(m, "GEIGEIGEIST"@) || contains_seq(
        m,
        "ZMK"@,
    ) || contains_seq(m, "Nordic"@)))
}

/// Decide from a port's USB metadata whether it could be this keyboard.
pub fn is_zmk_usb_device(product: &Option<String>, manufacturer: &Option<String>) -> (r: bool)
    ensures
        r == spec_is_zmk_usb_device(product.deep_view(), manufacturer.deep_view()),
{
    let by_product = match product {
        Some(p) => str_contains(p.as_str(), "TOTEM") || str_contains(p.as_str(), "ZMK")
            || str_contains(p.as_str(), "nRF"),
        None => false,
    };
    if by_product {
        return true;
    }
    match manufacturer {
        Some(m) => str_contains(m.as_str(), "GEIGEIGEIST") || str_contains(m.as_str(), "ZMK")
            || str_contains(m.as_str(), "Nordic"),
        None => false,
    }
}

/// Describe a USB serial candidate: identified by its port path, shown under
/// its product string when the port has one, else under the path itself.
pub fn usb_device_info(port_name: &str, product: &Option<String>) -> (r: DeviceInfo)
    ensures
        r.id@ == port_name@,
        r.transport == TransportKind::Usb,
        r.name@ == (match product.deep_view() {
            Some(p) => p,
            None => port_name@,
        }),
{
    let name = match product {
        Some(p) => p.clone(),
        None => String::from_str(port_name),
    };
    DeviceInfo { id: String::from_str(port_name), name, transport: TransportKind::Usb }
}

/// Describe a BLE candidate: identified by its peripheral id, shown under its
/// advertised name or a generic fallback.
pub fn ble_device_info(id: &str, local_name: Option<String>) -> (r: DeviceInfo)
    ensures
        r.id@ == id@,
        r.transport == TransportKind::Ble,
        r.name@ == (match local_name.deep_view() {
            Some(n) => n,
            None => "ZMK Keyboard"@,
        }),
{
    let name = match local_name {
        Some(n) => n,
        None => String::from_str("ZMK Keyboard"),
    };
    DeviceInfo { id: String::from_str(id), name, transport: TransportKind::Ble }
}

/// Merge discovery results: the serial candidates always count, the BLE scan
/// contributes its finds when it succeeded and nothing when it failed —
/// a scan failure never aborts discovery.
pub fn merge_discovered(usb: Vec<DeviceInfo>, ble: Result<Vec<DeviceInfo>, String>) -> (r: Vec<
    DeviceInfo,
>)
    ensures
        (match ble {
            Ok(b) => r@ == usb@ + b@,
            Err(_) => r@ == usb@,
        }),
{
    let mut r = usb;
    match ble {
        Ok(mut b) => {
            r.append(&mut b);
        },
        Err(_) => {},
    }
    r
}

} // verus!
