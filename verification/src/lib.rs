//! Host-side library for talking to a ZMK Studio keyboard over a USB serial
//! link or a BLE GATT connection: the byte-stuffing frame codec, the
//! request/response correlation rules of the RPC client, the battery
//! fallback-chain policy, device discovery, and the keycode tables used to
//! translate between keymap text and HID usage values.
//!
//! Everything here is synchronous computation on plain values; the I/O that
//! feeds it (serial reads, BLE notifications, D-Bus queries) lives in the
//! surrounding application.

pub mod battery;
pub mod behaviors;
pub mod client;
pub mod framing;
pub mod hid_usage;
pub mod keymap;
pub mod rpc;
pub mod serializer;
pub mod text;
pub mod transport;
pub mod vial;
