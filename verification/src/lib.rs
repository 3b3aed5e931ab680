//! Bluetooth Low Energy device addresses: a 48-bit hardware address with its
//! address type, the colon-separated text that people read, and a fixed
//! seven-byte binary form for storage and transport.
//!
//! An address keeps its six octets in wire order, the least significant
//! first, as the radio stack wants them. [`BLEAddress::new`] takes them in
//! display order and reverses them once; [`BLEAddress::from_wire`] takes them
//! as they are. [`BLEAddress::to_display_string`] shows them in display order
//! again.
//!
//! The binary form is the type code followed by the octets in wire order.
//! Decoding is not its mirror image: [`BLEAddress::decode`] reads the six
//! octets after the type byte as display order and hands them to `new`, so
//! they are stored reversed, and it gives `RandomID` for the codes of both
//! random types. The module [`laws`] states what follows from this.

pub mod ble_address;
pub mod hex;
pub mod laws;

pub use ble_address::{AddressView, BLEAddress, BLEAddressType, DecodeError, ENCODED_LEN};
