//! Translation of platform-native hardware keyboard scancodes into
//! portable key identifiers drawn from the USB HID usage tables.

pub mod keys;
pub mod tables;

pub use keys::Scancode;
pub use tables::Platform;
pub use tables::lookup;
