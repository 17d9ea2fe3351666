//! Device-management core for a USB-attached programmable instrument
//! display/keypad panel.
//!
//! The crate covers the device protocol engine: the fixed 44-byte control
//! packet codec, the button-report bitmask, the half-duplex request/response
//! transaction discipline, the per-device lifecycle state machine, and the
//! device handle surface that higher layers call. Raw USB transfers and the
//! foreign-ABI shim live outside the verified core, behind a transport trait.

pub mod api;
pub mod buttons;
pub mod device;
pub mod lifecycle;
pub mod packet;
pub mod registry;
pub mod session;
pub mod topology;
pub mod transport;
