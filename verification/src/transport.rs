//! The transport adapter boundary: three primitive operations over a claimed
//! USB device handle. The adapter performs no framing and no retrying; it is
//! a thin conduit, and the verified core states what holds of every value an
//! implementation may hand back.

use vstd::prelude::*;

verus! {

/// Classified failure of one raw transfer, as the caller must see it: a
/// timeout, a device that is gone, an access-denied condition, or any other
/// I/O fault.
#[derive(Clone, Copy, PartialEq, Eq, Structural, Debug)]
pub enum TransportError {
    Timeout,
    DeviceGone,
    AccessDenied,
    Other,
}

/// The three primitive transfers of one claimed USB connection: a short
/// report read from the HID-class interface, a bulk read from the vendor
/// interface's input endpoint, and a bulk write to its output endpoint.
///
/// Implementations live outside the verified core (the real one drives a USB
/// device handle; tests script one), so the trait promises nothing: every
/// caller in the library checks lengths at run time and states what holds
/// whatever an implementation returned.
pub trait Transport {
    /// Reads one 2-byte button report from the HID input endpoint.
    fn read_report(&mut self, timeout_ms: u64) -> Result<[u8; 2], TransportError>;

    /// Reads at most `len` bytes from the vendor input endpoint, handing back
    /// the bytes read.
    fn read_bulk(&mut self, len: usize, timeout_ms: u64) -> Result<Vec<u8>, TransportError>;

    /// Writes the buffer to the vendor output endpoint, handing back the
    /// count of bytes written.
    fn write_bulk(&mut self, data: &[u8], timeout_ms: u64) -> Result<usize, TransportError>;
}

} // verus!
