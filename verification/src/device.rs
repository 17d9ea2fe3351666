//! The long-lived, publicly addressable device handle: a protected,
//! replaceable slot that holds either the active session or nothing, and the
//! public capability surface that transacts through it. Every operation
//! fails immediately when the slot is empty; it never blocks on an absent
//! device. Operations report bare success or failure — the response's error
//! detail is deliberately discarded at this layer.

use vstd::prelude::*;

use crate::api::GUID;
use crate::packet::{ControlPacket, Request, spec_new_packet, spec_request_code};
use crate::session::{Session, TransactError, spec_opt_bytes, spec_opt_len};
use crate::transport::Transport;

verus! {

/// Byte count of one raw image frame, the device's known fixed frame size.
pub const IMAGE_SIZE: usize = 0x38400;

/// The fixed type identifier of this device family. No way of reading it
/// from the device itself is known; every session carries this value.
pub fn device_type_guid() -> (g: GUID)
    ensures
        g == (GUID {
            data1: 0x3E083CD8,
            data2: 0x6A37,
            data3: 0x4A58,
            data4: [0x80u8, 0xA8u8, 0x3Du8, 0x6Au8, 0x2Cu8, 0x07u8, 0x51u8, 0x3Eu8],
        }),
{
    GUID {
        data1: 0x3E083CD8,
        data2: 0x6A37,
        data3: 0x4A58,
        data4: [0x80u8, 0xA8u8, 0x3Du8, 0x6Au8, 0x2Cu8, 0x07u8, 0x51u8, 0x3Eu8],
    }
}

/// Why a transaction could not even be attempted, or failed beneath a public
/// operation.
#[derive(Clone, Copy, PartialEq, Eq, Structural, Debug)]
pub enum TransmitError {
    /// The slot is empty: the device is absent or never finished
    /// initialization.
    NotReady,
    /// The exchange itself failed.
    Failed(TransactError),
}

/// The packet a set-image operation sends: raw-image opcode, the page field,
/// and the frame size as declared payload length.
pub open spec fn spec_set_image_packet(page: u8) -> ControlPacket {
    ControlPacket {
        page: page as u32,
        data_size: IMAGE_SIZE as u32,
        ..spec_new_packet(spec_request_code(Request::SetImage))
    }
}

/// The packet a set-LED operation sends: page, LED index and on/off value in
/// the three parameter slots, no payload.
pub open spec fn spec_set_led_packet(page: u8, index: u8, value: bool) -> ControlPacket {
    ControlPacket {
        param_1: page as u32,
        param_2: index as u32,
        param_3: if value {
            1
        } else {
            0
        },
        ..spec_new_packet(spec_request_code(Request::SetLed))
    }
}

/// The packet a clear-image operation sends: the page field only.
pub open spec fn spec_clear_image_packet(page: u8) -> ControlPacket {
    ControlPacket { page: page as u32, ..spec_new_packet(spec_request_code(Request::ClearImage)) }
}

/// The packet a save-file operation sends: page and file id in the first and
/// third parameter slots, and the payload length as declared data size.
pub open spec fn spec_save_file_packet(page: u8, file: u8, len: u32) -> ControlPacket {
    ControlPacket {
        param_1: page as u32,
        param_3: file as u32,
        data_size: len,
        ..spec_new_packet(spec_request_code(Request::SaveFile))
    }
}

/// The packet a display-file operation sends: the reused file opcode with
/// page, image index and file id populated, no payload.
pub open spec fn spec_display_file_packet(page: u8, index: u8, file: u8) -> ControlPacket {
    ControlPacket {
        param_1: page as u32,
        param_2: index as u32,
        param_3: file as u32,
        ..spec_new_packet(spec_request_code(Request::DeleteFile))
    }
}

/// The packet a delete-file operation sends: the reused file opcode with
/// page and file id populated and the index slot left empty, no payload.
pub open spec fn spec_delete_file_packet(page: u8, file: u8) -> ControlPacket {
    ControlPacket {
        param_1: page as u32,
        param_3: file as u32,
        ..spec_new_packet(spec_request_code(Request::DeleteFile))
    }
}

/// The long-lived handle of one physical device. The handle outlives its
/// sessions: the slot is emptied when the device goes away and refilled only
/// by a brand-new session from a brand-new lifecycle run, never a revived
/// one.
pub struct DeviceHandle<T: Transport> {
    /// The protected slot: `Some` exactly while the device is usable.
    pub slot: Option<Session<T>>,
}

impl<T: Transport> DeviceHandle<T> {
    /// Whether the slot currently holds a session.
    pub open spec fn spec_ready(&self) -> bool {
        self.slot is Some
    }

    /// The trace of requests attempted through the current session.
    pub open spec fn spec_sent(&self) -> Seq<(ControlPacket, Seq<u8>)> {
        self.slot->Some_0.sent@
    }

    /// The serial number captured when the current session was created.
    pub open spec fn spec_serial(&self) -> Seq<char> {
        self.slot->Some_0.serial_number@
    }

    /// The type identifier captured when the current session was created.
    pub open spec fn spec_device_type(&self) -> GUID {
        self.slot->Some_0.device_type
    }

    /// Everything an operation leaves untouched when it runs: readiness and
    /// the session identity.
    pub open spec fn spec_same_identity(&self, other: &DeviceHandle<T>) -> bool {
        &&& self.spec_ready() == other.spec_ready()
        &&& (self.spec_ready() ==> self.spec_serial() == other.spec_serial()
            && self.spec_device_type() == other.spec_device_type())
    }

    /// A handle whose device has not completed initialization.
    pub fn new() -> (h: DeviceHandle<T>)
        ensures
            !h.spec_ready(),
    {
        DeviceHandle { slot: None }
    }

    /// Publishes a session: from here on `ready()` is true and operations
    /// reach the device.
    pub fn install(&mut self, session: Session<T>)
        ensures
            final(self).slot == Some(session),
    {
        self.slot = Some(session);
    }

    /// Empties the slot. The transition is irreversible for the departed
    /// session: only a brand-new one can be installed later.
    pub fn invalidate(&mut self)
        ensures
            !final(self).spec_ready(),
    {
        self.slot = None;
    }

    /// Non-blocking readiness predicate: true exactly while the slot holds a
    /// session.
    pub fn ready(&self) -> (r: bool)
        ensures
            r == self.spec_ready(),
    {
        self.slot.is_some()
    }

    /// The serial number read at session creation, or failure while no
    /// session is installed.
    pub fn serial_number(&self) -> (r: Result<String, ()>)
        ensures
            (match r {
                Ok(s) => self.spec_ready() && s@ == self.spec_serial(),
                Err(()) => !self.spec_ready(),
            }),
    {
        match &self.slot {
            Some(session) => Ok(session.serial_number.clone()),
            None => Err(()),
        }
    }

    /// The fixed type identifier attached at session creation, or failure
    /// while no session is installed.
    pub fn device_type_uuid(&self) -> (r: Result<GUID, ()>)
        ensures
            (match r {
                Ok(g) => self.spec_ready() && g == self.spec_device_type(),
                Err(()) => !self.spec_ready(),
            }),
    {
        match &self.slot {
            Some(session) => Ok(session.device_type),
            None => Err(()),
        }
    }

    /// Runs one exchange through the slot: fails with `NotReady` exactly
    /// while the slot is empty, and otherwise appends exactly one entry to
    /// the session's trace.
    pub fn transmit(&mut self, packet: &ControlPacket, payload: Option<&[u8]>) -> (r: Result<
        (ControlPacket, Option<Vec<u8>>),
        TransmitError,
    >)
        requires
            spec_opt_len(payload) == packet.data_size as int,
        ensures
            old(self).spec_same_identity(final(self)),
            r == Err::<(ControlPacket, Option<Vec<u8>>), TransmitError>(TransmitError::NotReady)
                <==> !old(self).spec_ready(),
            !old(self).spec_ready() ==> *final(self) == *old(self),
            old(self).spec_ready() ==> final(self).spec_sent() == old(self).spec_sent().push(
                (*packet, spec_opt_bytes(payload)),
            ),
    {
        match &mut self.slot {
            Some(session) => {
                match session.transact(packet, payload) {
                    Ok(ok) => Ok(ok),
                    Err(e) => Err(TransmitError::Failed(e)),
                }
            },
            None => Err(TransmitError::NotReady),
        }
    }

    /// Sets the raw image of a page from one full fixed-size frame.
    pub fn set_image_data(&mut self, page: u8, data: &[u8; 0x38400]) -> (r: Result<(), ()>)
        ensures
            old(self).spec_same_identity(final(self)),
            !old(self).spec_ready() ==> r is Err && *final(self) == *old(self),
            old(self).spec_ready() ==> final(self).spec_sent() == old(self).spec_sent().push(
                (spec_set_image_packet(page), data@),
            ),
    {
        let mut packet = ControlPacket::new(Request::SetImage);
        packet.set_page(page);
        let frame: &[u8] = data.as_slice();
        packet.set_data_size(frame.len());
        interpret_transmit(self.transmit(&packet, Some(frame)))
    }

    /// Turns one LED of a page on or off.
    pub fn set_led(&mut self, page: u8, index: u8, value: bool) -> (r: Result<(), ()>)
        ensures
            old(self).spec_same_identity(final(self)),
            !old(self).spec_ready() ==> r is Err && *final(self) == *old(self),
            old(self).spec_ready() ==> final(self).spec_sent() == old(self).spec_sent().push(
                (spec_set_led_packet(page, index, value), Seq::<u8>::empty()),
            ),
    {
        let mut packet = ControlPacket::new(Request::SetLed);
        packet.set_param_1(page as u32);
        packet.set_param_2(index as u32);
        packet.set_param_3(if value { 1 } else { 0 });
        interpret_transmit(self.transmit(&packet, None))
    }

    /// Clears the image of a page.
    pub fn clear_image(&mut self, page: u8) -> (r: Result<(), ()>)
        ensures
            old(self).spec_same_identity(final(self)),
            !old(self).spec_ready() ==> r is Err && *final(self) == *old(self),
            old(self).spec_ready() ==> final(self).spec_sent() == old(self).spec_sent().push(
                (spec_clear_image_packet(page), Seq::<u8>::empty()),
            ),
    {
        let mut packet = ControlPacket::new(Request::ClearImage);
        packet.set_page(page);
        interpret_transmit(self.transmit(&packet, None))
    }

    /// Saves a file payload on the device under a page and file id. The
    /// payload is the caller's full buffer; its length is declared in the
    /// packet and must fit the 32-bit data-size field.
    pub fn save_file(&mut self, page: u8, file: u8, data: &[u8]) -> (r: Result<(), ()>)
        requires
            data@.len() <= u32::MAX,
        ensures
            old(self).spec_same_identity(final(self)),
            !old(self).spec_ready() ==> r is Err && *final(self) == *old(self),
            old(self).spec_ready() ==> final(self).spec_sent() == old(self).spec_sent().push(
                (spec_save_file_packet(page, file, data@.len() as u32), data@),
            ),
    {
        let mut packet = ControlPacket::new(Request::SaveFile);
        packet.set_param_1(page as u32);
        packet.set_param_3(file as u32);
        packet.set_data_size(data.len());
        interpret_transmit(self.transmit(&packet, Some(data)))
    }

    /// Displays a stored file on a page at an image index, through the
    /// reused file opcode.
    pub fn display_file(&mut self, page: u8, index: u8, file: u8) -> (r: Result<(), ()>)
        ensures
            old(self).spec_same_identity(final(self)),
            !old(self).spec_ready() ==> r is Err && *final(self) == *old(self),
            old(self).spec_ready() ==> final(self).spec_sent() == old(self).spec_sent().push(
                (spec_display_file_packet(page, index, file), Seq::<u8>::empty()),
            ),
    {
        let mut packet = ControlPacket::new(Request::DeleteFile);
        packet.set_param_1(page as u32);
        packet.set_param_2(index as u32);
        packet.set_param_3(file as u32);
        interpret_transmit(self.transmit(&packet, None))
    }

    /// Deletes a stored file of a page, through the reused file opcode with
    /// the index slot left empty.
    pub fn delete_file(&mut self, page: u8, file: u8) -> (r: Result<(), ()>)
        ensures
            old(self).spec_same_identity(final(self)),
            !old(self).spec_ready() ==> r is Err && *final(self) == *old(self),
            old(self).spec_ready() ==> final(self).spec_sent() == old(self).spec_sent().push(
                (spec_delete_file_packet(page, file), Seq::<u8>::empty()),
            ),
    {
        let mut packet = ControlPacket::new(Request::DeleteFile);
        packet.set_param_1(page as u32);
        packet.set_param_3(file as u32);
        interpret_transmit(self.transmit(&packet, None))
    }
}

/// Folds a transmit outcome into the bare success/failure of the public
/// surface: success exactly when the exchange ran and the response carries
/// no error.
pub fn interpret_transmit(outcome: Result<(ControlPacket, Option<Vec<u8>>), TransmitError>) -> (r:
    Result<(), ()>)
    ensures
        r is Ok <==> (outcome matches Ok((resp, _)) && !resp.spec_has_error()),
{
    match outcome {
        Ok((response, _)) => {
            if response.has_error() {
                Err(())
            } else {
                Ok(())
            }
        },
        Err(_) => Err(()),
    }
}

} // verus!
