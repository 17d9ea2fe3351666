//! One live, claimed USB connection and its transaction discipline. The
//! protocol is strictly half-duplex request/response with no request
//! identifiers, so serializing exchanges is the only thing that keeps a
//! response attached to its request: `transact` takes the session
//! exclusively, and at most one write+read pair is ever in flight.

use vstd::prelude::*;

use crate::api::GUID;
use crate::packet::{ControlPacket, PACKET_SIZE};
use crate::transport::{Transport, TransportError};

verus! {

/// Hard cap on a declared response payload, bounding memory against a
/// malformed device: reaching it means the byte stream has desynchronized.
pub const MAX_DATA_SIZE: usize = 512 * 1024;

/// Timeout of every control-protocol transfer.
pub const IO_TIMEOUT_MS: u64 = 5000;

/// An unrecoverable violation of the transaction protocol: a transfer that
/// moved fewer bytes than the protocol requires, or a declared payload at or
/// over the hard cap. Neither is retried within the transaction.
#[derive(Clone, Copy, PartialEq, Eq, Structural, Debug)]
pub enum ProtocolViolation {
    ShortTransfer,
    OversizedPayload,
}

/// Why a transaction failed: the transport faulted, or the byte stream broke
/// the protocol. A response whose error fields are set is *not* a failure of
/// this kind; it is a normal outcome handed back as a packet.
#[derive(Clone, Copy, PartialEq, Eq, Structural, Debug)]
pub enum TransactError {
    Transport(TransportError),
    Violation(ProtocolViolation),
}

/// What the read phase must do about a declared payload size.
#[derive(Clone, Copy, PartialEq, Eq, Structural, Debug)]
pub enum PayloadPlan {
    /// Size zero: the response carries no payload.
    Empty,
    /// A payload of this many bytes follows and must be read.
    Fetch(usize),
    /// The declared size reaches the hard cap: abort, do not allocate.
    TooBig,
}

/// The read-phase rule for a declared payload size.
pub open spec fn spec_payload_plan(declared: int) -> PayloadPlan {
    if declared == 0 {
        PayloadPlan::Empty
    } else if declared >= MAX_DATA_SIZE {
        PayloadPlan::TooBig
    } else {
        PayloadPlan::Fetch(declared as usize)
    }
}

/// Decides, before any allocation, whether a declared payload size is empty,
/// readable, or over the hard cap.
pub fn payload_plan(declared: usize) -> (r: PayloadPlan)
    ensures
        r == spec_payload_plan(declared as int),
{
    if declared == 0 {
        PayloadPlan::Empty
    } else if declared >= MAX_DATA_SIZE {
        PayloadPlan::TooBig
    } else {
        PayloadPlan::Fetch(declared)
    }
}

/// The length of an optional payload; a missing payload has length zero.
pub open spec fn spec_opt_len(payload: Option<&[u8]>) -> int {
    match payload {
        Some(d) => d@.len() as int,
        None => 0,
    }
}

/// The bytes of an optional payload; a missing payload is empty.
pub open spec fn spec_opt_bytes(payload: Option<&[u8]>) -> Seq<u8> {
    match payload {
        Some(d) => d@,
        None => Seq::<u8>::empty(),
    }
}

/// One live, claimed USB connection to one physical device: its transport,
/// the serial number and fixed type identifier read at session creation
/// (immutable from then on), and — in the ghost world — the trace of
/// requests pushed through the connection.
pub struct Session<T: Transport> {
    pub transport: T,
    pub serial_number: String,
    pub device_type: GUID,
    /// Every request attempted on this session, in order, with the payload
    /// bytes that accompanied it. Exactly one entry is appended per
    /// `transact` call, which takes the session exclusively: transactions
    /// are serialized and never interleave.
    pub sent: Ghost<Seq<(ControlPacket, Seq<u8>)>>,
}

impl<T: Transport> Session<T> {
    /// Wraps a freshly claimed connection with the identity read at creation.
    pub fn new(transport: T, serial_number: String, device_type: GUID) -> (s: Session<T>)
        ensures
            s.transport == transport,
            s.serial_number == serial_number,
            s.device_type == device_type,
            s.sent@ == Seq::<(ControlPacket, Seq<u8>)>::empty(),
    {
        Session {
            transport,
            serial_number,
            device_type,
            sent: Ghost(Seq::empty()),
        }
    }

    /// Write phase: the 44-byte encoded packet, then the payload if one is
    /// supplied. A transfer that writes fewer bytes than handed to it is a
    /// protocol violation.
    fn write_request(&mut self, packet: &ControlPacket, payload: Option<&[u8]>) -> (r: Result<
        (),
        TransactError,
    >)
        ensures
            final(self).serial_number == old(self).serial_number,
            final(self).device_type == old(self).device_type,
            final(self).sent == old(self).sent,
    {
        let encoded: Vec<u8> = packet.encode();
        let written: usize = match self.transport.write_bulk(encoded.as_slice(), IO_TIMEOUT_MS) {
            Ok(n) => n,
            Err(e) => {
                return Err(TransactError::Transport(e));
            },
        };
        if written != encoded.len() {
            return Err(TransactError::Violation(ProtocolViolation::ShortTransfer));
        }
        match payload {
            Some(data) => {
                if data.len() > 0 {
                    let written: usize = match self.transport.write_bulk(data, IO_TIMEOUT_MS) {
                        Ok(n) => n,
                        Err(e) => {
                            return Err(TransactError::Transport(e));
                        },
                    };
                    if written != data.len() {
                        return Err(TransactError::Violation(ProtocolViolation::ShortTransfer));
                    }
                }
                Ok(())
            },
            None => Ok(()),
        }
    }

    /// Read phase: exactly 44 bytes of response packet, then, if the response
    /// declares a payload, that many further bytes — unless the declared size
    /// reaches the hard cap, which aborts the transaction before any
    /// allocation is attempted.
    fn read_response(&mut self) -> (r: Result<(ControlPacket, Option<Vec<u8>>), TransactError>)
        ensures
            final(self).serial_number == old(self).serial_number,
            final(self).device_type == old(self).device_type,
            final(self).sent == old(self).sent,
            (match r {
                Ok((resp, data)) => match data {
                    Some(d) => 0 < resp.data_size < MAX_DATA_SIZE && d@.len() == resp.data_size,
                    None => resp.data_size == 0,
                },
                Err(_) => true,
            }),
    {
        let header: Vec<u8> = match self.transport.read_bulk(PACKET_SIZE, IO_TIMEOUT_MS) {
            Ok(b) => b,
            Err(e) => {
                return Err(TransactError::Transport(e));
            },
        };
        if header.len() != PACKET_SIZE {
            return Err(TransactError::Violation(ProtocolViolation::ShortTransfer));
        }
        let response = ControlPacket::decode(header.as_slice());
        match payload_plan(response.data_size()) {
            PayloadPlan::Empty => Ok((response, None)),
            PayloadPlan::TooBig => Err(TransactError::Violation(ProtocolViolation::OversizedPayload)),
            PayloadPlan::Fetch(len) => {
                let data: Vec<u8> = match self.transport.read_bulk(len, IO_TIMEOUT_MS) {
                    Ok(d) => d,
                    Err(e) => {
                        return Err(TransactError::Transport(e));
                    },
                };
                if data.len() != len {
                    return Err(TransactError::Violation(ProtocolViolation::ShortTransfer));
                }
                Ok((response, Some(data)))
            },
        }
    }

    /// One full request/response exchange. The exclusive borrow is the
    /// transaction lock: no second exchange can begin on this session until
    /// this one has returned, on every exit path. A payload's length must
    /// equal the packet's declared data size. Transport failures propagate
    /// unchanged; a response with its error fields set is handed back as a
    /// normal packet, never conflated with a transport fault.
    pub fn transact(&mut self, packet: &ControlPacket, payload: Option<&[u8]>) -> (r: Result<
        (ControlPacket, Option<Vec<u8>>),
        TransactError,
    >)
        requires
            spec_opt_len(payload) == packet.data_size as int,
        ensures
            final(self).serial_number == old(self).serial_number,
            final(self).device_type == old(self).device_type,
            final(self).sent@ == old(self).sent@.push((*packet, spec_opt_bytes(payload))),
            (match r {
                Ok((resp, data)) => match data {
                    Some(d) => 0 < resp.data_size < MAX_DATA_SIZE && d@.len() == resp.data_size,
                    None => resp.data_size == 0,
                },
                Err(_) => true,
            }),
    {
        self.sent = Ghost(self.sent@.push((*packet, spec_opt_bytes(payload))));
        match self.write_request(packet, payload) {
            Ok(()) => self.read_response(),
            Err(e) => Err(e),
        }
    }
}

} // verus!
