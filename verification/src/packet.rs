//! The fixed-size control packet of the vendor protocol: eleven 32-bit
//! big-endian fields in fixed order, 44 bytes in all, with no padding between
//! fields. A payload of `data_size` bytes may follow (or, on reads, precede)
//! the packet on the same endpoint.

use vstd::prelude::*;

verus! {

/// Number of bytes of an encoded control packet: eleven 32-bit fields.
pub const PACKET_SIZE: usize = 44;

/// The closed catalogue of known request opcodes. Some wire opcodes are
/// reused for semantically distinct operations told apart only by which
/// parameter slots are populated; that is a property of the wire protocol
/// and is preserved as such.
#[derive(Clone, Copy, PartialEq, Eq, Structural, Debug)]
pub enum Request {
    /// Opcode 0x02: notification that a folder was removed (meaning uncertain).
    FolderRemoved,
    /// Opcode 0x03: save a file payload on the device.
    SaveFile,
    /// Opcode 0x04: set the image from a stored file.
    SetImageFile,
    /// Opcode 0x06: set the image from a raw payload.
    SetImage,
    /// Opcode 0x07: delete or display a stored file, told apart by the
    /// populated parameters.
    DeleteFile,
    /// Opcode 0x09: start a server on the device.
    StartServer,
    /// Opcode 0x0a: probe for factory mode, a device mode this protocol must
    /// not drive (semantics uncertain).
    SomeFactoryModeRequest,
    /// Opcode 0x13: clear the image of a page.
    ClearImage,
    /// Opcode 0x18: set one LED of a page.
    SetLed,
}

/// The numeric opcode of each catalogued request.
pub open spec fn spec_request_code(r: Request) -> u32 {
    match r {
        Request::FolderRemoved => 0x02,
        Request::SaveFile => 0x03,
        Request::SetImageFile => 0x04,
        Request::SetImage => 0x06,
        Request::DeleteFile => 0x07,
        Request::StartServer => 0x09,
        Request::SomeFactoryModeRequest => 0x0a,
        Request::ClearImage => 0x13,
        Request::SetLed => 0x18,
    }
}

/// The catalogued request of a numeric opcode, or the opcode itself where the
/// catalogue does not know it.
pub open spec fn spec_request_from_code(code: u32) -> Result<Request, u32> {
    if code == 0x02 {
        Ok(Request::FolderRemoved)
    } else if code == 0x03 {
        Ok(Request::SaveFile)
    } else if code == 0x04 {
        Ok(Request::SetImageFile)
    } else if code == 0x06 {
        Ok(Request::SetImage)
    } else if code == 0x07 {
        Ok(Request::DeleteFile)
    } else if code == 0x09 {
        Ok(Request::StartServer)
    } else if code == 0x0a {
        Ok(Request::SomeFactoryModeRequest)
    } else if code == 0x13 {
        Ok(Request::ClearImage)
    } else if code == 0x18 {
        Ok(Request::SetLed)
    } else {
        Err(code)
    }
}

impl Request {
    /// The numeric opcode of this request.
    pub fn code(self) -> (c: u32)
        ensures
            c == spec_request_code(self),
    {
        match self {
            Request::FolderRemoved => 0x02,
            Request::SaveFile => 0x03,
            Request::SetImageFile => 0x04,
            Request::SetImage => 0x06,
            Request::DeleteFile => 0x07,
            Request::StartServer => 0x09,
            Request::SomeFactoryModeRequest => 0x0a,
            Request::ClearImage => 0x13,
            Request::SetLed => 0x18,
        }
    }

    /// Looks an opcode up in the catalogue; an unknown opcode is handed back
    /// unchanged, so that a response carrying one can still be inspected.
    pub fn from_code(code: u32) -> (r: Result<Request, u32>)
        ensures
            r == spec_request_from_code(code),
    {
        if code == 0x02 {
            Ok(Request::FolderRemoved)
        } else if code == 0x03 {
            Ok(Request::SaveFile)
        } else if code == 0x04 {
            Ok(Request::SetImageFile)
        } else if code == 0x06 {
            Ok(Request::SetImage)
        } else if code == 0x07 {
            Ok(Request::DeleteFile)
        } else if code == 0x09 {
            Ok(Request::StartServer)
        } else if code == 0x0a {
            Ok(Request::SomeFactoryModeRequest)
        } else if code == 0x13 {
            Ok(Request::ClearImage)
        } else if code == 0x18 {
            Ok(Request::SetLed)
        } else {
            Err(code)
        }
    }
}

/// Every catalogued opcode survives the code/lookup round trip.
pub proof fn lemma_request_code_round_trip(r: Request)
    ensures
        spec_request_from_code(spec_request_code(r)) == Ok::<Request, u32>(r),
{
}

/// The 44-byte control packet, decoded: eleven unsigned 32-bit fields in wire
/// order. `page` is logically an 8-bit value stored widened to 32 bits;
/// `data_size` declares the length in bytes of the payload accompanying the
/// packet; a nonzero `header_error` or `request_error` marks a failure
/// reported by the device.
#[derive(Clone, Copy, PartialEq, Eq, Structural, Debug)]
pub struct ControlPacket {
    pub server_id: u32,
    pub page: u32,
    pub data_size: u32,
    pub header_error: u32,
    pub header_info: u32,
    pub request: u32,
    pub param_1: u32,
    pub param_2: u32,
    pub param_3: u32,
    pub request_error: u32,
    pub request_info: u32,
}

/// The four big-endian bytes of a 32-bit value.
pub open spec fn spec_u32_be(x: u32) -> Seq<u8> {
    seq![
        (x >> 24) as u8,
        ((x >> 16) & 0xff) as u8,
        ((x >> 8) & 0xff) as u8,
        (x & 0xff) as u8,
    ]
}

/// The 32-bit value read from four big-endian bytes.
pub open spec fn spec_u32_from_be(b0: u8, b1: u8, b2: u8, b3: u8) -> u32 {
    ((b0 as u32) << 24) | ((b1 as u32) << 16) | ((b2 as u32) << 8) | (b3 as u32)
}

/// Reassembling the big-endian bytes of a value gives the value back.
pub proof fn lemma_u32_be_round_trip(x: u32)
    ensures
        spec_u32_from_be(spec_u32_be(x)[0], spec_u32_be(x)[1], spec_u32_be(x)[2], spec_u32_be(x)[3]) == x,
{
    let b0 = (x >> 24) as u8;
    let b1 = ((x >> 16) & 0xff) as u8;
    let b2 = ((x >> 8) & 0xff) as u8;
    let b3 = (x & 0xff) as u8;
    assert(spec_u32_from_be(b0, b1, b2, b3) == x) by (bit_vector)
        requires
            b0 == (x >> 24) as u8,
            b1 == ((x >> 16) & 0xff) as u8,
            b2 == ((x >> 8) & 0xff) as u8,
            b3 == (x & 0xff) as u8,
    ;
}

/// The wire form of a packet: each field's big-endian bytes, in field order.
pub open spec fn spec_encode(p: ControlPacket) -> Seq<u8> {
    spec_u32_be(p.server_id) + spec_u32_be(p.page) + spec_u32_be(p.data_size)
        + spec_u32_be(p.header_error) + spec_u32_be(p.header_info) + spec_u32_be(p.request)
        + spec_u32_be(p.param_1) + spec_u32_be(p.param_2) + spec_u32_be(p.param_3)
        + spec_u32_be(p.request_error) + spec_u32_be(p.request_info)
}

/// Field number `i` of a 44-byte wire packet.
pub open spec fn spec_field(bytes: Seq<u8>, i: int) -> u32 {
    spec_u32_from_be(bytes[4 * i], bytes[4 * i + 1], bytes[4 * i + 2], bytes[4 * i + 3])
}

/// The packet read from a 44-byte wire form.
pub open spec fn spec_decode(bytes: Seq<u8>) -> ControlPacket {
    ControlPacket {
        server_id: spec_field(bytes, 0),
        page: spec_field(bytes, 1),
        data_size: spec_field(bytes, 2),
        header_error: spec_field(bytes, 3),
        header_info: spec_field(bytes, 4),
        request: spec_field(bytes, 5),
        param_1: spec_field(bytes, 6),
        param_2: spec_field(bytes, 7),
        param_3: spec_field(bytes, 8),
        request_error: spec_field(bytes, 9),
        request_info: spec_field(bytes, 10),
    }
}

/// An all-zero packet carrying the given opcode.
pub open spec fn spec_new_packet(code: u32) -> ControlPacket {
    ControlPacket {
        server_id: 0,
        page: 0,
        data_size: 0,
        header_error: 0,
        header_info: 0,
        request: code,
        param_1: 0,
        param_2: 0,
        param_3: 0,
        request_error: 0,
        request_info: 0,
    }
}

/// Appends the four big-endian bytes of a value.
fn push_u32_be(out: &mut Vec<u8>, x: u32)
    ensures
        final(out)@ == old(out)@ + spec_u32_be(x),
{
    out.push((x >> 24) as u8);
    out.push(((x >> 16) & 0xff) as u8);
    out.push(((x >> 8) & 0xff) as u8);
    out.push((x & 0xff) as u8);
    proof {
        assert(out@ =~= old(out)@ + spec_u32_be(x));
    }
}

/// Reads the 32-bit big-endian value at `offset`.
fn read_u32_be(bytes: &[u8], offset: usize) -> (r: u32)
    requires
        offset + 4 <= bytes@.len(),
    ensures
        r == spec_u32_from_be(
            bytes@[offset as int],
            bytes@[offset as int + 1],
            bytes@[offset as int + 2],
            bytes@[offset as int + 3],
        ),
{
    let b0: u8 = bytes[offset];
    let b1: u8 = bytes[offset + 1];
    let b2: u8 = bytes[offset + 2];
    let b3: u8 = bytes[offset + 3];
    ((b0 as u32) << 24) | ((b1 as u32) << 16) | ((b2 as u32) << 8) | (b3 as u32)
}

impl ControlPacket {
    /// An all-zero packet carrying the given request's opcode.
    pub fn new(request: Request) -> (p: ControlPacket)
        ensures
            p == spec_new_packet(spec_request_code(request)),
    {
        ControlPacket {
            server_id: 0,
            page: 0,
            data_size: 0,
            header_error: 0,
            header_info: 0,
            request: request.code(),
            param_1: 0,
            param_2: 0,
            param_3: 0,
            request_error: 0,
            request_info: 0,
        }
    }

    /// Encodes the packet into its 44-byte wire form.
    pub fn encode(&self) -> (r: Vec<u8>)
        ensures
            r@ == spec_encode(*self),
            r@.len() == PACKET_SIZE,
    {
        let mut out: Vec<u8> = Vec::new();
        push_u32_be(&mut out, self.server_id);
        push_u32_be(&mut out, self.page);
        push_u32_be(&mut out, self.data_size);
        push_u32_be(&mut out, self.header_error);
        push_u32_be(&mut out, self.header_info);
        push_u32_be(&mut out, self.request);
        push_u32_be(&mut out, self.param_1);
        push_u32_be(&mut out, self.param_2);
        push_u32_be(&mut out, self.param_3);
        push_u32_be(&mut out, self.request_error);
        push_u32_be(&mut out, self.request_info);
        proof {
            assert(out@ =~= spec_encode(*self));
        }
        out
    }

    /// Decodes a 44-byte wire form back into a packet.
    pub fn decode(bytes: &[u8]) -> (r: ControlPacket)
        requires
            bytes@.len() == PACKET_SIZE,
        ensures
            r == spec_decode(bytes@),
    {
        ControlPacket {
            server_id: read_u32_be(bytes, 0),
            page: read_u32_be(bytes, 4),
            data_size: read_u32_be(bytes, 8),
            header_error: read_u32_be(bytes, 12),
            header_info: read_u32_be(bytes, 16),
            request: read_u32_be(bytes, 20),
            param_1: read_u32_be(bytes, 24),
            param_2: read_u32_be(bytes, 28),
            param_3: read_u32_be(bytes, 32),
            request_error: read_u32_be(bytes, 36),
            request_info: read_u32_be(bytes, 40),
        }
    }

    pub fn server_id(&self) -> (r: u32)
        ensures
            r == self.server_id,
    {
        self.server_id
    }

    pub fn set_server_id(&mut self, value: u32)
        ensures
            *final(self) == (ControlPacket { server_id: value, ..*old(self) }),
    {
        self.server_id = value;
    }

    /// The page field, which is logically 8-bit; a wider stored value is a
    /// programming error and is ruled out here.
    pub fn page(&self) -> (r: u8)
        requires
            self.page <= 255,
        ensures
            r == self.page,
    {
        self.page as u8
    }

    pub fn set_page(&mut self, value: u8)
        ensures
            *final(self) == (ControlPacket { page: value as u32, ..*old(self) }),
    {
        self.page = value as u32;
    }

    pub fn data_size(&self) -> (r: usize)
        ensures
            r == self.data_size,
    {
        self.data_size as usize
    }

    pub fn set_data_size(&mut self, value: usize)
        requires
            value <= u32::MAX,
        ensures
            *final(self) == (ControlPacket { data_size: value as u32, ..*old(self) }),
    {
        self.data_size = value as u32;
    }

    pub fn header_error(&self) -> (r: u32)
        ensures
            r == self.header_error,
    {
        self.header_error
    }

    pub fn set_header_error(&mut self, value: u32)
        ensures
            *final(self) == (ControlPacket { header_error: value, ..*old(self) }),
    {
        self.header_error = value;
    }

    pub fn header_info(&self) -> (r: u32)
        ensures
            r == self.header_info,
    {
        self.header_info
    }

    pub fn set_header_info(&mut self, value: u32)
        ensures
            *final(self) == (ControlPacket { header_info: value, ..*old(self) }),
    {
        self.header_info = value;
    }

    /// The request opcode, looked up in the catalogue; an unknown opcode is
    /// reported as such rather than failing the whole packet, so that error
    /// fields of such a response stay inspectable.
    pub fn request(&self) -> (r: Result<Request, u32>)
        ensures
            r == spec_request_from_code(self.request),
    {
        Request::from_code(self.request)
    }

    pub fn set_request(&mut self, value: Request)
        ensures
            *final(self) == (ControlPacket { request: spec_request_code(value), ..*old(self) }),
    {
        self.request = value.code();
    }

    pub fn param_1(&self) -> (r: u32)
        ensures
            r == self.param_1,
    {
        self.param_1
    }

    pub fn set_param_1(&mut self, value: u32)
        ensures
            *final(self) == (ControlPacket { param_1: value, ..*old(self) }),
    {
        self.param_1 = value;
    }

    pub fn param_2(&self) -> (r: u32)
        ensures
            r == self.param_2,
    {
        self.param_2
    }

    pub fn set_param_2(&mut self, value: u32)
        ensures
            *final(self) == (ControlPacket { param_2: value, ..*old(self) }),
    {
        self.param_2 = value;
    }

    pub fn param_3(&self) -> (r: u32)
        ensures
            r == self.param_3,
    {
        self.param_3
    }

    pub fn set_param_3(&mut self, value: u32)
        ensures
            *final(self) == (ControlPacket { param_3: value, ..*old(self) }),
    {
        self.param_3 = value;
    }

    pub fn request_error(&self) -> (r: u32)
        ensures
            r == self.request_error,
    {
        self.request_error
    }

    pub fn set_request_error(&mut self, value: u32)
        ensures
            *final(self) == (ControlPacket { request_error: value, ..*old(self) }),
    {
        self.request_error = value;
    }

    pub fn request_info(&self) -> (r: u32)
        ensures
            r == self.request_info,
    {
        self.request_info
    }

    pub fn set_request_info(&mut self, value: u32)
        ensures
            *final(self) == (ControlPacket { request_info: value, ..*old(self) }),
    {
        self.request_info = value;
    }

    /// Whether the packet reports an error.
    pub open spec fn spec_has_error(&self) -> bool {
        self.header_error > 0 || self.request_error > 0
    }

    /// A packet has an error if and only if its header error or its request
    /// error field is nonzero.
    pub fn has_error(&self) -> (r: bool)
        ensures
            r == self.spec_has_error(),
    {
        self.header_error() > 0 || self.request_error() > 0
    }
}

/// Law: encoding a packet and decoding the resulting 44 bytes reproduces
/// every field exactly, for all representable field values.
pub proof fn lemma_packet_round_trip(p: ControlPacket)
    ensures
        spec_decode(spec_encode(p)) == p,
{
    let e = spec_encode(p);
    assert(e[0] == spec_u32_be(p.server_id)[0]);
    lemma_u32_be_round_trip(p.server_id);
    lemma_u32_be_round_trip(p.page);
    lemma_u32_be_round_trip(p.data_size);
    lemma_u32_be_round_trip(p.header_error);
    lemma_u32_be_round_trip(p.header_info);
    lemma_u32_be_round_trip(p.request);
    lemma_u32_be_round_trip(p.param_1);
    lemma_u32_be_round_trip(p.param_2);
    lemma_u32_be_round_trip(p.param_3);
    lemma_u32_be_round_trip(p.request_error);
    lemma_u32_be_round_trip(p.request_info);
}

} // verus!
