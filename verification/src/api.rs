//! Plain data types and the address packing scheme of the library's outer
//! surface: result codes, the 128-bit device-type identifier, the request
//! status quadruple, and the embedding of a USB bus/address pair into the
//! numeric device pointer that foreign callers hold.

use vstd::prelude::*;

verus! {

/// Result code of the outer surface; zero means success.
#[allow(non_camel_case_types)]
pub type HRESULT = i64;

/// 32-bit signed field type of the outer surface.
#[allow(non_camel_case_types)]
pub type DWORD = i32;

/// USB bus number and device address of one physical device.
pub type UsbDeviceAddress = (u8, u8);

/// Numeric device handle handed across the outer boundary; a valid one packs
/// a [`UsbDeviceAddress`] into its low 16 bits.
pub type DevicePtr = u64;

pub const S_OK: HRESULT = 0x00000000;
pub const E_HANDLE: HRESULT = 0x80070006;
pub const E_INVALIDARG: HRESULT = 0x80070057;
pub const E_OUTOFMEMORY: HRESULT = 0x80007000e;
pub const E_NOTIMPL: HRESULT = 0x80004001;
// library errors
pub const E_BUFFERTOOSMALL: HRESULT = 0xff04006f;
pub const E_PAGENOTACTIVE: HRESULT = 0xff040001;

/// A 128-bit device-type identifier in the classic data1..data4 layout.
#[derive(Clone, Copy, PartialEq, Eq, Debug)]
pub struct GUID {
    pub data1: u32,
    pub data2: u16,
    pub data3: u16,
    pub data4: [u8; 8],
}

/// The error and informational fields of one response packet, in the shape
/// the outer surface reports them.
#[allow(non_snake_case)]
#[derive(Clone, Copy, PartialEq, Eq, Structural, Debug)]
pub struct SRequestStatus {
    pub dwHeaderError: DWORD,
    pub dwHeaderInfo: DWORD,
    pub dwRequestError: DWORD,
    pub dwRequestInfo: DWORD,
}

/// The packed form of an address: bus number in the second-lowest byte,
/// device address in the lowest.
pub open spec fn spec_embed_addr(addr: UsbDeviceAddress) -> int {
    addr.0 * 256 + addr.1
}

/// Which address, if any, a device pointer names: the low 16 bits unpacked,
/// unless they are zero or the pointer is 0xffff or more.
pub open spec fn spec_extract_addr(device_ptr: u64) -> Result<UsbDeviceAddress, HRESULT> {
    if device_ptr == 0 || device_ptr >= 0xffff {
        Err(E_HANDLE)
    } else {
        Ok(((device_ptr / 256) as u8, (device_ptr % 256) as u8))
    }
}

/// Unpacks the address named by a foreign device pointer, refusing with
/// `E_HANDLE` a pointer whose low 16 bits are zero or that is 0xffff or more.
pub fn extract_addr(device_ptr: DevicePtr) -> (r: Result<UsbDeviceAddress, HRESULT>)
    ensures
        r == spec_extract_addr(device_ptr),
{
    if device_ptr as u16 == 0 || device_ptr >= 0xffff {
        return Err(E_HANDLE);
    }
    let casted: u16 = device_ptr as u16;
    let hi: u8 = (casted >> 8) as u8;
    let lo: u8 = (casted & 0xff) as u8;
    proof {
        assert(device_ptr != 0 && hi == device_ptr / 256 && lo == device_ptr % 256)
            by (bit_vector)
            requires
                casted == device_ptr as u16,
                casted != 0,
                device_ptr < 0xffff,
                hi == (casted >> 8) as u8,
                lo == (casted & 0xff) as u8,
        ;
    }
    Ok((hi, lo))
}

/// Packs a bus/address pair into the numeric device pointer form.
pub fn embed_addr(device_addr: UsbDeviceAddress) -> (r: DevicePtr)
    ensures
        r == spec_embed_addr(device_addr),
{
    let bus: u8 = device_addr.0;
    let dev: u8 = device_addr.1;
    let packed: u16 = (bus as u16) << 8 | (dev as u16);
    proof {
        assert(packed == bus * 256 + dev) by (bit_vector)
            requires
                packed == (bus as u16) << 8 | (dev as u16),
        ;
    }
    packed as u64
}

/// A packed address survives the embed/extract round trip, except for the
/// two pairs whose packed form is not a valid device pointer: (0, 0) packs
/// to zero and (255, 255) packs to 0xffff.
pub proof fn lemma_addr_round_trip(addr: UsbDeviceAddress)
    requires
        addr != (0u8, 0u8),
        addr != (255u8, 255u8),
    ensures
        spec_extract_addr(spec_embed_addr(addr) as u64) == Ok::<UsbDeviceAddress, HRESULT>(addr),
{
    let a = addr.0 as int;
    let b = addr.1 as int;
    let v = a * 256 + b;
    assert(v / 256 == a && v % 256 == b) by (nonlinear_arith)
        requires
            0 <= a < 256,
            0 <= b < 256,
            v == a * 256 + b,
    ;
    assert(0 <= v <= 0xffff);
    assert(v != 0);
    assert(v != 0xffff) by (nonlinear_arith)
        requires
            0 <= a < 256,
            0 <= b < 256,
            v == a * 256 + b,
            !(a == 255 && b == 255),
    ;
    assert(spec_embed_addr(addr) as u64 == v);
}

} // verus!
