//! The registry's view of the connected panels: one device handle per
//! discovered physical address, and the resolution of a foreign device
//! pointer to a usable display. Enumeration and hot-plug notification live
//! outside the core; this is the lookup structure they maintain.

use vstd::prelude::*;

use crate::api::{DevicePtr, E_HANDLE, HRESULT, UsbDeviceAddress, extract_addr, spec_extract_addr};
use crate::device::DeviceHandle;
use crate::transport::Transport;

verus! {

/// The registered devices, in discovery order. A handle stays registered
/// while its device is absent; readiness is the handle's own affair.
pub struct State<T: Transport> {
    pub displays: Vec<(UsbDeviceAddress, DeviceHandle<T>)>,
}

impl<T: Transport> State<T> {
    /// Index of the first entry at or after `from` carrying the address, or
    /// -1 when none does.
    pub open spec fn spec_index_of(self, addr: UsbDeviceAddress, from: int) -> int
        decreases self.displays@.len() - from,
    {
        if from < 0 || from >= self.displays@.len() {
            -1
        } else if self.displays@[from].0 == addr {
            from
        } else {
            self.spec_index_of(addr, from + 1)
        }
    }

    /// Whether some entry carries the address.
    pub open spec fn spec_contains(self, addr: UsbDeviceAddress) -> bool {
        self.spec_index_of(addr, 0) >= 0
    }

    /// The handle of the first entry carrying the address.
    pub open spec fn spec_lookup(self, addr: UsbDeviceAddress) -> DeviceHandle<T> {
        self.displays@[self.spec_index_of(addr, 0)].1
    }

    /// An empty registry.
    pub fn new() -> (s: State<T>)
        ensures
            s.displays@.len() == 0,
    {
        State { displays: Vec::new() }
    }

    /// Registers one more discovered device.
    pub fn add_display(&mut self, addr: UsbDeviceAddress, handle: DeviceHandle<T>)
        ensures
            final(self).displays@ == old(self).displays@.push((addr, handle)),
    {
        self.displays.push((addr, handle));
    }

    /// Position of the first entry carrying the address, if any.
    pub fn index_of(&self, addr: &UsbDeviceAddress) -> (r: Option<usize>)
        ensures
            (match r {
                Some(i) => i < self.displays@.len() && self.spec_index_of(*addr, 0) == i as int,
                None => self.spec_index_of(*addr, 0) == -1,
            }),
    {
        let n: usize = self.displays.len();
        let mut i: usize = 0;
        while i < n
            invariant
                i <= n,
                n == self.displays@.len(),
                self.spec_index_of(*addr, 0) == self.spec_index_of(*addr, i as int),
            decreases n - i,
        {
            let entry: UsbDeviceAddress = self.displays[i].0;
            if entry.0 == addr.0 && entry.1 == addr.1 {
                return Some(i);
            }
            i = i + 1;
        }
        None
    }

    /// The display registered under the address, if any.
    pub fn display_by_addr(&self, addr: &UsbDeviceAddress) -> (r: Option<&DeviceHandle<T>>)
        ensures
            (match r {
                Some(h) => self.spec_contains(*addr) && *h == self.spec_lookup(*addr),
                None => !self.spec_contains(*addr),
            }),
    {
        match self.index_of(addr) {
            Some(i) => Some(&self.displays[i].1),
            None => None,
        }
    }

    /// The addresses of every registered device, in registration order.
    pub fn display_addrs(&self) -> (r: Vec<UsbDeviceAddress>)
        ensures
            r@.len() == self.displays@.len(),
            forall|i: int| 0 <= i < r@.len() ==> #[trigger] r@[i] == self.displays@[i].0,
    {
        let n: usize = self.displays.len();
        let mut out: Vec<UsbDeviceAddress> = Vec::new();
        let mut i: usize = 0;
        while i < n
            invariant
                i <= n,
                n == self.displays@.len(),
                out@.len() == i,
                forall|k: int| 0 <= k < i ==> #[trigger] out@[k] == self.displays@[k].0,
            decreases n - i,
        {
            out.push(self.displays[i].0);
            i = i + 1;
        }
        out
    }
}

/// Whether a device pointer currently resolves to a usable display: it must
/// unpack to an address, the address must be registered, and the registered
/// device must be ready.
pub open spec fn spec_resolvable<T: Transport>(state: State<T>, device_ptr: DevicePtr) -> bool {
    match spec_extract_addr(device_ptr) {
        Ok(addr) => state.spec_contains(addr) && state.spec_lookup(addr).spec_ready(),
        Err(_) => false,
    }
}

/// Resolves a foreign device pointer to a usable display. A pointer that
/// names no address, an address nobody registered, and a device that is
/// absent or never finished initialization are all refused alike with
/// `E_HANDLE`.
pub fn get_display<'a, T: Transport>(state: &'a State<T>, device_ptr: DevicePtr) -> (r: Result<
    &'a DeviceHandle<T>,
    HRESULT,
>)
    ensures
        (match r {
            Ok(h) => spec_resolvable(*state, device_ptr) && *h == state.spec_lookup(
                spec_extract_addr(device_ptr)->Ok_0,
            ),
            Err(e) => e == E_HANDLE && !spec_resolvable(*state, device_ptr),
        }),
{
    let addr: UsbDeviceAddress = match extract_addr(device_ptr) {
        Ok(a) => a,
        Err(_) => {
            return Err(E_HANDLE);
        },
    };
    let display = match state.display_by_addr(&addr) {
        Some(d) => d,
        None => {
            return Err(E_HANDLE);
        },
    };
    if !display.ready() {
        return Err(E_HANDLE);
    }
    Ok(display)
}

} // verus!
