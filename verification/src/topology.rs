//! Resolution of the device's USB topology at session establishment. The
//! device must expose one HID-class interface and, after it, one
//! vendor-specific interface; the HID interface must carry exactly one input
//! endpoint, the vendor interface exactly one input and one output endpoint.
//! Anything else is a fatal misconfiguration for the connection attempt.
//! The descriptors arrive as plain data read off the device by the runner.

use vstd::prelude::*;

verus! {

/// USB class code of a HID-class interface.
pub const CLASS_HID: u8 = 3;

/// USB class code of a vendor-specific interface.
pub const CLASS_VENDOR_SPEC: u8 = 0xff;

/// One endpoint of an interface: its address and its direction.
#[derive(Clone, Copy, PartialEq, Eq, Structural, Debug)]
pub struct EndpointDesc {
    pub address: u8,
    pub is_input: bool,
}

/// One interface as its first descriptor reports it: interface number, class
/// code, and its endpoints in descriptor order.
#[derive(PartialEq, Eq, Debug)]
pub struct InterfaceDesc {
    pub number: u8,
    pub class_code: u8,
    pub endpoints: Vec<EndpointDesc>,
}

/// The resolved topology a session is built on: the two interface numbers to
/// claim and the three endpoint addresses to drive.
#[derive(Clone, Copy, PartialEq, Eq, Structural, Debug)]
pub struct ConnectionPlan {
    pub hid_interface: u8,
    pub vendor_interface: u8,
    pub hid_endpoint: u8,
    pub read_endpoint: u8,
    pub write_endpoint: u8,
}

/// The fatal misconfigurations of a connection attempt, each naming the
/// expectation the device broke.
#[derive(Clone, Copy, PartialEq, Eq, Structural, Debug)]
pub enum TopologyError {
    MissingHidInterface,
    MissingVendorInterface,
    MultipleHidInputs,
    MultipleVendorInputs,
    MultipleVendorOutputs,
    MissingHidInput,
    MissingVendorInput,
    MissingVendorOutput,
}

/// Index of the first interface at or after `from` whose class code matches,
/// or -1 when none does.
pub open spec fn spec_find_class(interfaces: Seq<InterfaceDesc>, class: u8, from: int) -> int
    decreases interfaces.len() - from,
{
    if from < 0 || from >= interfaces.len() {
        -1
    } else if interfaces[from].class_code == class {
        from
    } else {
        spec_find_class(interfaces, class, from + 1)
    }
}

/// How many endpoints of the sequence have the given direction.
pub open spec fn spec_count_dir(endpoints: Seq<EndpointDesc>, input: bool) -> int
    decreases endpoints.len(),
{
    if endpoints.len() == 0 {
        0
    } else {
        spec_count_dir(endpoints.drop_last(), input) + if endpoints.last().is_input == input {
            1int
        } else {
            0int
        }
    }
}

/// Address of the first endpoint with the given direction; zero when there
/// is none.
pub open spec fn spec_first_dir(endpoints: Seq<EndpointDesc>, input: bool) -> u8
    decreases endpoints.len(),
{
    if endpoints.len() == 0 {
        0
    } else if endpoints[0].is_input == input {
        endpoints[0].address
    } else {
        spec_first_dir(endpoints.subrange(1, endpoints.len() as int), input)
    }
}

/// The full resolution rule: the first HID-class interface, then the first
/// vendor-specific interface after it, each with exactly the endpoints the
/// protocol drives; the first violation found, in this fixed order of
/// checks, fails the attempt.
pub open spec fn spec_plan(interfaces: Seq<InterfaceDesc>) -> Result<
    ConnectionPlan,
    TopologyError,
> {
    let hid = spec_find_class(interfaces, CLASS_HID, 0);
    let vendor = spec_find_class(interfaces, CLASS_VENDOR_SPEC, hid + 1);
    if hid == -1 {
        Err(TopologyError::MissingHidInterface)
    } else if vendor == -1 {
        Err(TopologyError::MissingVendorInterface)
    } else {
        let hid_eps = interfaces[hid].endpoints@;
        let vendor_eps = interfaces[vendor].endpoints@;
        if spec_count_dir(hid_eps, true) > 1 {
            Err(TopologyError::MultipleHidInputs)
        } else if spec_count_dir(vendor_eps, true) > 1 {
            Err(TopologyError::MultipleVendorInputs)
        } else if spec_count_dir(vendor_eps, false) > 1 {
            Err(TopologyError::MultipleVendorOutputs)
        } else if spec_count_dir(hid_eps, true) == 0 {
            Err(TopologyError::MissingHidInput)
        } else if spec_count_dir(vendor_eps, true) == 0 {
            Err(TopologyError::MissingVendorInput)
        } else if spec_count_dir(vendor_eps, false) == 0 {
            Err(TopologyError::MissingVendorOutput)
        } else {
            Ok(
                ConnectionPlan {
                    hid_interface: interfaces[hid].number,
                    vendor_interface: interfaces[vendor].number,
                    hid_endpoint: spec_first_dir(hid_eps, true),
                    read_endpoint: spec_first_dir(vendor_eps, true),
                    write_endpoint: spec_first_dir(vendor_eps, false),
                },
            )
        }
    }
}

/// Finds the first interface at or after `from` with the given class code.
fn find_class(interfaces: &Vec<InterfaceDesc>, class: u8, from: usize) -> (r: Option<usize>)
    requires
        from <= interfaces@.len(),
    ensures
        (match r {
            Some(i) => from <= i < interfaces@.len() && spec_find_class(
                interfaces@,
                class,
                from as int,
            ) == i as int,
            None => spec_find_class(interfaces@, class, from as int) == -1,
        }),
{
    let n: usize = interfaces.len();
    let mut i: usize = from;
    while i < n
        invariant
            from <= i <= n,
            n == interfaces@.len(),
            spec_find_class(interfaces@, class, from as int) == spec_find_class(
                interfaces@,
                class,
                i as int,
            ),
        decreases n - i,
    {
        if interfaces[i].class_code == class {
            return Some(i);
        }
        i = i + 1;
    }
    None
}

/// Counts the endpoints of one direction and remembers the first of them.
fn scan_dir(endpoints: &Vec<EndpointDesc>, input: bool) -> (r: (usize, u8))
    ensures
        r.0 == spec_count_dir(endpoints@, input),
        spec_count_dir(endpoints@, input) > 0 ==> r.1 == spec_first_dir(endpoints@, input),
{
    let n: usize = endpoints.len();
    proof {
        assert(endpoints@.subrange(0, n as int) =~= endpoints@);
    }
    let mut count: usize = 0;
    let mut first: u8 = 0;
    let mut i: usize = 0;
    while i < n
        invariant
            i <= n,
            n == endpoints@.len(),
            count <= i,
            count == spec_count_dir(endpoints@.take(i as int), input),
            (if count > 0 {
                first
            } else {
                spec_first_dir(endpoints@.subrange(i as int, n as int), input)
            }) == spec_first_dir(endpoints@, input),
        decreases n - i,
    {
        proof {
            assert(endpoints@.take(i as int + 1).drop_last() =~= endpoints@.take(i as int));
            assert(endpoints@.take(i as int + 1).last() == endpoints@[i as int]);
            assert(endpoints@.subrange(i as int, n as int)[0] == endpoints@[i as int]);
            assert(endpoints@.subrange(i as int, n as int).subrange(
                1,
                n as int - i as int,
            ) =~= endpoints@.subrange(i as int + 1, n as int));
        }
        if endpoints[i].is_input == input {
            if count == 0 {
                first = endpoints[i].address;
            }
            count = count + 1;
        }
        i = i + 1;
    }
    proof {
        assert(endpoints@.take(n as int) =~= endpoints@);
    }
    (count, first)
}

/// Resolves the topology of a connection attempt from the device's interface
/// descriptors, exactly as [`spec_plan`] lays the rule down.
pub fn plan_connection(interfaces: &Vec<InterfaceDesc>) -> (r: Result<
    ConnectionPlan,
    TopologyError,
>)
    ensures
        r == spec_plan(interfaces@),
{
    // binding the length as a usize teaches the verifier that `hid + 1`
    // cannot overflow below
    let _interface_count: usize = interfaces.len();
    let hid: usize = match find_class(interfaces, CLASS_HID, 0) {
        Some(i) => i,
        None => {
            return Err(TopologyError::MissingHidInterface);
        },
    };
    let vendor: usize = match find_class(interfaces, CLASS_VENDOR_SPEC, hid + 1) {
        Some(i) => i,
        None => {
            return Err(TopologyError::MissingVendorInterface);
        },
    };
    let (hid_in_count, hid_in) = scan_dir(&interfaces[hid].endpoints, true);
    let (vendor_in_count, vendor_in) = scan_dir(&interfaces[vendor].endpoints, true);
    let (vendor_out_count, vendor_out) = scan_dir(&interfaces[vendor].endpoints, false);
    if hid_in_count > 1 {
        Err(TopologyError::MultipleHidInputs)
    } else if vendor_in_count > 1 {
        Err(TopologyError::MultipleVendorInputs)
    } else if vendor_out_count > 1 {
        Err(TopologyError::MultipleVendorOutputs)
    } else if hid_in_count == 0 {
        Err(TopologyError::MissingHidInput)
    } else if vendor_in_count == 0 {
        Err(TopologyError::MissingVendorInput)
    } else if vendor_out_count == 0 {
        Err(TopologyError::MissingVendorOutput)
    } else {
        Ok(
            ConnectionPlan {
                hid_interface: interfaces[hid].number,
                vendor_interface: interfaces[vendor].number,
                hid_endpoint: hid_in,
                read_endpoint: vendor_in,
                write_endpoint: vendor_out,
            },
        )
    }
}

} // verus!
