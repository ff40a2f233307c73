//! Picking the device out of an enumeration and the endpoint roles out of
//! its interface descriptors.
use vstd::prelude::*;
use crate::usb_types::{EndpointProblem, UsbError};

verus! {

/// Vendor and product ID of an attached device.
#[derive(Clone, Copy, Debug, PartialEq, Eq, Structural)]
pub struct DeviceId {
    pub vendor_id: u16,
    pub product_id: u16,
}

#[derive(Clone, Copy, Debug, PartialEq, Eq, Structural)]
pub enum Direction {
    In,
    Out,
}

#[derive(Clone, Copy, Debug, PartialEq, Eq, Structural)]
pub enum TransferType {
    Control,
    Isochronous,
    Bulk,
    Interrupt,
}

#[derive(Clone, Copy, Debug, PartialEq, Eq, Structural)]
pub struct EndpointDescriptor {
    pub address: u8,
    pub direction: Direction,
    pub transfer_type: TransferType,
}

/// One interface descriptor (an alternate setting) with its endpoints, in
/// descriptor order.
#[derive(Clone, Debug)]
pub struct InterfaceDescriptor {
    pub interface_number: u8,
    pub endpoints: Vec<EndpointDescriptor>,
}

/// The endpoints that the session talks to.
#[derive(Clone, Copy, Debug, PartialEq, Eq, Structural)]
pub struct EndpointRoles {
    /// Interrupt OUT endpoint for commands.
    pub command: u8,
    /// Interrupt IN endpoint for responses.
    pub response: u8,
    /// Interrupt IN endpoint for pushed frames.
    pub push: u8,
}

/// Index of the first device in `ds` with the given IDs.
pub open spec fn first_device(ds: Seq<DeviceId>, vid: u16, pid: u16) -> Option<int>
    decreases ds.len(),
{
    if ds.len() == 0 {
        None
    } else {
        match first_device(ds.drop_last(), vid, pid) {
            Some(i) => Some(i),
            None => if ds.last().vendor_id == vid && ds.last().product_id == pid {
                Some(ds.len() - 1)
            } else {
                None
            },
        }
    }
}

/// Index of the first descriptor in `ds` of interface `n`.
pub open spec fn first_interface(ds: Seq<InterfaceDescriptor>, n: u8) -> Option<int>
    decreases ds.len(),
{
    if ds.len() == 0 {
        None
    } else {
        match first_interface(ds.drop_last(), n) {
            Some(i) => Some(i),
            None => if ds.last().interface_number == n {
                Some(ds.len() - 1)
            } else {
                None
            },
        }
    }
}

/// Whether `e` is an interrupt endpoint of direction `d` that can take a
/// role; address 0 never carries commands.
pub open spec fn is_interrupt(e: EndpointDescriptor, d: Direction) -> bool {
    &&& e.transfer_type == TransferType::Interrupt
    &&& e.direction == d
    &&& (d == Direction::Out ==> e.address != 0)
}

/// Addresses of the interrupt endpoints of direction `d` that can take a
/// role, in descriptor order.
pub open spec fn interrupt_addresses(eps: Seq<EndpointDescriptor>, d: Direction) -> Seq<u8>
    decreases eps.len(),
{
    if eps.len() == 0 {
        Seq::empty()
    } else if is_interrupt(eps.last(), d) {
        interrupt_addresses(eps.drop_last(), d).push(eps.last().address)
    } else {
        interrupt_addresses(eps.drop_last(), d)
    }
}

/// The roles that the endpoints `eps` of the claimed interface take: the
/// first interrupt OUT endpoint with a non-zero address carries commands, the first interrupt IN
/// endpoint responses, and the second (else the first) pushed frames.
pub open spec fn roles_of(eps: Seq<EndpointDescriptor>) -> Result<EndpointRoles, UsbError> {
    let outs = interrupt_addresses(eps, Direction::Out);
    let ins = interrupt_addresses(eps, Direction::In);
    if outs.len() == 0 {
        Err(UsbError::EndpointNotFound(EndpointProblem::CommandEndpointMissing))
    } else if ins.len() == 0 {
        Err(UsbError::EndpointNotFound(EndpointProblem::InEndpointMissing))
    } else {
        Ok(
            EndpointRoles {
                command: outs[0],
                response: ins[0],
                push: if ins.len() > 1 { ins[1] } else { ins[0] },
            },
        )
    }
}

/// The endpoint roles on interface `n` of the descriptors `ds`.
pub open spec fn endpoint_roles(ds: Seq<InterfaceDescriptor>, n: u8) -> Result<EndpointRoles, UsbError> {
    match first_interface(ds, n) {
        None => Err(UsbError::EndpointNotFound(EndpointProblem::InterfaceMissing)),
        Some(i) => roles_of(ds[i].endpoints@),
    }
}

proof fn lemma_interrupt_addresses_prefix(eps: Seq<EndpointDescriptor>, d: Direction, i: int)
    requires
        0 <= i < eps.len(),
    ensures
        interrupt_addresses(eps.subrange(0, i + 1), d) == if is_interrupt(eps[i], d) {
            interrupt_addresses(eps.subrange(0, i), d).push(eps[i].address)
        } else {
            interrupt_addresses(eps.subrange(0, i), d)
        },
{
    assert(eps.subrange(0, i + 1).drop_last() =~= eps.subrange(0, i));
}

/// Index of the first device in `ds` with the given vendor and product ID.
pub fn select_device(ds: &Vec<DeviceId>, vid: u16, pid: u16) -> (r: Option<usize>)
    ensures
        r matches Some(i) ==> first_device(ds@, vid, pid) == Some(i as int),
        r is None ==> first_device(ds@, vid, pid) is None,
{
    let mut i: usize = 0;
    while i < ds.len()
        invariant
            i <= ds@.len(),
            first_device(ds@.subrange(0, i as int), vid, pid) is None,
        decreases ds@.len() - i,
    {
        assert(ds@.subrange(0, i + 1).drop_last() =~= ds@.subrange(0, i as int));
        if ds[i].vendor_id == vid && ds[i].product_id == pid {
            proof {
                lemma_first_device_prefix(ds@, vid, pid, i as int + 1);
            }
            return Some(i);
        }
        i = i + 1;
    }
    proof {
        lemma_first_device_prefix(ds@, vid, pid, ds@.len() as int);
    }
    None
}

/// Once a prefix holds a match, the first match of the whole list is the
/// prefix's.
proof fn lemma_first_device_prefix(ds: Seq<DeviceId>, vid: u16, pid: u16, k: int)
    requires
        0 <= k <= ds.len(),
    ensures
        first_device(ds.subrange(0, k), vid, pid) is Some || k == ds.len() ==> first_device(ds, vid, pid)
            == first_device(ds.subrange(0, k), vid, pid),
    decreases ds.len() - k,
{
    if k < ds.len() {
        lemma_first_device_prefix(ds, vid, pid, k + 1);
        assert(ds.subrange(0, k + 1).drop_last() =~= ds.subrange(0, k));
    } else {
        assert(ds.subrange(0, k) =~= ds);
    }
}

/// Once a prefix holds the interface, the first descriptor of the whole list
/// is the prefix's.
proof fn lemma_first_interface_prefix(ds: Seq<InterfaceDescriptor>, n: u8, k: int)
    requires
        0 <= k <= ds.len(),
    ensures
        first_interface(ds.subrange(0, k), n) is Some || k == ds.len() ==> first_interface(ds, n)
            == first_interface(ds.subrange(0, k), n),
    decreases ds.len() - k,
{
    if k < ds.len() {
        lemma_first_interface_prefix(ds, n, k + 1);
        assert(ds.subrange(0, k + 1).drop_last() =~= ds.subrange(0, k));
    } else {
        assert(ds.subrange(0, k) =~= ds);
    }
}

/// The roles that the endpoints of the claimed interface take.
pub fn roles_from_endpoints(eps: &Vec<EndpointDescriptor>) -> (r: Result<EndpointRoles, UsbError>)
    ensures
        r == roles_of(eps@),
        r is Ok ==> r->Ok_0.command != 0,
{
    let mut outs: Vec<u8> = Vec::new();
    let mut ins: Vec<u8> = Vec::new();
    let mut i: usize = 0;
    while i < eps.len()
        invariant
            i <= eps@.len(),
            outs@ == interrupt_addresses(eps@.subrange(0, i as int), Direction::Out),
            forall|k: int| 0 <= k < outs@.len() ==> outs@[k] != 0,
            ins@ == interrupt_addresses(eps@.subrange(0, i as int), Direction::In),
        decreases eps@.len() - i,
    {
        proof {
            lemma_interrupt_addresses_prefix(eps@, Direction::Out, i as int);
            lemma_interrupt_addresses_prefix(eps@, Direction::In, i as int);
        }
        let e = eps[i];
        if e.transfer_type == TransferType::Interrupt {
            match e.direction {
                Direction::Out => if e.address != 0 {
                    outs.push(e.address);
                },
                Direction::In => ins.push(e.address),
            }
        }
        i = i + 1;
    }
    assert(eps@.subrange(0, eps@.len() as int) =~= eps@);
    if outs.len() == 0 {
        Err(UsbError::EndpointNotFound(EndpointProblem::CommandEndpointMissing))
    } else if ins.len() == 0 {
        Err(UsbError::EndpointNotFound(EndpointProblem::InEndpointMissing))
    } else {
        let push = if ins.len() > 1 {
            ins[1]
        } else {
            ins[0]
        };
        Ok(EndpointRoles { command: outs[0], response: ins[0], push })
    }
}

/// The endpoint roles on interface `n` of the descriptors `ds`.
pub fn assign_endpoints(ds: &Vec<InterfaceDescriptor>, n: u8) -> (r: Result<EndpointRoles, UsbError>)
    ensures
        r == endpoint_roles(ds@, n),
        r is Ok ==> r->Ok_0.command != 0,
{
    let mut i: usize = 0;
    while i < ds.len()
        invariant
            i <= ds@.len(),
            first_interface(ds@.subrange(0, i as int), n) is None,
        decreases ds@.len() - i,
    {
        assert(ds@.subrange(0, i + 1).drop_last() =~= ds@.subrange(0, i as int));
        if ds[i].interface_number == n {
            proof {
                lemma_first_interface_prefix(ds@, n, i as int + 1);
            }
            return roles_from_endpoints(&ds[i].endpoints);
        }
        i = i + 1;
    }
    proof {
        lemma_first_interface_prefix(ds@, n, ds@.len() as int);
    }
    Err(UsbError::EndpointNotFound(EndpointProblem::InterfaceMissing))
}

} // verus!
