//! The multicast group entity: an (IP address, port) pair whose address must
//! be a multicast address of its family. Immutable once constructed.

use vstd::prelude::*;

use crate::addr::Family;
use crate::addr::IpAddress;
use crate::addr::SockAddress;
use crate::addr::group_addr_v4;
use crate::addr::group_addr_v6;
use crate::PORT;

verus! {

/// A multicast group: an IP address together with a port. The address is
/// always a multicast address; `new` refuses any other.
#[derive(Clone, Copy, Debug, PartialEq, Eq, Structural)]
pub struct MulticastGroup {
    ip: IpAddress,
    port: u16,
}

impl MulticastGroup {
    /// The group's IP address, for specifications.
    pub closed spec fn ip_spec(self) -> IpAddress {
        self.ip
    }

    /// The group's port, for specifications.
    pub closed spec fn port_spec(self) -> u16 {
        self.port
    }

    /// Well-formedness: the address is a multicast address. Every
    /// constructed group satisfies this.
    pub open spec fn wf(self) -> bool {
        self.ip_spec().is_multicast()
    }

    /// The group as a socket address, for specifications.
    pub open spec fn sock_addr_spec(self) -> SockAddress {
        SockAddress { ip: self.ip_spec(), port: self.port_spec() }
    }

    /// Construct a group, refusing an address that is not multicast.
    pub fn new(ip: IpAddress, port: u16) -> (r: Option<MulticastGroup>)
        ensures
            r is Some <==> ip.is_multicast(),
            r is Some ==> r->Some_0.ip_spec() == ip && r->Some_0.port_spec() == port,
            r is Some ==> r->Some_0.wf(),
    {
        if ip.multicast() {
            Some(MulticastGroup { ip, port })
        } else {
            None
        }
    }

    /// The group's IP address.
    pub fn ip(&self) -> (r: IpAddress)
        ensures
            r == self.ip_spec(),
    {
        self.ip
    }

    /// The group's port.
    pub fn port(&self) -> (r: u16)
        ensures
            r == self.port_spec(),
    {
        self.port
    }

    /// The group's address family.
    pub fn family(&self) -> (r: Family)
        ensures
            r == self.ip_spec().family(),
    {
        self.ip.family_of()
    }

    /// The group as a socket address.
    pub fn sock_addr(&self) -> (r: SockAddress)
        ensures
            r == self.sock_addr_spec(),
    {
        SockAddress { ip: self.ip, port: self.port }
    }
}

/// The demo's well-known IPv4 group, 224.0.0.123 on the well-known port.
pub fn well_known_v4() -> (r: MulticastGroup)
    ensures
        r.wf(),
        r.ip_spec().family() == Family::V4,
        r.ip_spec() == crate::addr::IpAddress::V4(
            crate::addr::V4Addr { oct0: 224, oct1: 0, oct2: 0, oct3: 123 },
        ),
        r.port_spec() == PORT,
{
    MulticastGroup { ip: group_addr_v4(), port: PORT }
}

/// The demo's well-known IPv6 group, ff02::123 on the well-known port.
pub fn well_known_v6() -> (r: MulticastGroup)
    ensures
        r.wf(),
        r.ip_spec().family() == Family::V6,
        r.ip_spec() == crate::addr::IpAddress::V6(
            crate::addr::V6Addr {
                seg0: 0xFF02,
                seg1: 0,
                seg2: 0,
                seg3: 0,
                seg4: 0,
                seg5: 0,
                seg6: 0,
                seg7: 0x0123,
            },
        ),
        r.port_spec() == PORT,
{
    MulticastGroup { ip: group_addr_v6(), port: PORT }
}

} // verus!
