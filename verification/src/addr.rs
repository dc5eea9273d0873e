//! Plain-value model of IPv4 and IPv6 addresses, with the predicates the
//! multicast logic needs: address family, "is a multicast address", and the
//! wildcard ("any") address of each family.

use vstd::prelude::*;

verus! {

/// An IPv4 address as its four octets.
#[derive(Clone, Copy, Debug, PartialEq, Eq, Structural)]
pub struct V4Addr {
    pub oct0: u8,
    pub oct1: u8,
    pub oct2: u8,
    pub oct3: u8,
}

/// An IPv6 address as its eight 16-bit segments.
#[derive(Clone, Copy, Debug, PartialEq, Eq, Structural)]
pub struct V6Addr {
    pub seg0: u16,
    pub seg1: u16,
    pub seg2: u16,
    pub seg3: u16,
    pub seg4: u16,
    pub seg5: u16,
    pub seg6: u16,
    pub seg7: u16,
}

/// An IP address of either family.
#[derive(Clone, Copy, Debug, PartialEq, Eq, Structural)]
pub enum IpAddress {
    V4(V4Addr),
    V6(V6Addr),
}

/// The two supported address families.
#[derive(Clone, Copy, Debug, PartialEq, Eq, Structural)]
pub enum Family {
    V4,
    V6,
}

/// A socket address: an IP address together with a port.
#[derive(Clone, Copy, Debug, PartialEq, Eq, Structural)]
pub struct SockAddress {
    pub ip: IpAddress,
    pub port: u16,
}

impl V4Addr {
    /// An IPv4 address is multicast when its first octet lies in 224..=239
    /// (the class D range).
    pub open spec fn is_multicast(self) -> bool {
        224 <= self.oct0 && self.oct0 <= 239
    }

    /// The IPv4 wildcard address 0.0.0.0.
    pub open spec fn is_unspecified(self) -> bool {
        self.oct0 == 0 && self.oct1 == 0 && self.oct2 == 0 && self.oct3 == 0
    }
}

impl V6Addr {
    /// An IPv6 address is multicast when its first byte is 0xFF, that is,
    /// when its first segment lies in 0xFF00..=0xFFFF.
    pub open spec fn is_multicast(self) -> bool {
        0xFF00 <= self.seg0
    }

    /// The IPv6 wildcard address `::`.
    pub open spec fn is_unspecified(self) -> bool {
        self.seg0 == 0 && self.seg1 == 0 && self.seg2 == 0 && self.seg3 == 0
            && self.seg4 == 0 && self.seg5 == 0 && self.seg6 == 0 && self.seg7 == 0
    }
}

impl IpAddress {
    /// The family an address belongs to.
    pub open spec fn family(self) -> Family {
        match self {
            IpAddress::V4(_) => Family::V4,
            IpAddress::V6(_) => Family::V6,
        }
    }

    /// Whether the address is a multicast address of its family.
    pub open spec fn is_multicast(self) -> bool {
        match self {
            IpAddress::V4(a) => a.is_multicast(),
            IpAddress::V6(a) => a.is_multicast(),
        }
    }

    /// Whether the address is the wildcard address of its family.
    pub open spec fn is_unspecified(self) -> bool {
        match self {
            IpAddress::V4(a) => a.is_unspecified(),
            IpAddress::V6(a) => a.is_unspecified(),
        }
    }

    /// The family, computed.
    pub fn family_of(&self) -> (r: Family)
        ensures
            r == self.family(),
    {
        match self {
            IpAddress::V4(_) => Family::V4,
            IpAddress::V6(_) => Family::V6,
        }
    }

    /// Whether the address is multicast, computed.
    pub fn multicast(&self) -> (r: bool)
        ensures
            r == self.is_multicast(),
    {
        match self {
            IpAddress::V4(a) => 224 <= a.oct0 && a.oct0 <= 239,
            IpAddress::V6(a) => 0xFF00 <= a.seg0,
        }
    }
}

/// The IPv4 wildcard address 0.0.0.0.
pub fn v4_any() -> (r: V4Addr)
    ensures
        r.is_unspecified(),
        !r.is_multicast(),
{
    V4Addr { oct0: 0, oct1: 0, oct2: 0, oct3: 0 }
}

/// The IPv6 wildcard address `::`.
pub fn v6_any() -> (r: V6Addr)
    ensures
        r.is_unspecified(),
        !r.is_multicast(),
{
    V6Addr { seg0: 0, seg1: 0, seg2: 0, seg3: 0, seg4: 0, seg5: 0, seg6: 0, seg7: 0 }
}

/// The wildcard address of a given family.
pub open spec fn unspecified_of(f: Family) -> IpAddress {
    match f {
        Family::V4 => IpAddress::V4(V4Addr { oct0: 0, oct1: 0, oct2: 0, oct3: 0 }),
        Family::V6 => IpAddress::V6(
            V6Addr { seg0: 0, seg1: 0, seg2: 0, seg3: 0, seg4: 0, seg5: 0, seg6: 0, seg7: 0 },
        ),
    }
}

/// The wildcard address of a given family, computed.
pub fn any_of_family(f: Family) -> (r: IpAddress)
    ensures
        r == unspecified_of(f),
        r.family() == f,
        r.is_unspecified(),
{
    match f {
        Family::V4 => IpAddress::V4(v4_any()),
        Family::V6 => IpAddress::V6(v6_any()),
    }
}

/// The demo's well-known IPv4 group address, 224.0.0.123.
pub fn group_addr_v4() -> (r: IpAddress)
    ensures
        r == IpAddress::V4(V4Addr { oct0: 224, oct1: 0, oct2: 0, oct3: 123 }),
        r.is_multicast(),
        r.family() == Family::V4,
{
    IpAddress::V4(V4Addr { oct0: 224, oct1: 0, oct2: 0, oct3: 123 })
}

/// The demo's well-known IPv6 group address, ff02::123.
pub fn group_addr_v6() -> (r: IpAddress)
    ensures
        r == IpAddress::V6(
            V6Addr {
                seg0: 0xFF02,
                seg1: 0,
                seg2: 0,
                seg3: 0,
                seg4: 0,
                seg5: 0,
                seg6: 0,
                seg7: 0x0123,
            },
        ),
        r.is_multicast(),
        r.family() == Family::V6,
{
    IpAddress::V6(
        V6Addr {
            seg0: 0xFF02,
            seg1: 0,
            seg2: 0,
            seg3: 0,
            seg4: 0,
            seg5: 0,
            seg6: 0,
            seg7: 0x0123,
        },
    )
}

} // verus!
