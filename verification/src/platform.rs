//! Platform-dependent choice of the local address a multicast receiver binds
//! to. POSIX-style systems bind to the group address itself, so the kernel
//! filters multicast traffic to sockets bound to that exact address;
//! Windows-style systems reject binding to a multicast address and bind to
//! the wildcard address of the same family on the same port instead. Both
//! branches are part of the contract, selected by a platform discriminator.

use vstd::prelude::*;

use crate::addr::SockAddress;
use crate::addr::any_of_family;
use crate::addr::unspecified_of;

verus! {

/// The two operating-system families the binder distinguishes.
#[derive(Clone, Copy, Debug, PartialEq, Eq, Structural)]
pub enum Platform {
    Posix,
    Windows,
}

/// The local address a receiver socket must bind to for a given group on a
/// given platform.
pub open spec fn bind_target(p: Platform, group: SockAddress) -> SockAddress {
    match p {
        Platform::Posix => group,
        Platform::Windows => SockAddress {
            ip: unspecified_of(group.ip.family()),
            port: group.port,
        },
    }
}

/// Compute the bind address for a multicast group: the group address itself
/// on POSIX-style systems, the same-family wildcard on the same port on
/// Windows-style systems.
pub fn bind_address(p: Platform, group: &SockAddress) -> (r: SockAddress)
    ensures
        r == bind_target(p, *group),
{
    match p {
        Platform::Posix => *group,
        Platform::Windows => SockAddress {
            ip: any_of_family(group.ip.family_of()),
            port: group.port,
        },
    }
}

/// On every platform the bind target keeps the group's port and address
/// family; on the POSIX-style path it is the group address itself, and on
/// the Windows-style path it is the wildcard address of that family.
pub proof fn lemma_bind_target_shape(p: Platform, group: SockAddress)
    ensures
        bind_target(p, group).port == group.port,
        bind_target(p, group).ip.family() == group.ip.family(),
        p == Platform::Posix ==> bind_target(p, group) == group,
        p == Platform::Windows ==> bind_target(p, group).ip.is_unspecified(),
{
}

} // verus!
