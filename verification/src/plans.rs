//! Plans: the exact parameters each socket operation must be performed with.
//! The socket factory's configuration, the order-sensitive join plan for a
//! receiver, and the sender's configuration. An unverified shell executes
//! these against the operating system; every parameter is decided here.

use vstd::prelude::*;

use crate::addr::Family;
use crate::addr::IpAddress;
use crate::addr::SockAddress;
use crate::addr::V4Addr;
use crate::addr::V6Addr;
use crate::addr::unspecified_of;
use crate::addr::any_of_family;
use crate::group::MulticastGroup;
use crate::platform::Platform;
use crate::platform::bind_target;
use crate::platform::bind_address;

verus! {

/// Receive timeout carried by every socket the demo creates, in
/// milliseconds, so blocking receives cannot hang indefinitely.
pub const RECV_TIMEOUT_MS: u64 = 100;

/// What the socket factory must produce: a UDP datagram socket of this
/// family with this receive timeout.
#[derive(Clone, Copy, Debug, PartialEq, Eq, Structural)]
pub struct SocketConfig {
    pub family: Family,
    pub recv_timeout_ms: u64,
}

/// The configuration the factory must use for a socket able to talk to
/// `target`: the target's own family, with the bounded receive timeout.
pub open spec fn socket_config_for(target: SockAddress) -> SocketConfig {
    SocketConfig { family: target.ip.family(), recv_timeout_ms: RECV_TIMEOUT_MS }
}

/// The configuration of a datagram socket able to talk to `target`: the
/// target's own address family, with the bounded receive timeout.
pub fn socket_config(target: &SockAddress) -> (r: SocketConfig)
    ensures
        r == socket_config_for(*target),
        r.family == target.ip.family(),
        r.recv_timeout_ms == RECV_TIMEOUT_MS,
{
    SocketConfig { family: target.ip.family_of(), recv_timeout_ms: RECV_TIMEOUT_MS }
}

/// How a receiver socket joins its group: for IPv4, join on the
/// all-interfaces wildcard; for IPv6, join on an explicit interface index
/// and restrict the socket to IPv6-only traffic.
#[derive(Clone, Copy, Debug, PartialEq, Eq, Structural)]
pub enum JoinDirective {
    V4 { group4: V4Addr, interface: V4Addr },
    V6 { group6: V6Addr, interface_index: u32, only_v6: bool },
}

/// The full, order-sensitive plan for building a ready-to-receive socket:
/// create a socket per `socket`, join per `join`, then bind to `bind`.
#[derive(Clone, Copy, Debug, PartialEq, Eq, Structural)]
pub struct JoinPlan {
    pub socket: SocketConfig,
    pub join: JoinDirective,
    pub bind: SockAddress,
}

/// The join directive a group calls for.
pub open spec fn join_directive_of(g: MulticastGroup) -> JoinDirective {
    match g.ip_spec() {
        IpAddress::V4(a) => JoinDirective::V4 {
            group4: a,
            interface: V4Addr { oct0: 0, oct1: 0, oct2: 0, oct3: 0 },
        },
        IpAddress::V6(a) => JoinDirective::V6 { group6: a, interface_index: 0, only_v6: true },
    }
}

/// Compute the plan for a ready-to-receive socket joined to `group`:
/// a socket of the group's family with the bounded timeout, the join
/// directive of the group's family, and the platform's bind target.
pub fn join_plan(p: Platform, group: &MulticastGroup) -> (r: JoinPlan)
    requires
        group.wf(),
    ensures
        r.socket.family == group.ip_spec().family(),
        r.socket.recv_timeout_ms == RECV_TIMEOUT_MS,
        r.join == join_directive_of(*group),
        r.bind == bind_target(p, group.sock_addr_spec()),
{
    let target = group.sock_addr();
    let socket = socket_config(&target);
    let join = match group.ip() {
        IpAddress::V4(a) => JoinDirective::V4 { group4: a, interface: crate::addr::v4_any() },
        IpAddress::V6(a) => JoinDirective::V6 { group6: a, interface_index: 0, only_v6: true },
    };
    let bind = bind_address(p, &target);
    JoinPlan { socket, join, bind }
}

/// The outbound multicast interface a sender selects: the "any" interface
/// for IPv4, an explicit, host-dependent interface index for IPv6.
#[derive(Clone, Copy, Debug, PartialEq, Eq, Structural)]
pub enum OutboundInterface {
    AnyV4,
    V6Index(u32),
}

/// The plan for a socket that originates multicast traffic: create a socket
/// per `socket`, select `outbound` as the multicast interface, then bind to
/// `bind` (the wildcard address on an ephemeral port).
#[derive(Clone, Copy, Debug, PartialEq, Eq, Structural)]
pub struct SenderPlan {
    pub socket: SocketConfig,
    pub outbound: OutboundInterface,
    pub bind: SockAddress,
}

/// Compute the sender's plan for a group. The IPv6 interface index is
/// host-topology-dependent and so is a parameter, never a constant.
pub fn sender_plan(group: &MulticastGroup, v6_interface_index: u32) -> (r: SenderPlan)
    requires
        group.wf(),
    ensures
        r.socket.family == group.ip_spec().family(),
        r.socket.recv_timeout_ms == RECV_TIMEOUT_MS,
        group.ip_spec().family() == Family::V4 ==> r.outbound == OutboundInterface::AnyV4,
        group.ip_spec().family() == Family::V6 ==> r.outbound == OutboundInterface::V6Index(
            v6_interface_index,
        ),
        r.bind.ip == unspecified_of(group.ip_spec().family()),
        r.bind.port == 0,
{
    let target = group.sock_addr();
    let socket = socket_config(&target);
    let family = group.family();
    let outbound = match family {
        Family::V4 => OutboundInterface::AnyV4,
        Family::V6 => OutboundInterface::V6Index(v6_interface_index),
    };
    let bind = SockAddress { ip: any_of_family(family), port: 0 };
    SenderPlan { socket, outbound, bind }
}

} // verus!
