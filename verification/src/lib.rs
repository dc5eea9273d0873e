//! Verified decision logic for an IP multicast datagram demo: address
//! modelling, platform-dependent bind selection, join and sender plans, a
//! listener state machine, and the shutdown/rendezvous harness model.

mod addr;
mod errors;
mod group;
mod harness;
mod listener;
mod payload;
mod plans;
mod platform;
mod sync_model;

pub use addr::Family;
pub use addr::IpAddress;
pub use addr::SockAddress;
pub use addr::V4Addr;
pub use addr::V6Addr;
pub use platform::Platform;
pub use group::MulticastGroup;
pub use plans::JoinDirective;
pub use plans::JoinPlan;
pub use plans::OutboundInterface;
pub use plans::SenderPlan;
pub use plans::SocketConfig;
pub use sync_model::Rendezvous;
pub use sync_model::ShutdownFlag;
pub use errors::FailureKind;
pub use listener::ListenerAction;
pub use listener::ListenerEvent;
pub use listener::ListenerState;
pub use listener::ListenerTask;
pub use harness::RunModel;
pub use harness::RunStep;
pub use addr::any_of_family;
pub use addr::group_addr_v4;
pub use addr::group_addr_v6;
pub use addr::v4_any;
pub use addr::v6_any;
pub use errors::check_response;
pub use errors::is_fatal;
pub use group::well_known_v4;
pub use group::well_known_v6;
pub use payload::copy_bytes;
pub use payload::payload_matches;
pub use payload::probe_payload;
pub use payload::response_payload;
pub use payload::truncate_to;
pub use payload::RECV_BUFFER_LEN;
pub use plans::join_plan;
pub use plans::sender_plan;
pub use plans::socket_config;
pub use plans::RECV_TIMEOUT_MS;
pub use platform::bind_address;

use vstd::prelude::*;

verus! {

/// The well-known port both demo groups use.
pub const PORT: u16 = 7645;

} // verus!
