use multicast_udp::Family;
use multicast_udp::IpAddress;
use multicast_udp::JoinDirective;
use multicast_udp::OutboundInterface;
use multicast_udp::Platform;
use multicast_udp::SockAddress;
use multicast_udp::V4Addr;
use multicast_udp::V6Addr;
use multicast_udp::bind_address;
use multicast_udp::join_plan;
use multicast_udp::sender_plan;
use multicast_udp::socket_config;
use multicast_udp::well_known_v4;
use multicast_udp::well_known_v6;

#[test]
fn socket_config_follows_target_family() {
    let g4 = well_known_v4().sock_addr();
    let c4 = socket_config(&g4);
    assert_eq!(c4.family, Family::V4);
    assert_eq!(c4.recv_timeout_ms, 100);

    let g6 = well_known_v6().sock_addr();
    let c6 = socket_config(&g6);
    assert_eq!(c6.family, Family::V6);
    assert_eq!(c6.recv_timeout_ms, 100);
}

#[test]
fn posix_binds_to_group_address() {
    let group = well_known_v4().sock_addr();
    let bound = bind_address(Platform::Posix, &group);
    assert_eq!(bound, group);

    let group6 = well_known_v6().sock_addr();
    let bound6 = bind_address(Platform::Posix, &group6);
    assert_eq!(bound6, group6);
}

#[test]
fn windows_binds_to_wildcard_same_port() {
    let group = well_known_v4().sock_addr();
    let bound = bind_address(Platform::Windows, &group);
    assert_eq!(
        bound,
        SockAddress {
            ip: IpAddress::V4(V4Addr { oct0: 0, oct1: 0, oct2: 0, oct3: 0 }),
            port: 7645,
        }
    );

    let group6 = well_known_v6().sock_addr();
    let bound6 = bind_address(Platform::Windows, &group6);
    assert_eq!(
        bound6,
        SockAddress {
            ip: IpAddress::V6(V6Addr {
                seg0: 0,
                seg1: 0,
                seg2: 0,
                seg3: 0,
                seg4: 0,
                seg5: 0,
                seg6: 0,
                seg7: 0,
            }),
            port: 7645,
        }
    );
}

#[test]
fn join_plan_v4_uses_all_interfaces() {
    let g = well_known_v4();
    let plan = join_plan(Platform::Posix, &g);
    assert_eq!(plan.socket.family, Family::V4);
    assert_eq!(plan.socket.recv_timeout_ms, 100);
    assert_eq!(
        plan.join,
        JoinDirective::V4 {
            group4: V4Addr { oct0: 224, oct1: 0, oct2: 0, oct3: 123 },
            interface: V4Addr { oct0: 0, oct1: 0, oct2: 0, oct3: 0 },
        }
    );
    assert_eq!(plan.bind, g.sock_addr());
}

#[test]
fn join_plan_v6_uses_index_zero_and_only_v6() {
    let g = well_known_v6();
    let plan = join_plan(Platform::Posix, &g);
    assert_eq!(plan.socket.family, Family::V6);
    match plan.join {
        JoinDirective::V6 { group6, interface_index, only_v6 } => {
            assert_eq!(group6.seg0, 0xFF02);
            assert_eq!(group6.seg7, 0x0123);
            assert_eq!(interface_index, 0);
            assert!(only_v6);
        }
        other => panic!("wrong directive: {:?}", other),
    }
    assert_eq!(plan.bind, g.sock_addr());
}

#[test]
fn join_plan_windows_binds_wildcard() {
    let g = well_known_v4();
    let plan = join_plan(Platform::Windows, &g);
    assert_eq!(
        plan.bind,
        SockAddress {
            ip: IpAddress::V4(V4Addr { oct0: 0, oct1: 0, oct2: 0, oct3: 0 }),
            port: 7645,
        }
    );
}

#[test]
fn sender_plan_v4_selects_any_interface() {
    let g = well_known_v4();
    let plan = sender_plan(&g, 5);
    assert_eq!(plan.socket.family, Family::V4);
    assert_eq!(plan.socket.recv_timeout_ms, 100);
    assert_eq!(plan.outbound, OutboundInterface::AnyV4);
    assert_eq!(
        plan.bind,
        SockAddress {
            ip: IpAddress::V4(V4Addr { oct0: 0, oct1: 0, oct2: 0, oct3: 0 }),
            port: 0,
        }
    );
}

#[test]
fn sender_plan_v6_takes_configured_index() {
    let g = well_known_v6();
    let plan = sender_plan(&g, 5);
    assert_eq!(plan.socket.family, Family::V6);
    assert_eq!(plan.outbound, OutboundInterface::V6Index(5));
    let plan2 = sender_plan(&g, 12);
    assert_eq!(plan2.outbound, OutboundInterface::V6Index(12));
    assert_eq!(plan.bind.port, 0);
}
