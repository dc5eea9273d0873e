use multicast_udp::Family;
use multicast_udp::FailureKind;
use multicast_udp::IpAddress;
use multicast_udp::ListenerAction;
use multicast_udp::ListenerEvent;
use multicast_udp::ListenerState;
use multicast_udp::ListenerTask;
use multicast_udp::SockAddress;
use multicast_udp::V4Addr;
use multicast_udp::V6Addr;
use multicast_udp::check_response;
use multicast_udp::copy_bytes;
use multicast_udp::is_fatal;
use multicast_udp::payload_matches;
use multicast_udp::probe_payload;
use multicast_udp::response_payload;
use multicast_udp::truncate_to;
use multicast_udp::well_known_v4;
use multicast_udp::well_known_v6;
use multicast_udp::RECV_BUFFER_LEN;

#[test]
fn probe_is_hello_from_client() {
    assert_eq!(probe_payload(), b"Hello from client!".to_vec());
}

#[test]
fn responses_are_family_names() {
    assert_eq!(response_payload(Family::V4), b"ipv4".to_vec());
    assert_eq!(response_payload(Family::V6), b"ipv6".to_vec());
}

#[test]
fn copy_bytes_is_exact() {
    let v = probe_payload();
    assert_eq!(copy_bytes(&v), v);
    let empty: Vec<u8> = Vec::new();
    assert_eq!(copy_bytes(&empty), empty);
}

#[test]
fn truncation_keeps_prefix() {
    let mut buf = vec![0u8; RECV_BUFFER_LEN];
    buf[0] = 105;
    buf[1] = 112;
    buf[2] = 118;
    buf[3] = 52;
    let data = truncate_to(&buf, 4);
    assert_eq!(data, b"ipv4".to_vec());
    let none = truncate_to(&buf, 0);
    assert!(none.is_empty());
    let all = truncate_to(&buf, RECV_BUFFER_LEN);
    assert_eq!(all, buf);
}

#[test]
fn payload_matching_is_exact() {
    let a = response_payload(Family::V4);
    let b = response_payload(Family::V4);
    let c = response_payload(Family::V6);
    assert!(payload_matches(&a, &b));
    assert!(!payload_matches(&a, &c));
    let short = truncate_to(&a, 3);
    assert!(!payload_matches(&a, &short));
}

#[test]
fn mismatch_is_protocol_failure() {
    let expected = response_payload(Family::V4);
    let got = response_payload(Family::V6);
    assert_eq!(check_response(&expected, &got), Err(FailureKind::ProtocolMismatch));
    assert_eq!(check_response(&expected, &expected), Ok(()));
}

#[test]
fn failure_kinds_fatality() {
    assert!(is_fatal(&FailureKind::SetupFailure));
    assert!(is_fatal(&FailureKind::ResponseSendFailure));
    assert!(is_fatal(&FailureKind::ProtocolMismatch));
    assert!(!is_fatal(&FailureKind::TransientReceiveFailure));
}

// The demo scenario for IPv4: a probe "Hello from client!" to group
// 224.0.0.123:7645 is answered with "ipv4", and the harness accepts it.
#[test]
fn test_ipv4_multicast() {
    let group = well_known_v4();
    assert_eq!(
        group.ip(),
        IpAddress::V4(V4Addr { oct0: 224, oct1: 0, oct2: 0, oct3: 123 })
    );
    assert_eq!(group.port(), 7645);

    let mut task = ListenerTask::new(response_payload(Family::V4));
    task.on_event(ListenerEvent::JoinOutcome { ok: true });
    task.on_event(ListenerEvent::ReadyCompleted);

    let client = SockAddress {
        ip: IpAddress::V4(V4Addr { oct0: 10, oct1: 0, oct2: 0, oct3: 2 }),
        port: 40000,
    };
    let action = task.on_event(ListenerEvent::Datagram { data: probe_payload(), from: client });
    match action {
        ListenerAction::Respond { payload, to, .. } => {
            assert_eq!(to, client);
            assert_eq!(check_response(&response_payload(Family::V4), &payload), Ok(()));
            assert_eq!(payload, b"ipv4".to_vec());
        }
        _ => panic!("listener did not respond"),
    }
    assert_eq!(task.state, ListenerState::Serving);
}

// The same scenario for IPv6: a probe to ff02::123:7645 answered with
// "ipv6".
#[test]
fn test_ipv6_multicast() {
    let group = well_known_v6();
    assert_eq!(
        group.ip(),
        IpAddress::V6(V6Addr {
            seg0: 0xFF02,
            seg1: 0,
            seg2: 0,
            seg3: 0,
            seg4: 0,
            seg5: 0,
            seg6: 0,
            seg7: 0x0123,
        })
    );
    assert_eq!(group.port(), 7645);

    let mut task = ListenerTask::new(response_payload(Family::V6));
    task.on_event(ListenerEvent::JoinOutcome { ok: true });
    task.on_event(ListenerEvent::ReadyCompleted);

    let client = SockAddress {
        ip: IpAddress::V6(V6Addr {
            seg0: 0xFE80,
            seg1: 0,
            seg2: 0,
            seg3: 0,
            seg4: 0,
            seg5: 0,
            seg6: 0,
            seg7: 7,
        }),
        port: 40001,
    };
    let action = task.on_event(ListenerEvent::Datagram { data: probe_payload(), from: client });
    match action {
        ListenerAction::Respond { socket, payload, to } => {
            assert_eq!(to, client);
            assert_eq!(socket.family, Family::V6);
            assert_eq!(payload, b"ipv6".to_vec());
            assert_eq!(check_response(&response_payload(Family::V6), &payload), Ok(()));
        }
        _ => panic!("listener did not respond"),
    }
}
