use std::io::{Error, ErrorKind};

use udp_client_stream::address::{SocketAddress, SocketAddressV4, SocketAddressV6};
use udp_client_stream::error::ProtoError;
use udp_client_stream::message::SerialMessage;
use udp_client_stream::stream::{BindPoll, ConnectPoll, SocketPoll, StreamPoll, UdpClientStream};

fn ipv4_localhost(port: u16) -> SocketAddress {
    SocketAddress::V4(SocketAddressV4 { ip: u32::from_be_bytes([127, 0, 0, 1]), port })
}

fn ipv6_localhost(port: u16) -> SocketAddress {
    SocketAddress::V6(SocketAddressV6 { ip: 1, port, flowinfo: 0, scope_id: 0 })
}

/// Drives a pending connection to its stream, as a socket that binds on the
/// second poll would.
fn connect(name_server: SocketAddress) -> UdpClientStream {
    let mut pending = UdpClientStream::new(name_server);
    assert!(matches!(pending.poll(BindPoll::NotReady), ConnectPoll::NotReady));
    match pending.poll(BindPoll::Bound) {
        ConnectPoll::Ready(stream) => stream,
        other => panic!("no stream: {:?}", other),
    }
}

/// A peer that sends every datagram back to where it came from: what the
/// client's socket yields is the payload that was sent, from the peer.
fn echo(sent: SerialMessage) -> SocketPoll {
    let (bytes, peer) = sent.unwrap();
    SocketPoll::Datagram(SerialMessage::new(bytes, peer))
}

fn udp_client_stream_test(server_addr: SocketAddress) {
    let test_bytes: &'static [u8; 8] = b"DEADBEEF";
    let send_recv_times = 4;

    let mut stream = connect(server_addr);

    for _ in 0..send_recv_times {
        let sent = SerialMessage::new(test_bytes.to_vec(), server_addr);
        // the server gets the bytes and bounces them right back
        assert_eq!(sent.bytes(), test_bytes);
        match stream.poll(echo(sent)) {
            StreamPoll::Message { message, from_name_server } => {
                assert_eq!(message.bytes(), test_bytes);
                assert_eq!(message.addr(), server_addr);
                assert!(from_name_server);
            }
            other => panic!("no buffer received: {:?}", other),
        }
    }
}

#[test]
fn test_udp_client_stream_ipv4() {
    udp_client_stream_test(ipv4_localhost(5353))
}

#[test]
fn test_udp_client_stream_ipv6() {
    udp_client_stream_test(ipv6_localhost(5353))
}

#[test]
fn new_keeps_the_name_server() {
    let name_server = ipv4_localhost(53);
    let stream = connect(name_server);
    assert_eq!(stream.name_server_addr(), name_server);

    let other = ipv6_localhost(53);
    let stream = connect(other);
    assert_eq!(stream.name_server_addr(), other);
}

#[test]
fn poll_leaves_the_stream_as_it_was() {
    let name_server = ipv4_localhost(53);
    let mut stream = connect(name_server);
    let _ = stream.poll(SocketPoll::NotReady);
    let _ = stream.poll(SocketPoll::Datagram(SerialMessage::new(vec![1], ipv6_localhost(1))));
    let _ = stream.poll(SocketPoll::Failed(Error::new(ErrorKind::Other, "down")));
    let _ = stream.poll(SocketPoll::Closed);
    assert_eq!(stream.name_server_addr(), name_server);
    assert_eq!(stream.to_string(), "UDP(127.0.0.1:53)");
}

#[test]
fn not_ready_stays_not_ready() {
    let mut stream = connect(ipv4_localhost(53));
    assert!(matches!(stream.poll(SocketPoll::NotReady), StreamPoll::NotReady));
}

#[test]
fn echo_comes_back_byte_for_byte() {
    let peers = [
        ipv4_localhost(53),
        ipv6_localhost(53),
        SocketAddress::V4(SocketAddressV4 { ip: 0x0808_0808, port: 53 }),
        SocketAddress::V6(SocketAddressV6 {
            ip: 0x2001_0db8 << 96 | 1,
            port: 853,
            flowinfo: 7,
            scope_id: 2,
        }),
    ];
    let payloads: [Vec<u8>; 4] =
        [vec![], vec![0], b"DEADBEEF".to_vec(), (0..=255u8).cycle().take(1500).collect()];
    for peer in peers {
        for payload in &payloads {
            let mut stream = connect(ipv4_localhost(53));
            let sent = SerialMessage::new(payload.clone(), peer);
            match stream.poll(echo(sent)) {
                StreamPoll::Message { message, from_name_server } => {
                    assert_eq!(message.bytes(), payload.as_slice());
                    assert_eq!(message.addr(), peer);
                    assert_eq!(from_name_server, peer == ipv4_localhost(53));
                }
                other => panic!("no message: {:?}", other),
            }
        }
    }
}

#[test]
fn datagram_from_a_stranger_is_delivered() {
    let name_server = ipv4_localhost(53);
    let mut stream = connect(name_server);

    let stranger =
        SocketAddress::V4(SocketAddressV4 { ip: u32::from_be_bytes([10, 0, 0, 7]), port: 53 });
    let polled = SocketPoll::Datagram(SerialMessage::new(vec![0xde, 0xad], stranger));
    match stream.poll(polled) {
        StreamPoll::Message { message, from_name_server } => {
            assert_eq!(message.bytes(), &[0xde, 0xad]);
            assert_eq!(message.addr(), stranger);
            assert!(!from_name_server);
        }
        other => panic!("the datagram was not delivered: {:?}", other),
    }
}

#[test]
fn same_ip_other_port_is_a_stranger() {
    let mut stream = connect(ipv4_localhost(53));
    let polled = SocketPoll::Datagram(SerialMessage::new(vec![1, 2, 3], ipv4_localhost(54)));
    match stream.poll(polled) {
        StreamPoll::Message { message, from_name_server } => {
            assert_eq!(message.bytes(), &[1, 2, 3]);
            assert!(!from_name_server);
        }
        other => panic!("the datagram was not delivered: {:?}", other),
    }
}

#[test]
fn ipv6_scope_and_flow_tell_addresses_apart() {
    let name_server = ipv6_localhost(53);
    let mut stream = connect(name_server);
    let scoped =
        SocketAddress::V6(SocketAddressV6 { ip: 1, port: 53, flowinfo: 0, scope_id: 3 });
    let flowing =
        SocketAddress::V6(SocketAddressV6 { ip: 1, port: 53, flowinfo: 9, scope_id: 0 });
    for (from, expected) in [(name_server, true), (scoped, false), (flowing, false)] {
        match stream.poll(SocketPoll::Datagram(SerialMessage::new(vec![9], from))) {
            StreamPoll::Message { message, from_name_server } => {
                assert_eq!(message.addr(), from);
                assert_eq!(from_name_server, expected);
            }
            other => panic!("the datagram was not delivered: {:?}", other),
        }
    }
}

#[test]
fn each_datagram_is_delivered_once_and_in_order() {
    let name_server = ipv4_localhost(53);
    let stranger = ipv6_localhost(99);
    let mut stream = connect(name_server);

    let polled = vec![
        SocketPoll::NotReady,
        SocketPoll::Datagram(SerialMessage::new(vec![1], name_server)),
        SocketPoll::Datagram(SerialMessage::new(vec![2, 2], stranger)),
        SocketPoll::NotReady,
        SocketPoll::Datagram(SerialMessage::new(vec![3, 3, 3], name_server)),
    ];
    let mut delivered: Vec<(Vec<u8>, SocketAddress)> = Vec::new();
    let mut polls = 0;
    for one in polled {
        polls += 1;
        match stream.poll(one) {
            StreamPoll::Message { message, .. } => delivered.push(message.unwrap()),
            StreamPoll::NotReady => {}
            other => panic!("unexpected: {:?}", other),
        }
    }
    assert_eq!(polls, 5);
    assert_eq!(
        delivered,
        vec![(vec![1], name_server), (vec![2, 2], stranger), (vec![3, 3, 3], name_server)]
    );
}

#[test]
fn end_of_the_socket_is_signalled_once() {
    let mut stream = connect(ipv4_localhost(53));
    let polled = vec![
        SocketPoll::Datagram(SerialMessage::new(vec![1], ipv4_localhost(53))),
        SocketPoll::Closed,
        SocketPoll::NotReady,
        SocketPoll::NotReady,
    ];
    let mut finished = 0;
    let mut after_the_end = 0;
    for one in polled {
        match stream.poll(one) {
            StreamPoll::Finished => finished += 1,
            StreamPoll::Message { .. } | StreamPoll::Failed(_) if finished > 0 => {
                after_the_end += 1
            }
            _ => {}
        }
    }
    assert_eq!(finished, 1);
    assert_eq!(after_the_end, 0);
}

#[test]
fn closed_socket_finishes_the_stream() {
    let mut stream = connect(ipv6_localhost(53));
    assert!(matches!(stream.poll(SocketPoll::Closed), StreamPoll::Finished));
}

#[test]
fn socket_failure_becomes_the_stream_error() {
    let mut stream = connect(ipv4_localhost(53));
    let failure = Error::new(ErrorKind::ConnectionReset, "reset by peer");
    match stream.poll(SocketPoll::Failed(failure)) {
        StreamPoll::Failed(error) => {
            assert_eq!(error.io_error().kind(), ErrorKind::ConnectionReset);
            assert_eq!(error.io_error().to_string(), "reset by peer");
            let io = error.into_io_error();
            assert_eq!(io.kind(), ErrorKind::ConnectionReset);
        }
        other => panic!("no error: {:?}", other),
    }
}

#[test]
fn failed_bind_fails_the_connection() {
    let mut pending = UdpClientStream::new(ipv4_localhost(53));
    let failure = Error::new(ErrorKind::AddrNotAvailable, "cannot bind");
    match pending.poll(BindPoll::Failed(failure)) {
        ConnectPoll::Failed(error) => {
            assert_eq!(error.io_error().kind(), ErrorKind::AddrNotAvailable);
            assert_eq!(error.io_error().to_string(), "cannot bind");
        }
        other => panic!("expected a failure: {:?}", other),
    }
}

#[test]
fn no_stream_while_the_socket_is_not_bound() {
    let mut pending = UdpClientStream::new(ipv6_localhost(53));
    for _ in 0..3 {
        assert!(matches!(pending.poll(BindPoll::NotReady), ConnectPoll::NotReady));
    }
    let failure = Error::new(ErrorKind::PermissionDenied, "denied");
    assert!(matches!(pending.poll(BindPoll::Failed(failure)), ConnectPoll::Failed(_)));
}

#[test]
fn bound_socket_gives_a_stream_for_the_name_server() {
    let name_server =
        SocketAddress::V4(SocketAddressV4 { ip: u32::from_be_bytes([8, 8, 4, 4]), port: 53 });
    let mut pending = UdpClientStream::new(name_server);
    match pending.poll(BindPoll::Bound) {
        ConnectPoll::Ready(stream) => {
            assert_eq!(stream.name_server_addr(), name_server);
            assert_eq!(stream.to_string(), "UDP(8.8.4.4:53)");
        }
        other => panic!("no stream: {:?}", other),
    }
}

#[test]
fn proto_error_wraps_the_io_error() {
    let error = ProtoError::from(Error::new(ErrorKind::TimedOut, "too late"));
    assert_eq!(error.io_error().kind(), ErrorKind::TimedOut);
    assert_eq!(error.io.to_string(), "too late");
    assert_eq!(error.into_io_error().kind(), ErrorKind::TimedOut);
}

#[test]
fn message_holds_what_it_was_made_of() {
    let addr = ipv4_localhost(53);
    let message = SerialMessage::new(b"DEADBEEF".to_vec(), addr);
    assert_eq!(message.bytes(), b"DEADBEEF");
    assert_eq!(message.addr(), addr);

    let copy = message.clone();
    assert_eq!(copy.bytes(), message.bytes());
    assert_eq!(copy.addr(), message.addr());

    let (bytes, to) = message.unwrap();
    assert_eq!(bytes, b"DEADBEEF".to_vec());
    assert_eq!(to, addr);

    let empty = SerialMessage::new(Vec::new(), ipv6_localhost(0));
    assert!(empty.bytes().is_empty());
}

#[test]
fn stream_label_names_protocol_and_peer() {
    assert_eq!(connect(ipv4_localhost(53)).to_string(), "UDP(127.0.0.1:53)");
    assert_eq!(connect(ipv6_localhost(53)).to_string(), "UDP([::1]:53)");
}
