use quics::request::{Request, SocketAddress};
use quics::socks::{
    immediate_reply, method_reply, read_greeting, read_request, read_udp_header, reply, select_method,
    to_tunnel_request, udp_header, unspecified_reply, SocksError, SocksRequest,
    REPLY_COMMAND_NOT_SUPPORTED, REPLY_SUCCEEDED,
};

#[test]
fn greeting_offers_methods_and_no_authentication_is_selected() {
    let (methods, used) = read_greeting(&[0x05, 0x02, 0x00, 0x02, 0xAA]).unwrap();
    assert_eq!(methods, vec![0x00, 0x02]);
    assert_eq!(used, 4);
    let m = select_method(&methods);
    assert_eq!(m, 0x00);
    assert_eq!(&method_reply(m)[..], &[0x05, 0x00]);
}

#[test]
fn greeting_errors() {
    assert_eq!(read_greeting(&[0x04, 0x01, 0x00]), Err(SocksError::UnsupportedVersion(4)));
    assert_eq!(read_greeting(&[0x05, 0x02, 0x00]), Err(SocksError::Truncated));
    assert_eq!(read_greeting(&[]), Err(SocksError::Truncated));
}

#[test]
fn connect_to_ipv4_becomes_tcp_connect() {
    let (r, used) = read_request(&[0x05, 0x01, 0x00, 0x01, 127, 0, 0, 1, 0x1B, 0x58]).unwrap();
    assert_eq!(used, 10);
    assert_eq!(r, SocksRequest::Connect(SocketAddress::IPv4([127, 0, 0, 1], 7000)));
    assert_eq!(
        to_tunnel_request(r),
        Some(Request::TCPConnect(SocketAddress::IPv4([127, 0, 0, 1], 7000)))
    );
}

#[test]
fn connect_to_domain_becomes_tcp_connect() {
    let mut msg = vec![0x05, 0x01, 0x00, 0x03, 9];
    msg.extend_from_slice(b"localhost");
    msg.extend_from_slice(&[0x1B, 0x58]);
    let (r, used) = read_request(&msg).unwrap();
    assert_eq!(used, msg.len());
    assert_eq!(
        to_tunnel_request(r),
        Some(Request::TCPConnect(SocketAddress::Domain("localhost".to_string(), 7000)))
    );
}

#[test]
fn connect_to_ipv6_uses_socks_address_type_four() {
    let mut msg = vec![0x05, 0x01, 0x00, 0x04];
    let mut ip = [0u8; 16];
    ip[15] = 1;
    msg.extend_from_slice(&ip);
    msg.extend_from_slice(&[0, 80]);
    let (r, used) = read_request(&msg).unwrap();
    assert_eq!(used, 22);
    assert_eq!(r, SocksRequest::Connect(SocketAddress::IPv6(ip, 80)));
}

#[test]
fn bind_is_unsupported_and_answered_with_code_seven() {
    let (r, _) = read_request(&[0x05, 0x02, 0x00, 0x01, 127, 0, 0, 1, 0x1B, 0x58]).unwrap();
    assert_eq!(r, SocksRequest::Unsupported(0x02));
    assert_eq!(to_tunnel_request(r), None);
    let answer = unspecified_reply(REPLY_COMMAND_NOT_SUPPORTED);
    assert_eq!(&answer[..], &[0x05, 0x07, 0x00, 0x01, 0, 0, 0, 0, 0, 0]);
    assert_eq!(answer[1], 0x07);
}

#[test]
fn connect_success_reply_is_fixed() {
    let answer = unspecified_reply(REPLY_SUCCEEDED);
    assert_eq!(&answer[..], &[0x05, 0x00, 0x00, 0x01, 0, 0, 0, 0, 0, 0]);
}

#[test]
fn associate_reply_carries_the_bound_address() {
    let (r, _) = read_request(&[0x05, 0x03, 0x00, 0x01, 0, 0, 0, 0, 0, 0]).unwrap();
    assert_eq!(r, SocksRequest::Associate(SocketAddress::IPv4([0, 0, 0, 0], 0)));
    let answer = reply(REPLY_SUCCEEDED, &SocketAddress::IPv4([127, 0, 0, 1], 40000)).unwrap();
    assert_eq!(&answer[..], &[0x05, 0x00, 0x00, 0x01, 127, 0, 0, 1, 0x9C, 0x40]);
    assert!(reply(REPLY_SUCCEEDED, &SocketAddress::Domain("a".repeat(256), 1)).is_none());
}

#[test]
fn request_errors() {
    assert_eq!(
        read_request(&[0x05, 0x01, 0x00, 0x02, 0, 0]),
        Err(SocksError::UnsupportedAddressType(2))
    );
    assert_eq!(read_request(&[0x04, 0x01, 0x00, 0x01]), Err(SocksError::UnsupportedVersion(4)));
    assert_eq!(read_request(&[0x05, 0x01, 0x00, 0x01, 1, 2]), Err(SocksError::Truncated));
    assert_eq!(
        read_request(&[0x05, 0x01, 0x00, 0x03, 1, 0xFF, 0, 80]),
        Err(SocksError::InvalidDomain)
    );
}

#[test]
fn udp_header_round_trips() {
    let source = SocketAddress::Domain("example.com".to_string(), 53);
    let header = udp_header(&source).unwrap();
    let mut datagram = header.to_vec();
    datagram.extend_from_slice(b"payload");
    let (address, start) = read_udp_header(&datagram).unwrap();
    assert_eq!(address, source);
    assert_eq!(&datagram[start..], b"payload");
    assert_eq!(&header[..4], &[0, 0, 0, 0x03]);
}

#[test]
fn fragmented_udp_datagrams_are_refused() {
    assert_eq!(
        read_udp_header(&[0, 0, 1, 0x01, 1, 2, 3, 4, 0, 53]),
        Err(SocksError::Fragmented(1))
    );
    assert_eq!(read_udp_header(&[0, 0, 0]), Err(SocksError::Truncated));
}

#[test]
fn immediate_reply_depends_on_the_command() {
    let connect = SocksRequest::Connect(SocketAddress::IPv4([127, 0, 0, 1], 7000));
    assert_eq!(
        &immediate_reply(&connect).unwrap()[..],
        &[0x05, 0x00, 0x00, 0x01, 0, 0, 0, 0, 0, 0]
    );
    let bind = SocksRequest::Unsupported(0x02);
    assert_eq!(
        &immediate_reply(&bind).unwrap()[..],
        &[0x05, 0x07, 0x00, 0x01, 0, 0, 0, 0, 0, 0]
    );
    let associate = SocksRequest::Associate(SocketAddress::IPv4([0, 0, 0, 0], 0));
    assert!(immediate_reply(&associate).is_none());
}
