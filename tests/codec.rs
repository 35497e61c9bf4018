use quics::request::{DecodeError, EncodeError, Request, SocketAddress, MAX_REQUEST_LEN};
use quics::response::Response;

fn round_trip(r: Request) -> Vec<u8> {
    let bytes = r.to_bytes().expect("request fits a frame");
    let (back, used) = Request::decode(&bytes).expect("frame decodes");
    assert_eq!(back, r);
    assert_eq!(used, bytes.len());
    assert_eq!(Request::frame_len(&bytes), bytes.len());
    bytes.to_vec()
}

#[test]
fn ipv4_request_round_trips_with_exact_bytes() {
    let bytes = round_trip(Request::TCPConnect(SocketAddress::IPv4([127, 0, 0, 1], 7000)));
    assert_eq!(bytes, vec![0x01, 0x02, 127, 0, 0, 1, 0x1B, 0x58]);
}

#[test]
fn ipv6_request_round_trips_with_exact_bytes() {
    let mut ip = [0u8; 16];
    ip[15] = 1;
    let bytes = round_trip(Request::TCPConnect(SocketAddress::IPv6(ip, 443)));
    let mut expected = vec![0x01, 0x03];
    expected.extend_from_slice(&ip);
    expected.extend_from_slice(&[0x01, 0xBB]);
    assert_eq!(bytes, expected);
}

#[test]
fn ipv6_decode_carries_no_scope() {
    let ip = [0xfe, 0x80, 0, 0, 0, 0, 0, 0, 0, 0, 0, 0, 0, 0, 0, 1];
    let bytes = round_trip(Request::TCPConnect(SocketAddress::IPv6(ip, 8080)));
    assert_eq!(bytes.len(), 20);
}

#[test]
fn domain_request_round_trips_with_exact_bytes() {
    let bytes = round_trip(Request::TCPConnect(SocketAddress::Domain("localhost".to_string(), 7000)));
    let mut expected = vec![0x01, 0x01, 9];
    expected.extend_from_slice(b"localhost");
    expected.extend_from_slice(&[0x1B, 0x58]);
    assert_eq!(bytes, expected);
}

#[test]
fn non_ascii_domain_round_trips() {
    let bytes = round_trip(Request::TCPConnect(SocketAddress::Domain("bücher.de".to_string(), 80)));
    assert_eq!(bytes[2] as usize, "bücher.de".len());
}

#[test]
fn empty_domain_round_trips() {
    let bytes = round_trip(Request::TCPConnect(SocketAddress::Domain(String::new(), 1)));
    assert_eq!(bytes, vec![0x01, 0x01, 0, 0, 1]);
}

#[test]
fn longest_domain_round_trips() {
    let name = "a".repeat(255);
    let bytes = round_trip(Request::TCPConnect(SocketAddress::Domain(name, 65535)));
    assert_eq!(bytes.len(), MAX_REQUEST_LEN);
}

#[test]
fn too_long_domain_is_refused_at_encode() {
    let r = Request::TCPConnect(SocketAddress::Domain("a".repeat(256), 80));
    assert_eq!(r.to_bytes(), Err(EncodeError::DomainTooLong));
    let a = SocketAddress::Domain("a".repeat(256), 80);
    assert_eq!(a.to_bytes(), Err(EncodeError::DomainTooLong));
}

#[test]
fn unsupported_request_type() {
    for rtyp in [0x00u8, 0x02, 0x7F, 0xFF] {
        let frame = [rtyp, 0x02, 127, 0, 0, 1, 0, 80];
        assert_eq!(Request::decode(&frame), Err(DecodeError::UnsupportedRequestType(rtyp)));
    }
}

#[test]
fn unsupported_address_type() {
    for atyp in [0x00u8, 0x04, 0x05, 0xFF] {
        let frame = [0x01, atyp, 127, 0, 0, 1, 0, 80];
        assert_eq!(Request::decode(&frame), Err(DecodeError::UnsupportedAddressType(atyp)));
    }
}

#[test]
fn non_utf8_domain_is_invalid() {
    let frame = [0x01, 0x01, 2, 0xC3, 0x28, 0, 80];
    assert_eq!(Request::decode(&frame), Err(DecodeError::InvalidDomain));
}

#[test]
fn short_frames_are_truncated() {
    assert_eq!(Request::decode(&[]), Err(DecodeError::Truncated));
    assert_eq!(Request::decode(&[0x01]), Err(DecodeError::Truncated));
    assert_eq!(Request::decode(&[0x01, 0x02, 127, 0, 0, 1, 0]), Err(DecodeError::Truncated));
    assert_eq!(Request::decode(&[0x01, 0x01, 3, b'a', b'b']), Err(DecodeError::Truncated));
}

#[test]
fn trailing_bytes_are_left_alone() {
    let frame = [0x01, 0x02, 10, 0, 0, 2, 0, 22, b'h', b'i'];
    let (r, used) = Request::decode(&frame).unwrap();
    assert_eq!(r, Request::TCPConnect(SocketAddress::IPv4([10, 0, 0, 2], 22)));
    assert_eq!(used, 8);
}

#[test]
fn frame_len_grows_with_the_prefix() {
    assert_eq!(Request::frame_len(&[]), 2);
    assert_eq!(Request::frame_len(&[0x01, 0x01]), 3);
    assert_eq!(Request::frame_len(&[0x01, 0x01, 9]), 14);
    assert_eq!(Request::frame_len(&[0x01, 0x02]), 8);
    assert_eq!(Request::frame_len(&[0x01, 0x03]), 20);
    assert_eq!(Request::frame_len(&[0x09, 0x02]), 2);
}

#[test]
fn responses_round_trip() {
    for r in [Response::Succeed, Response::NoAcceptableMethod] {
        let bytes = r.to_bytes();
        assert_eq!(Response::decode(&bytes), Some(r));
    }
    assert_eq!(&Response::Succeed.to_bytes()[..], &[0x01]);
    assert_eq!(&Response::NoAcceptableMethod.to_bytes()[..], &[0xFF]);
}

#[test]
fn any_other_response_octet_is_a_refusal() {
    assert_eq!(Response::from_byte(0x00), Response::NoAcceptableMethod);
    assert_eq!(Response::from_byte(0x01), Response::Succeed);
    assert_eq!(Response::decode(&[]), None);
}
