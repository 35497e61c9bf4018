//! The request frame that opens every tunnelled stream.
//!
//! ```text
//! +------+------+----------+------+
//! | RTYP | ATYP |   ADDR   | PORT |
//! +------+------+----------+------+
//! |  1   |  1   | variable |  2   |
//! +------+------+----------+------+
//! ```
//!
//! All integers are big-endian. A domain address is a length octet followed by
//! that many UTF-8 octets.
use crate::buffer::{
    bytes_contents, bytes_mut_contents, extend_from_slice, freeze, new_buffer, put_u8,
};
use bytes::{Bytes, BytesMut};
use vstd::prelude::*;
use vstd::slice::slice_subrange;
use vstd::utf8::{decode_utf8, encode_utf8, valid_utf8};

verus! {

pub const REQUEST_TYPE_TCP_CONNECT: u8 = 0x01;

pub const ADDRESS_TYPE_DOMAIN: u8 = 0x01;

pub const ADDRESS_TYPE_IPV4: u8 = 0x02;

pub const ADDRESS_TYPE_IPV6: u8 = 0x03;

/// The longest domain name, in UTF-8 octets, that a single length octet can carry.
pub const MAX_DOMAIN_LEN: usize = 255;

/// The longest request frame: type, address type, length octet, domain, port.
pub const MAX_REQUEST_LEN: usize = 260;

/// A destination as carried in a request. IPv6 flow information and scope
/// identifiers are not part of it.
#[derive(Debug, Clone, PartialEq, Eq)]
pub enum SocketAddress {
    Domain(String, u16),
    IPv4([u8; 4], u16),
    IPv6([u8; 16], u16),
}

/// The mathematical value of a `SocketAddress`.
pub enum AddressView {
    Domain(Seq<char>, u16),
    IPv4(Seq<u8>, u16),
    IPv6(Seq<u8>, u16),
}

impl View for SocketAddress {
    type V = AddressView;

    open spec fn view(&self) -> AddressView {
        match self {
            SocketAddress::Domain(d, p) => AddressView::Domain(d@, *p),
            SocketAddress::IPv4(a, p) => AddressView::IPv4(a@, *p),
            SocketAddress::IPv6(a, p) => AddressView::IPv6(a@, *p),
        }
    }
}

/// What a client asks the server to do on a fresh stream.
#[derive(Debug, Clone, PartialEq, Eq)]
pub enum Request {
    TCPConnect(SocketAddress),
}

/// The mathematical value of a `Request`.
pub enum RequestView {
    TCPConnect(AddressView),
}

impl View for Request {
    type V = RequestView;

    open spec fn view(&self) -> RequestView {
        match self {
            Request::TCPConnect(a) => RequestView::TCPConnect(a@),
        }
    }
}

/// Why a byte sequence is not a request frame.
#[derive(Debug, Clone, Copy, PartialEq, Eq)]
pub enum DecodeError {
    /// The bytes end before the frame does.
    Truncated,
    UnsupportedRequestType(u8),
    UnsupportedAddressType(u8),
    /// The domain octets are not UTF-8.
    InvalidDomain,
}

/// Why a request cannot be framed.
#[derive(Debug, Clone, Copy, PartialEq, Eq)]
pub enum EncodeError {
    /// The domain takes more UTF-8 octets than a length octet can count.
    DomainTooLong,
}

/// The two big-endian octets of a port.
pub open spec fn port_bytes(p: u16) -> Seq<u8> {
    seq![(p / 256) as u8, (p % 256) as u8]
}

/// The port held big-endian at `b[i]`, `b[i + 1]`.
pub open spec fn port_at(b: Seq<u8>, i: int) -> u16 {
    (b[i] as int * 256 + b[i + 1] as int) as u16
}

/// An address that a value of `SocketAddress` can hold and a frame can carry.
pub open spec fn address_fits(a: AddressView) -> bool {
    match a {
        AddressView::Domain(d, _) => encode_utf8(d).len() <= MAX_DOMAIN_LEN,
        AddressView::IPv4(ip, _) => ip.len() == 4,
        AddressView::IPv6(ip, _) => ip.len() == 16,
    }
}

pub open spec fn request_fits(r: RequestView) -> bool {
    match r {
        RequestView::TCPConnect(a) => address_fits(a),
    }
}

/// ATYP, ADDR and PORT of an address.
pub open spec fn address_bytes(a: AddressView) -> Seq<u8> {
    match a {
        AddressView::Domain(d, p) => seq![ADDRESS_TYPE_DOMAIN, encode_utf8(d).len() as u8]
            + encode_utf8(d) + port_bytes(p),
        AddressView::IPv4(ip, p) => seq![ADDRESS_TYPE_IPV4] + ip + port_bytes(p),
        AddressView::IPv6(ip, p) => seq![ADDRESS_TYPE_IPV6] + ip + port_bytes(p),
    }
}

/// The frame of a request.
pub open spec fn request_bytes(r: RequestView) -> Seq<u8> {
    match r {
        RequestView::TCPConnect(a) => seq![REQUEST_TYPE_TCP_CONNECT] + address_bytes(a),
    }
}

/// What the frame at the start of `b` holds, with its length; or why there is none.
pub open spec fn parse_request(b: Seq<u8>) -> Result<(RequestView, nat), DecodeError> {
    if b.len() < 1 {
        Err(DecodeError::Truncated)
    } else if b[0] != REQUEST_TYPE_TCP_CONNECT {
        Err(DecodeError::UnsupportedRequestType(b[0]))
    } else if b.len() < 2 {
        Err(DecodeError::Truncated)
    } else if b[1] == ADDRESS_TYPE_DOMAIN {
        if b.len() < 3 {
            Err(DecodeError::Truncated)
        } else {
            let n = b[2] as int;
            if b.len() < n + 5 {
                Err(DecodeError::Truncated)
            } else if !valid_utf8(b.subrange(3, n + 3)) {
                Err(DecodeError::InvalidDomain)
            } else {
                Ok(
                    (
                        RequestView::TCPConnect(
                            AddressView::Domain(decode_utf8(b.subrange(3, n + 3)), port_at(b, n + 3)),
                        ),
                        (n + 5) as nat,
                    ),
                )
            }
        }
    } else if b[1] == ADDRESS_TYPE_IPV4 {
        if b.len() < 8 {
            Err(DecodeError::Truncated)
        } else {
            Ok((RequestView::TCPConnect(AddressView::IPv4(b.subrange(2, 6), port_at(b, 6))), 8))
        }
    } else if b[1] == ADDRESS_TYPE_IPV6 {
        if b.len() < 20 {
            Err(DecodeError::Truncated)
        } else {
            Ok((RequestView::TCPConnect(AddressView::IPv6(b.subrange(2, 18), port_at(b, 18))), 20))
        }
    } else {
        Err(DecodeError::UnsupportedAddressType(b[1]))
    }
}

/// How long the frame that starts with `b` is, as far as `b` tells: a reader
/// that holds fewer bytes reads up to this length and asks again.
pub open spec fn frame_len(b: Seq<u8>) -> int {
    if b.len() < 2 || b[0] != REQUEST_TYPE_TCP_CONNECT {
        2
    } else if b[1] == ADDRESS_TYPE_DOMAIN {
        if b.len() < 3 {
            3
        } else {
            b[2] as int + 5
        }
    } else if b[1] == ADDRESS_TYPE_IPV4 {
        8
    } else if b[1] == ADDRESS_TYPE_IPV6 {
        20
    } else {
        2
    }
}

/// Relies on `std::str::from_utf8`: it succeeds exactly on valid UTF-8, and the
/// string it returns holds the characters that the bytes encode.
#[verifier::external_body]
pub(crate) fn str_from_utf8(b: &[u8]) -> (r: Option<&str>)
    ensures
        r is Some <==> valid_utf8(b@),
        r is Some ==> r->Some_0@ == decode_utf8(b@),
{
    std::str::from_utf8(b).ok()
}

pub(crate) fn read_port(b: &[u8], i: usize) -> (r: u16)
    requires
        i + 1 < b@.len(),
    ensures
        r == port_at(b@, i as int),
{
    (b[i] as u16) * 256 + (b[i + 1] as u16)
}

pub(crate) fn write_port(b: &mut BytesMut, p: u16)
    requires
        bytes_mut_contents(*old(b)).len() + 2 <= usize::MAX,
    ensures
        bytes_mut_contents(*final(b)) == bytes_mut_contents(*old(b))
            + port_bytes(p),
{
    put_u8(b, (p / 256) as u8);
    put_u8(b, (p % 256) as u8);
    assert(bytes_mut_contents(*b) =~= bytes_mut_contents(*old(b))
        + port_bytes(p));
}

impl SocketAddress {
    /// Appends ATYP, ADDR and PORT to `b`, or leaves `b` as it was when the
    /// domain is too long for a frame.
    pub(crate) fn write_to_buffer(&self, b: &mut BytesMut) -> (r: Result<(), EncodeError>)
        requires
            bytes_mut_contents(*old(b)).len() <= 1,
        ensures
            r is Ok <==> address_fits(self@),
            r is Ok ==> bytes_mut_contents(*final(b)) == bytes_mut_contents(*old(b))
                + address_bytes(self@),
            r is Err ==> r == Err::<(), EncodeError>(EncodeError::DomainTooLong)
                && *final(b) == *old(b),
    {
        let ghost before = bytes_mut_contents(*b);
        match self {
            SocketAddress::Domain(d, p) => {
                let db = d.as_str().as_bytes();
                if db.len() > MAX_DOMAIN_LEN {
                    return Err(EncodeError::DomainTooLong);
                }
                put_u8(b, ADDRESS_TYPE_DOMAIN);
                put_u8(b, db.len() as u8);
                extend_from_slice(b, db);
                write_port(b, *p);
            },
            SocketAddress::IPv4(ip, p) => {
                put_u8(b, ADDRESS_TYPE_IPV4);
                extend_from_slice(b, ip.as_slice());
                write_port(b, *p);
            },
            SocketAddress::IPv6(ip, p) => {
                put_u8(b, ADDRESS_TYPE_IPV6);
                extend_from_slice(b, ip.as_slice());
                write_port(b, *p);
            },
        }
        assert(bytes_mut_contents(*b) =~= before + address_bytes(self@));
        Ok(())
    }

    /// Frames the address: ATYP, ADDR and PORT.
    pub fn to_bytes(&self) -> (r: Result<Bytes, EncodeError>)
        ensures
            r is Ok <==> address_fits(self@),
            r is Ok ==> bytes_contents(r->Ok_0) == address_bytes(self@),
            r is Err ==> r == Err::<Bytes, EncodeError>(EncodeError::DomainTooLong),
    {
        let mut b = new_buffer();
        self.write_to_buffer(&mut b)?;
        let r = freeze(b);
        assert(bytes_contents(r) =~= address_bytes(self@));
        Ok(r)
    }
}

impl Request {
    /// Frames the request: RTYP, then the address.
    pub fn to_bytes(&self) -> (r: Result<Bytes, EncodeError>)
        ensures
            r is Ok <==> request_fits(self@),
            r is Ok ==> bytes_contents(r->Ok_0) == request_bytes(self@),
            r is Err ==> r == Err::<Bytes, EncodeError>(EncodeError::DomainTooLong),
    {
        match self {
            Request::TCPConnect(a) => {
                let mut b = new_buffer();
                put_u8(&mut b, REQUEST_TYPE_TCP_CONNECT);
                a.write_to_buffer(&mut b)?;
                let r = freeze(b);
                assert(bytes_contents(r) =~= request_bytes(self@));
                Ok(r)
            },
        }
    }

    /// The length that the frame starting with `prefix` has, as far as
    /// `prefix` tells. A reader holding fewer bytes than this reads up to it
    /// and asks again; one holding at least this many calls `decode`.
    pub fn frame_len(prefix: &[u8]) -> (r: usize)
        ensures
            r as int == frame_len(prefix@),
            2 <= r <= MAX_REQUEST_LEN,
            prefix@.len() >= r ==> parse_request(prefix@) != Err::<(RequestView, nat), DecodeError>(
                DecodeError::Truncated,
            ),
    {
        if prefix.len() < 2 || prefix[0] != REQUEST_TYPE_TCP_CONNECT {
            2
        } else if prefix[1] == ADDRESS_TYPE_DOMAIN {
            if prefix.len() < 3 {
                3
            } else {
                prefix[2] as usize + 5
            }
        } else if prefix[1] == ADDRESS_TYPE_IPV4 {
            8
        } else if prefix[1] == ADDRESS_TYPE_IPV6 {
            20
        } else {
            2
        }
    }

    /// Reads the frame at the start of `buf`; returns the request and the
    /// number of bytes the frame took. Bytes after the frame are left alone.
    pub fn decode(buf: &[u8]) -> (r: Result<(Request, usize), DecodeError>)
        ensures
            match parse_request(buf@) {
                Ok(pair) => r is Ok && r->Ok_0.0@ == pair.0 && r->Ok_0.1 as nat == pair.1,
                Err(e) => r == Err::<(Request, usize), DecodeError>(e),
            },
    {
        if buf.len() < 1 {
            return Err(DecodeError::Truncated);
        }
        if buf[0] != REQUEST_TYPE_TCP_CONNECT {
            return Err(DecodeError::UnsupportedRequestType(buf[0]));
        }
        if buf.len() < 2 {
            return Err(DecodeError::Truncated);
        }
        let atyp = buf[1];
        if atyp == ADDRESS_TYPE_DOMAIN {
            if buf.len() < 3 {
                return Err(DecodeError::Truncated);
            }
            let n = buf[2] as usize;
            if buf.len() < n + 5 {
                return Err(DecodeError::Truncated);
            }
            let name = match str_from_utf8(slice_subrange(buf, 3, n + 3)) {
                Some(s) => s.to_owned(),
                None => return Err(DecodeError::InvalidDomain),
            };
            let port = read_port(buf, n + 3);
            Ok((Request::TCPConnect(SocketAddress::Domain(name, port)), n + 5))
        } else if atyp == ADDRESS_TYPE_IPV4 {
            if buf.len() < 8 {
                return Err(DecodeError::Truncated);
            }
            let ip: [u8; 4] = [buf[2], buf[3], buf[4], buf[5]];
            assert(ip@ =~= buf@.subrange(2, 6));
            let port = read_port(buf, 6);
            Ok((Request::TCPConnect(SocketAddress::IPv4(ip, port)), 8))
        } else if atyp == ADDRESS_TYPE_IPV6 {
            if buf.len() < 20 {
                return Err(DecodeError::Truncated);
            }
            let ip: [u8; 16] = [
                buf[2],
                buf[3],
                buf[4],
                buf[5],
                buf[6],
                buf[7],
                buf[8],
                buf[9],
                buf[10],
                buf[11],
                buf[12],
                buf[13],
                buf[14],
                buf[15],
                buf[16],
                buf[17],
            ];
            assert(ip@ =~= buf@.subrange(2, 18));
            let port = read_port(buf, 18);
            Ok((Request::TCPConnect(SocketAddress::IPv6(ip, port)), 20))
        } else {
            Err(DecodeError::UnsupportedAddressType(atyp))
        }
    }
}

proof fn lemma_port_round_trip(p: u16)
    ensures
        port_at(port_bytes(p), 0) == p,
{
}

/// Every request that fits in a frame reads back from its frame as itself,
/// and the frame is exactly as long as `decode` reports.
pub proof fn lemma_request_round_trip(r: RequestView)
    requires
        request_fits(r),
    ensures
        parse_request(request_bytes(r)) == Ok::<(RequestView, nat), DecodeError>(
            (r, request_bytes(r).len()),
        ),
        frame_len(request_bytes(r)) == request_bytes(r).len(),
{
    let b = request_bytes(r);
    match r {
        RequestView::TCPConnect(a) => {
            match a {
                AddressView::Domain(d, p) => {
                    let e = encode_utf8(d);
                    vstd::utf8::encode_utf8_valid_utf8(d);
                    vstd::utf8::encode_utf8_decode_utf8(d);
                    assert(b[2] as int == e.len());
                    assert(b.subrange(3, e.len() as int + 3) =~= e);
                    assert(b.subrange(e.len() as int + 3, e.len() as int + 5) =~= port_bytes(p));
                    lemma_port_round_trip(p);
                },
                AddressView::IPv4(ip, p) => {
                    assert(b.subrange(2, 6) =~= ip);
                    lemma_port_round_trip(p);
                },
                AddressView::IPv6(ip, p) => {
                    assert(b.subrange(2, 18) =~= ip);
                    lemma_port_round_trip(p);
                },
            }
        },
    }
}

/// A first octet other than TCPConnect's is reported as an unsupported
/// request type, whatever follows it.
pub proof fn lemma_unsupported_request_type(b: Seq<u8>)
    requires
        b.len() >= 1,
        b[0] != REQUEST_TYPE_TCP_CONNECT,
    ensures
        parse_request(b) == Err::<(RequestView, nat), DecodeError>(
            DecodeError::UnsupportedRequestType(b[0]),
        ),
{
}

/// After a TCPConnect octet, an address type octet other than domain, IPv4 or
/// IPv6 is reported as an unsupported address type.
pub proof fn lemma_unsupported_address_type(b: Seq<u8>)
    requires
        b.len() >= 2,
        b[0] == REQUEST_TYPE_TCP_CONNECT,
        b[1] != ADDRESS_TYPE_DOMAIN && b[1] != ADDRESS_TYPE_IPV4 && b[1] != ADDRESS_TYPE_IPV6,
    ensures
        parse_request(b) == Err::<(RequestView, nat), DecodeError>(
            DecodeError::UnsupportedAddressType(b[1]),
        ),
{
}

/// A complete domain frame whose name octets are not UTF-8 is reported as an
/// invalid domain.
pub proof fn lemma_invalid_domain(name: Seq<u8>, p: u16)
    requires
        name.len() <= MAX_DOMAIN_LEN,
        !valid_utf8(name),
    ensures
        parse_request(
            seq![REQUEST_TYPE_TCP_CONNECT, ADDRESS_TYPE_DOMAIN, name.len() as u8] + name
                + port_bytes(p),
        ) == Err::<(RequestView, nat), DecodeError>(DecodeError::InvalidDomain),
{
    let b = seq![REQUEST_TYPE_TCP_CONNECT, ADDRESS_TYPE_DOMAIN, name.len() as u8] + name
        + port_bytes(p);
    assert(b.subrange(3, name.len() as int + 3) =~= name);
}

/// Domains of every length from 0 to 255 octets are framed and read back;
/// longer ones are refused when framing.
pub proof fn lemma_domain_length_bounds(d: Seq<char>, p: u16)
    ensures
        encode_utf8(d).len() <= MAX_DOMAIN_LEN ==> parse_request(
            request_bytes(RequestView::TCPConnect(AddressView::Domain(d, p))),
        ) == Ok::<(RequestView, nat), DecodeError>(
            (
                RequestView::TCPConnect(AddressView::Domain(d, p)),
                encode_utf8(d).len() + 5,
            ),
        ),
        encode_utf8(d).len() > MAX_DOMAIN_LEN ==> !request_fits(
            RequestView::TCPConnect(AddressView::Domain(d, p)),
        ),
{
    if encode_utf8(d).len() <= MAX_DOMAIN_LEN {
        lemma_request_round_trip(RequestView::TCPConnect(AddressView::Domain(d, p)));
    }
}

} // verus!
