//! The SOCKS5 messages (RFC 1928) that the client's edge reads and writes: the
//! method-selection greeting, the request, the reply and the header of a UDP
//! datagram. SOCKS5 numbers its address types otherwise than the tunnel's
//! request frame does; parsing maps them onto `SocketAddress`.
use crate::buffer::{
    bytes_contents, bytes_mut_contents, extend_from_slice, freeze, new_buffer, put_u8,
};
use crate::request::{
    port_at, port_bytes, read_port, str_from_utf8, write_port, AddressView, Request, SocketAddress,
    MAX_DOMAIN_LEN,
};
use bytes::{Bytes, BytesMut};
use vstd::prelude::*;
use vstd::slice::{slice_subrange, slice_to_vec};
use vstd::utf8::{decode_utf8, encode_utf8, valid_utf8};

verus! {

pub const SOCKS_VERSION: u8 = 0x05;

pub const METHOD_NO_AUTHENTICATION: u8 = 0x00;

pub const COMMAND_CONNECT: u8 = 0x01;

pub const COMMAND_BIND: u8 = 0x02;

pub const COMMAND_ASSOCIATE: u8 = 0x03;

pub const SOCKS_ATYP_IPV4: u8 = 0x01;

pub const SOCKS_ATYP_DOMAIN: u8 = 0x03;

pub const SOCKS_ATYP_IPV6: u8 = 0x04;

pub const REPLY_SUCCEEDED: u8 = 0x00;

pub const REPLY_COMMAND_NOT_SUPPORTED: u8 = 0x07;

/// Why bytes are not the SOCKS5 message that was expected.
#[derive(Debug, Clone, Copy, PartialEq, Eq)]
pub enum SocksError {
    /// The bytes end before the message does.
    Truncated,
    UnsupportedVersion(u8),
    UnsupportedAddressType(u8),
    /// The domain octets are not UTF-8.
    InvalidDomain,
    /// A UDP datagram that is one fragment of several.
    Fragmented(u8),
}

/// A SOCKS5 request, by command.
#[derive(Debug, Clone, PartialEq, Eq)]
pub enum SocksRequest {
    Connect(SocketAddress),
    Associate(SocketAddress),
    /// BIND or a command that RFC 1928 does not define.
    Unsupported(u8),
}

/// The mathematical value of a `SocksRequest`.
pub enum SocksRequestView {
    Connect(AddressView),
    Associate(AddressView),
    Unsupported(u8),
}

impl View for SocksRequest {
    type V = SocksRequestView;

    open spec fn view(&self) -> SocksRequestView {
        match self {
            SocksRequest::Connect(a) => SocksRequestView::Connect(a@),
            SocksRequest::Associate(a) => SocksRequestView::Associate(a@),
            SocksRequest::Unsupported(c) => SocksRequestView::Unsupported(*c),
        }
    }
}

/// The address at `b[i..]` in SOCKS5 form (ATYP, ADDR, PORT), with the index
/// just past it; or why there is none.
pub open spec fn parse_socks_address(b: Seq<u8>, i: int) -> Result<(AddressView, int), SocksError> {
    if b.len() < i + 1 {
        Err(SocksError::Truncated)
    } else if b[i] == SOCKS_ATYP_IPV4 {
        if b.len() - i < 7 {
            Err(SocksError::Truncated)
        } else {
            Ok((AddressView::IPv4(b.subrange(i + 1, i + 5), port_at(b, i + 5)), i + 7))
        }
    } else if b[i] == SOCKS_ATYP_DOMAIN {
        if b.len() - i < 2 {
            Err(SocksError::Truncated)
        } else {
            let n = b[i + 1] as int;
            if b.len() - i < n + 4 {
                Err(SocksError::Truncated)
            } else if !valid_utf8(b.subrange(i + 2, i + n + 2)) {
                Err(SocksError::InvalidDomain)
            } else {
                Ok(
                    (
                        AddressView::Domain(
                            decode_utf8(b.subrange(i + 2, i + n + 2)),
                            port_at(b, i + n + 2),
                        ),
                        i + n + 4,
                    ),
                )
            }
        }
    } else if b[i] == SOCKS_ATYP_IPV6 {
        if b.len() - i < 19 {
            Err(SocksError::Truncated)
        } else {
            Ok((AddressView::IPv6(b.subrange(i + 1, i + 17), port_at(b, i + 17)), i + 19))
        }
    } else {
        Err(SocksError::UnsupportedAddressType(b[i]))
    }
}

/// An address in SOCKS5 form: ATYP, ADDR, PORT.
pub open spec fn socks_address_bytes(a: AddressView) -> Seq<u8> {
    match a {
        AddressView::Domain(d, p) => seq![SOCKS_ATYP_DOMAIN, encode_utf8(d).len() as u8]
            + encode_utf8(d) + port_bytes(p),
        AddressView::IPv4(ip, p) => seq![SOCKS_ATYP_IPV4] + ip + port_bytes(p),
        AddressView::IPv6(ip, p) => seq![SOCKS_ATYP_IPV6] + ip + port_bytes(p),
    }
}

/// The methods that a greeting (VER, NMETHODS, METHODS) offers, with its
/// length; or why there is none.
pub open spec fn parse_greeting(b: Seq<u8>) -> Result<(Seq<u8>, int), SocksError> {
    if b.len() < 1 {
        Err(SocksError::Truncated)
    } else if b[0] != SOCKS_VERSION {
        Err(SocksError::UnsupportedVersion(b[0]))
    } else if b.len() < 2 || b.len() < b[1] as int + 2 {
        Err(SocksError::Truncated)
    } else {
        Ok((b.subrange(2, b[1] as int + 2), b[1] as int + 2))
    }
}

/// The request (VER, CMD, RSV, then the address) at the start of `b`, with
/// its length; or why there is none.
pub open spec fn parse_socks_request(b: Seq<u8>) -> Result<(SocksRequestView, int), SocksError> {
    if b.len() < 1 {
        Err(SocksError::Truncated)
    } else if b[0] != SOCKS_VERSION {
        Err(SocksError::UnsupportedVersion(b[0]))
    } else if b.len() < 3 {
        Err(SocksError::Truncated)
    } else {
        match parse_socks_address(b, 3) {
            Err(e) => Err(e),
            Ok((a, end)) => Ok(
                (
                    if b[1] == COMMAND_CONNECT {
                        SocksRequestView::Connect(a)
                    } else if b[1] == COMMAND_ASSOCIATE {
                        SocksRequestView::Associate(a)
                    } else {
                        SocksRequestView::Unsupported(b[1])
                    },
                    end,
                ),
            ),
        }
    }
}

/// A reply: VER, REP, RSV, then the bound address.
pub open spec fn reply_bytes(rep: u8, bound: AddressView) -> Seq<u8> {
    seq![SOCKS_VERSION, rep, 0u8] + socks_address_bytes(bound)
}

/// The header of a relayed UDP datagram: RSV, RSV, FRAG, then the address.
pub open spec fn udp_header_bytes(a: AddressView) -> Seq<u8> {
    seq![0u8, 0u8, 0u8] + socks_address_bytes(a)
}

/// The address of a UDP datagram and the index where its data starts; or why
/// the header is not one this edge relays.
pub open spec fn parse_udp_header(b: Seq<u8>) -> Result<(AddressView, int), SocksError> {
    if b.len() < 4 {
        Err(SocksError::Truncated)
    } else if b[2] != 0 {
        Err(SocksError::Fragmented(b[2]))
    } else {
        parse_socks_address(b, 3)
    }
}

/// The address with no host and no port: 0.0.0.0:0.
pub open spec fn unspecified() -> AddressView {
    AddressView::IPv4(seq![0u8, 0u8, 0u8, 0u8], 0)
}

/// Reads the SOCKS5 address at `b[i..]`.
pub fn read_socks_address(b: &[u8], i: usize) -> (r: Result<(SocketAddress, usize), SocksError>)
    ensures
        match parse_socks_address(b@, i as int) {
            Ok(pair) => r is Ok && r->Ok_0.0@ == pair.0 && r->Ok_0.1 as int == pair.1,
            Err(e) => r == Err::<(SocketAddress, usize), SocksError>(e),
        },
{
    if i >= b.len() {
        return Err(SocksError::Truncated);
    }
    let atyp = b[i];
    if atyp == SOCKS_ATYP_IPV4 {
        if b.len() - i < 7 {
            return Err(SocksError::Truncated);
        }
        let ip: [u8; 4] = [b[i + 1], b[i + 2], b[i + 3], b[i + 4]];
        assert(ip@ =~= b@.subrange(i + 1, i + 5));
        Ok((SocketAddress::IPv4(ip, read_port(b, i + 5)), i + 7))
    } else if atyp == SOCKS_ATYP_DOMAIN {
        if b.len() - i < 2 {
            return Err(SocksError::Truncated);
        }
        let n = b[i + 1] as usize;
        if b.len() - i < n + 4 {
            return Err(SocksError::Truncated);
        }
        let name = match str_from_utf8(slice_subrange(b, i + 2, i + n + 2)) {
            Some(s) => s.to_owned(),
            None => return Err(SocksError::InvalidDomain),
        };
        Ok((SocketAddress::Domain(name, read_port(b, i + n + 2)), i + n + 4))
    } else if atyp == SOCKS_ATYP_IPV6 {
        if b.len() - i < 19 {
            return Err(SocksError::Truncated);
        }
        let ip: [u8; 16] = [
            b[i + 1],
            b[i + 2],
            b[i + 3],
            b[i + 4],
            b[i + 5],
            b[i + 6],
            b[i + 7],
            b[i + 8],
            b[i + 9],
            b[i + 10],
            b[i + 11],
            b[i + 12],
            b[i + 13],
            b[i + 14],
            b[i + 15],
            b[i + 16],
        ];
        assert(ip@ =~= b@.subrange(i + 1, i + 17));
        Ok((SocketAddress::IPv6(ip, read_port(b, i + 17)), i + 19))
    } else {
        Err(SocksError::UnsupportedAddressType(atyp))
    }
}

/// Appends the SOCKS5 form of `a` to `b`; leaves `b` as it was when the domain
/// is too long to be counted by one octet.
fn write_socks_address(b: &mut BytesMut, a: &SocketAddress) -> (r: bool)
    requires
        bytes_mut_contents(*old(b)).len() <= 3,
    ensures
        r <==> crate::request::address_fits(a@),
        r ==> bytes_mut_contents(*final(b)) == bytes_mut_contents(*old(b))
            + socks_address_bytes(a@),
        !r ==> *final(b) == *old(b),
{
    let ghost before = bytes_mut_contents(*b);
    match a {
        SocketAddress::Domain(d, p) => {
            let db = d.as_str().as_bytes();
            if db.len() > MAX_DOMAIN_LEN {
                return false;
            }
            put_u8(b, SOCKS_ATYP_DOMAIN);
            put_u8(b, db.len() as u8);
            extend_from_slice(b, db);
            write_port(b, *p);
        },
        SocketAddress::IPv4(ip, p) => {
            put_u8(b, SOCKS_ATYP_IPV4);
            extend_from_slice(b, ip.as_slice());
            write_port(b, *p);
        },
        SocketAddress::IPv6(ip, p) => {
            put_u8(b, SOCKS_ATYP_IPV6);
            extend_from_slice(b, ip.as_slice());
            write_port(b, *p);
        },
    }
    assert(bytes_mut_contents(*b) =~= before + socks_address_bytes(a@));
    true
}

/// Reads a greeting: returns the methods that the client offers and the
/// greeting's length.
pub fn read_greeting(b: &[u8]) -> (r: Result<(Vec<u8>, usize), SocksError>)
    ensures
        match parse_greeting(b@) {
            Ok(pair) => r is Ok && r->Ok_0.0@ == pair.0 && r->Ok_0.1 as int == pair.1,
            Err(e) => r == Err::<(Vec<u8>, usize), SocksError>(e),
        },
{
    if b.len() < 1 {
        return Err(SocksError::Truncated);
    }
    if b[0] != SOCKS_VERSION {
        return Err(SocksError::UnsupportedVersion(b[0]));
    }
    if b.len() < 2 || b.len() < b[1] as usize + 2 {
        return Err(SocksError::Truncated);
    }
    let n = b[1] as usize;
    let methods = slice_to_vec(slice_subrange(b, 2, n + 2));
    Ok((methods, n + 2))
}

/// The method this edge selects, whatever the client offers: no authentication.
pub fn select_method(methods: &Vec<u8>) -> (r: u8)
    ensures
        r == METHOD_NO_AUTHENTICATION,
{
    METHOD_NO_AUTHENTICATION
}

/// The answer to a greeting: VER and the selected method.
pub fn method_reply(method: u8) -> (r: Bytes)
    ensures
        bytes_contents(r) == seq![SOCKS_VERSION, method],
{
    let mut b = new_buffer();
    put_u8(&mut b, SOCKS_VERSION);
    put_u8(&mut b, method);
    let r = freeze(b);
    assert(bytes_contents(r) =~= seq![SOCKS_VERSION, method]);
    r
}

/// Reads a request: returns it and its length.
pub fn read_request(b: &[u8]) -> (r: Result<(SocksRequest, usize), SocksError>)
    ensures
        match parse_socks_request(b@) {
            Ok(pair) => r is Ok && r->Ok_0.0@ == pair.0 && r->Ok_0.1 as int == pair.1,
            Err(e) => r == Err::<(SocksRequest, usize), SocksError>(e),
        },
{
    if b.len() < 1 {
        return Err(SocksError::Truncated);
    }
    if b[0] != SOCKS_VERSION {
        return Err(SocksError::UnsupportedVersion(b[0]));
    }
    if b.len() < 3 {
        return Err(SocksError::Truncated);
    }
    let (address, end) = read_socks_address(b, 3)?;
    let command = b[1];
    let request = if command == COMMAND_CONNECT {
        SocksRequest::Connect(address)
    } else if command == COMMAND_ASSOCIATE {
        SocksRequest::Associate(address)
    } else {
        SocksRequest::Unsupported(command)
    };
    Ok((request, end))
}

/// The tunnel request that a SOCKS5 request hands downstream: a CONNECT
/// becomes a TCPConnect to the same address; other commands hand on nothing.
pub fn to_tunnel_request(r: SocksRequest) -> (t: Option<Request>)
    ensures
        match r@ {
            SocksRequestView::Connect(a) => t is Some && t->Some_0@
                == crate::request::RequestView::TCPConnect(a),
            _ => t is None,
        },
{
    match r {
        SocksRequest::Connect(a) => Some(Request::TCPConnect(a)),
        _ => None,
    }
}

/// A reply with code `rep` and bound address `bound`; `None` when the domain
/// of `bound` is too long to be counted by one octet.
pub fn reply(rep: u8, bound: &SocketAddress) -> (r: Option<Bytes>)
    ensures
        r is Some <==> crate::request::address_fits(bound@),
        r is Some ==> bytes_contents(r->Some_0) == reply_bytes(rep, bound@),
{
    let mut b = new_buffer();
    put_u8(&mut b, SOCKS_VERSION);
    put_u8(&mut b, rep);
    put_u8(&mut b, 0);
    if !write_socks_address(&mut b, bound) {
        return None;
    }
    let r = freeze(b);
    assert(bytes_contents(r) =~= reply_bytes(rep, bound@));
    Some(r)
}

/// The reply with code `rep` and the unspecified bound address 0.0.0.0:0.
pub fn unspecified_reply(rep: u8) -> (r: Bytes)
    ensures
        bytes_contents(r) == reply_bytes(rep, unspecified()),
{
    let bound = SocketAddress::IPv4([0u8, 0u8, 0u8, 0u8], 0);
    assert(bound@ == unspecified()) by {
        assert([0u8, 0u8, 0u8, 0u8]@ =~= seq![0u8, 0u8, 0u8, 0u8]);
    }
    match reply(rep, &bound) {
        Some(r) => r,
        None => freeze(new_buffer()),
    }
}

/// The reply that a request gets as soon as it is read: CONNECT succeeds with
/// the unspecified bound address; BIND and undefined commands are refused as
/// not supported. ASSOCIATE gets none here: its reply carries the address of
/// the relay, which is bound first.
pub fn immediate_reply(request: &SocksRequest) -> (r: Option<Bytes>)
    ensures
        match request@ {
            SocksRequestView::Connect(_) => r is Some && bytes_contents(r->Some_0) == reply_bytes(
                REPLY_SUCCEEDED,
                unspecified(),
            ),
            SocksRequestView::Associate(_) => r is None,
            SocksRequestView::Unsupported(_) => r is Some && bytes_contents(r->Some_0)
                == reply_bytes(REPLY_COMMAND_NOT_SUPPORTED, unspecified()),
        },
{
    match request {
        SocksRequest::Connect(_) => Some(unspecified_reply(REPLY_SUCCEEDED)),
        SocksRequest::Associate(_) => None,
        SocksRequest::Unsupported(_) => Some(unspecified_reply(REPLY_COMMAND_NOT_SUPPORTED)),
    }
}

/// Reads the header of a relayed UDP datagram: returns its address and the
/// index where the data starts.
pub fn read_udp_header(b: &[u8]) -> (r: Result<(SocketAddress, usize), SocksError>)
    ensures
        match parse_udp_header(b@) {
            Ok(pair) => r is Ok && r->Ok_0.0@ == pair.0 && r->Ok_0.1 as int == pair.1,
            Err(e) => r == Err::<(SocketAddress, usize), SocksError>(e),
        },
{
    if b.len() < 4 {
        return Err(SocksError::Truncated);
    }
    if b[2] != 0 {
        return Err(SocksError::Fragmented(b[2]));
    }
    read_socks_address(b, 3)
}

/// The header for a datagram relayed back from `source`; `None` when the
/// domain of `source` is too long to be counted by one octet.
pub fn udp_header(source: &SocketAddress) -> (r: Option<Bytes>)
    ensures
        r is Some <==> crate::request::address_fits(source@),
        r is Some ==> bytes_contents(r->Some_0) == udp_header_bytes(source@),
{
    let mut b = new_buffer();
    put_u8(&mut b, 0);
    put_u8(&mut b, 0);
    put_u8(&mut b, 0);
    if !write_socks_address(&mut b, source) {
        return None;
    }
    let r = freeze(b);
    assert(bytes_contents(r) =~= udp_header_bytes(source@));
    Some(r)
}

} // verus!
