//! What the server makes of a lookup: the first answer, paired with the
//! requested port. The lookup itself is the resolver's work.
use crate::request::{AddressView, SocketAddress};
use vstd::prelude::*;

verus! {

/// One answer of a lookup.
#[derive(Debug, Clone, Copy, PartialEq, Eq)]
pub enum IpAddress {
    V4([u8; 4]),
    V6([u8; 16]),
}

/// Why a destination has no socket address.
#[derive(Debug, Clone, PartialEq, Eq)]
pub enum ResolveError {
    /// The lookup of this domain gave no answer.
    UnresolvedDomain(String),
}

/// An answer with a port.
pub open spec fn answer_address(ip: IpAddress, port: u16) -> AddressView {
    match ip {
        IpAddress::V4(a) => AddressView::IPv4(a@, port),
        IpAddress::V6(a) => AddressView::IPv6(a@, port),
    }
}

/// The socket address that a lookup of `domain` comes to: the first of its
/// `answers` with `port`, or `UnresolvedDomain` when there is none.
pub fn first_answer(domain: &str, port: u16, answers: &Vec<IpAddress>) -> (r: Result<
    SocketAddress,
    ResolveError,
>)
    ensures
        answers@.len() > 0 <==> r is Ok,
        answers@.len() > 0 ==> r->Ok_0@ == answer_address(answers@[0], port),
        r is Err ==> r->Err_0 is UnresolvedDomain && r->Err_0->UnresolvedDomain_0@ == domain@,
{
    if answers.len() == 0 {
        return Err(ResolveError::UnresolvedDomain(domain.to_owned()));
    }
    match answers[0] {
        IpAddress::V4(a) => Ok(SocketAddress::IPv4(a, port)),
        IpAddress::V6(a) => Ok(SocketAddress::IPv6(a, port)),
    }
}

impl SocketAddress {
    /// The socket address to dial: an IP address as it is; a domain by the
    /// first of `answers`, the result of looking it up.
    pub fn to_socket_address(&self, answers: &Vec<IpAddress>) -> (r: Result<
        SocketAddress,
        ResolveError,
    >)
        ensures
            match self@ {
                AddressView::Domain(d, p) => {
                    &&& answers@.len() > 0 <==> r is Ok
                    &&& answers@.len() > 0 ==> r->Ok_0@ == answer_address(answers@[0], p)
                    &&& r is Err ==> r->Err_0 is UnresolvedDomain
                        && r->Err_0->UnresolvedDomain_0@ == d
                },
                _ => r is Ok && r->Ok_0@ == self@,
            },
    {
        match self {
            SocketAddress::Domain(d, p) => first_answer(d.as_str(), *p, answers),
            SocketAddress::IPv4(a, p) => Ok(SocketAddress::IPv4(*a, *p)),
            SocketAddress::IPv6(a, p) => Ok(SocketAddress::IPv6(*a, *p)),
        }
    }
}

} // verus!
