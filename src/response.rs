//! The response frame: one octet that the server writes before any payload.
use crate::buffer::{bytes_contents, freeze, new_buffer, put_u8};
use bytes::Bytes;
use vstd::prelude::*;

verus! {

pub const SUCCEED: u8 = 0x01;

pub const NO_ACCEPTABLE_REQUEST: u8 = 0xFF;

/// The server's answer to a request.
#[derive(Debug, Clone, Copy, PartialEq, Eq, Structural)]
pub enum Response {
    Succeed,
    NoAcceptableMethod,
}

/// The octet that carries a response.
pub open spec fn response_byte(r: Response) -> u8 {
    match r {
        Response::Succeed => SUCCEED,
        Response::NoAcceptableMethod => NO_ACCEPTABLE_REQUEST,
    }
}

/// The response that an octet carries: anything but `SUCCEED` is a refusal.
pub open spec fn response_of(b: u8) -> Response {
    if b == SUCCEED {
        Response::Succeed
    } else {
        Response::NoAcceptableMethod
    }
}

impl Response {
    /// Frames the response as its single octet.
    pub fn to_bytes(&self) -> (r: Bytes)
        ensures
            bytes_contents(r) == seq![response_byte(*self)],
    {
        let mut b = new_buffer();
        let v = match self {
            Response::Succeed => SUCCEED,
            Response::NoAcceptableMethod => NO_ACCEPTABLE_REQUEST,
        };
        put_u8(&mut b, v);
        let r = freeze(b);
        assert(bytes_contents(r) =~= seq![response_byte(*self)]);
        r
    }

    /// The response that one octet carries.
    pub fn from_byte(b: u8) -> (r: Response)
        ensures
            r == response_of(b),
    {
        if b == SUCCEED {
            Response::Succeed
        } else {
            Response::NoAcceptableMethod
        }
    }

    /// Reads the response at the start of `buf`; `None` when `buf` is empty.
    pub fn decode(buf: &[u8]) -> (r: Option<Response>)
        ensures
            buf@.len() == 0 <==> r is None,
            buf@.len() > 0 ==> r == Some(response_of(buf@[0])),
    {
        if buf.len() == 0 {
            None
        } else {
            Some(Response::from_byte(buf[0]))
        }
    }
}

/// Every response reads back from its octet as itself.
pub proof fn lemma_response_round_trip(r: Response)
    ensures
        response_of(response_byte(r)) == r,
{
}

} // verus!
