//! A split SOCKS5-to-QUIC tunnel: the inner request framing carried on each
//! QUIC stream, the SOCKS5 edge's message formats, the decisions of the
//! connection and stream supplies, and the resolver's choice of an answer.

pub mod buffer;
pub mod request;
pub mod response;
pub mod socks;
pub mod dns;
pub mod connection;
pub mod stream;
