use quics::connection::{Connection, ConnectionAction, ConnectionEvent, ConnectionPhase};
use quics::dns::{first_answer, IpAddress, ResolveError};
use quics::request::SocketAddress;
use quics::stream::{Stream, StreamAction, StreamEvent, StreamPhase};

#[test]
fn first_answer_is_paired_with_the_port() {
    let answers = vec![IpAddress::V4([127, 0, 0, 1]), IpAddress::V4([10, 0, 0, 1])];
    assert_eq!(
        first_answer("localhost", 7000, &answers),
        Ok(SocketAddress::IPv4([127, 0, 0, 1], 7000))
    );
    let mut v6 = [0u8; 16];
    v6[15] = 1;
    assert_eq!(
        first_answer("localhost", 80, &vec![IpAddress::V6(v6)]),
        Ok(SocketAddress::IPv6(v6, 80))
    );
}

#[test]
fn no_answer_is_an_unresolved_domain() {
    assert_eq!(
        first_answer("nowhere.invalid", 80, &vec![]),
        Err(ResolveError::UnresolvedDomain("nowhere.invalid".to_string()))
    );
}

#[test]
fn to_socket_address_looks_up_domains_only() {
    let ip = SocketAddress::IPv4([127, 0, 0, 1], 1);
    assert_eq!(ip.to_socket_address(&vec![]), Ok(ip.clone()));
    let d = SocketAddress::Domain("localhost".to_string(), 7000);
    assert_eq!(
        d.to_socket_address(&vec![IpAddress::V4([127, 0, 0, 1])]),
        Ok(SocketAddress::IPv4([127, 0, 0, 1], 7000))
    );
    assert_eq!(
        d.to_socket_address(&vec![]),
        Err(ResolveError::UnresolvedDomain("localhost".to_string()))
    );
}

#[test]
fn connection_supply_reconnects_until_downstream_closes() {
    let mut c = Connection::new();
    assert_eq!(c.action(), ConnectionAction::Connect);
    assert_eq!(c.step(ConnectionEvent::ConnectFailed), ConnectionAction::Connect);
    assert_eq!(c.step(ConnectionEvent::Connected), ConnectionAction::EnableKeepAlive);
    assert_eq!(c.step(ConnectionEvent::KeepAliveFailed), ConnectionAction::Connect);
    assert_eq!(c.step(ConnectionEvent::Connected), ConnectionAction::EnableKeepAlive);
    assert_eq!(c.step(ConnectionEvent::KeepAliveEnabled), ConnectionAction::Offer);
    assert_eq!(c.step(ConnectionEvent::Delivered), ConnectionAction::Connect);
    assert_eq!(c.step(ConnectionEvent::Connected), ConnectionAction::EnableKeepAlive);
    assert_eq!(c.step(ConnectionEvent::KeepAliveEnabled), ConnectionAction::Offer);
    assert_eq!(c.step(ConnectionEvent::DownstreamClosed), ConnectionAction::Stop);
    assert_eq!(c.phase, ConnectionPhase::Stopped);
    assert_eq!(c.step(ConnectionEvent::Connected), ConnectionAction::Stop);
}

#[test]
fn stream_supply_refetches_after_a_failed_open() {
    let mut s = Stream::new();
    assert_eq!(s.action(), StreamAction::FetchConnection);
    assert_eq!(s.step(StreamEvent::ConnectionFetched), StreamAction::OpenStream);
    assert_eq!(s.step(StreamEvent::Opened), StreamAction::Forward);
    assert_eq!(s.step(StreamEvent::Forwarded), StreamAction::OpenStream);
    assert_eq!(s.step(StreamEvent::OpenFailed), StreamAction::FetchConnection);
    assert_eq!(s.step(StreamEvent::ConnectionFetched), StreamAction::OpenStream);
    assert_eq!(s.step(StreamEvent::Opened), StreamAction::Forward);
    assert_eq!(s.step(StreamEvent::DownstreamClosed), StreamAction::Stop);
    assert_eq!(s.phase, StreamPhase::Stopped);
}

#[test]
fn stream_supply_stops_when_connections_run_out() {
    let mut s = Stream::new();
    assert_eq!(s.step(StreamEvent::ConnectionsExhausted), StreamAction::Stop);
}
