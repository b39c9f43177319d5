//! Classification of the two raw network probes: the TCP reachability
//! check of the control API port and the UDP liveness check of the DNS
//! port. The socket work happens outside the library; it reports what it
//! observed as a plain outcome value, and the functions here turn that
//! observation into a [`PortState`].

use vstd::prelude::*;

verus! {

/// Observed reachability of a single network port.
#[derive(Debug, PartialEq, Eq, Clone, Copy, Structural)]
pub enum PortState {
    Open,
    Closed,
    Error,
}

/// What the TCP connection attempt to the API port observed.
#[derive(Debug, PartialEq, Eq, Clone, Copy, Structural)]
pub enum TcpProbeOutcome {
    /// The connection was established (and closed again at once).
    Connected,
    /// The peer refused the connection.
    Refused,
    /// The peer reset the connection.
    Reset,
    /// Anything else: name resolution failure, timeout, malformed target.
    OtherError,
}

/// How a TCP connection attempt is read: connecting means the port is
/// open, an active refusal or reset means it is closed, and every other
/// failure is an error.
pub open spec fn spec_classify_tcp_probe(o: TcpProbeOutcome) -> PortState {
    match o {
        TcpProbeOutcome::Connected => PortState::Open,
        TcpProbeOutcome::Refused => PortState::Closed,
        TcpProbeOutcome::Reset => PortState::Closed,
        TcpProbeOutcome::OtherError => PortState::Error,
    }
}

/// Classify what the TCP reachability check observed. Total: every
/// outcome maps to exactly one port state.
pub fn classify_tcp_probe(outcome: &TcpProbeOutcome) -> (r: PortState)
    ensures
        r == spec_classify_tcp_probe(*outcome),
{
    match outcome {
        TcpProbeOutcome::Connected => PortState::Open,
        TcpProbeOutcome::Refused => PortState::Closed,
        TcpProbeOutcome::Reset => PortState::Closed,
        TcpProbeOutcome::OtherError => PortState::Error,
    }
}

/// What the UDP liveness probe observed within its bounded wait.
#[derive(Debug, PartialEq, Eq, Clone)]
pub enum UdpProbeOutcome {
    /// A datagram came back; these are its bytes.
    Reply(Vec<u8>),
    /// No datagram arrived before the timeout.
    TimedOut,
    /// The socket could not be set up or written to.
    IoError,
}

/// Whether a byte string is a well-formed DNS wire-format message.
/// Parsing is deterministic; what it accepts is defined by the DNS
/// specification and not restated here.
pub uninterp spec fn dns_wire_ok(b: Seq<u8>) -> bool;

/// Relies on rustdns::Message::from_slice: decoding is a pure function of
/// the bytes, succeeding exactly on well-formed DNS messages.
#[verifier::external_body]
fn dns_wire_parses(buf: &[u8]) -> (r: bool)
    ensures
        r == dns_wire_ok(buf@),
{
    rustdns::Message::from_slice(buf).is_ok()
}

/// How the UDP probe's observation is read: any parseable DNS reply means
/// the resolver answers on that port, regardless of the answer's content;
/// a timeout is taken as the port not answering; an unparseable reply or
/// a socket failure is an error.
pub open spec fn spec_classify_udp_probe(o: UdpProbeOutcome) -> PortState {
    match o {
        UdpProbeOutcome::Reply(b) => if dns_wire_ok(b@) {
            PortState::Open
        } else {
            PortState::Error
        },
        UdpProbeOutcome::TimedOut => PortState::Closed,
        UdpProbeOutcome::IoError => PortState::Error,
    }
}

/// Classify what the UDP liveness probe observed. Total: every outcome,
/// including every failure, maps to exactly one port state.
pub fn classify_udp_probe(outcome: &UdpProbeOutcome) -> (r: PortState)
    ensures
        r == spec_classify_udp_probe(*outcome),
{
    match outcome {
        UdpProbeOutcome::Reply(bytes) => {
            if dns_wire_parses(bytes.as_slice()) {
                PortState::Open
            } else {
                PortState::Error
            }
        },
        UdpProbeOutcome::TimedOut => PortState::Closed,
        UdpProbeOutcome::IoError => PortState::Error,
    }
}

/// Whether a DNS query for this domain and record type can be encoded:
/// the record type is one rustdns knows, the domain normalises to a valid
/// name within the DNS length limits. A pure function of the two
/// strings; what exactly is accepted is defined by the DNS specification
/// and not restated here.
pub uninterp spec fn dns_query_encodable(domain: Seq<char>, qtype: Seq<char>) -> bool;

/// Relies on rustdns::Message::try_add_question and Message::to_vec to
/// build the wire bytes of a query with exactly one question, and on
/// rustdns::Type's string parsing for the record type. Whether encoding
/// succeeds is a pure function of the domain and record-type strings,
/// and it does succeed for the probe's fixed question, an `A` record for
/// `www.wikipedia.org`. Encoding prepends a fixed twelve-byte header
/// whose question count is one; the message id in its first two bytes is
/// drawn at random, so nothing more is promised of the bytes.
#[verifier::external_body]
fn encode_query_wire(query: &crate::api::DNSQuery) -> (r: Option<Vec<u8>>)
    ensures
        (r is Some <==> dns_query_encodable(query.query@, query.query_type@)),
        (query.query@ == "www.wikipedia.org"@ && query.query_type@ == "A"@ ==> r is Some),
        (r matches Some(b) ==> b@.len() >= 12),
        (r matches Some(b) ==> b@[4] == 0u8 && b@[5] == 1u8),
{
    let mut m = rustdns::Message::default();
    let qtype = match <rustdns::Type as std::str::FromStr>::from_str(query.query_type.as_str()) {
        Ok(t) => t,
        Err(_) => return None,
    };
    if m.try_add_question(query.query.as_str(), qtype, rustdns::Class::Internet).is_err() {
        return None;
    }
    m.to_vec().ok()
}

/// Build the wire bytes of the probe's DNS question: a standard query
/// with exactly one question, class IN, the record type the query names.
/// Succeeds exactly where the domain and record type can be encoded --
/// in particular always for the fixed health-check question -- and
/// returns `None` otherwise; the probe treats `None` as an error outcome
/// rather than sending anything.
pub fn encode_dns_query(query: &crate::api::DNSQuery) -> (r: Option<Vec<u8>>)
    ensures
        (r is Some <==> dns_query_encodable(query.query@, query.query_type@)),
        (query.query@ == "www.wikipedia.org"@ && query.query_type@ == "A"@ ==> r is Some),
        (r matches Some(b) ==> b@.len() >= 12),
        (r matches Some(b) ==> b@[4] == 0u8 && b@[5] == 1u8),
{
    encode_query_wire(query)
}

} // verus!
