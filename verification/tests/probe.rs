use blocky_tui::action::Action;
use blocky_tui::api::{classify_query_response, DNSQuery, DNSResponse};
use blocky_tui::app::{ApiQueryResponseState, CompositeStatus, App};
use blocky_tui::port_check::{
    classify_tcp_probe, classify_udp_probe, encode_dns_query, PortState, TcpProbeOutcome,
    UdpProbeOutcome,
};

#[test]
fn test_tcp_probe_classification() {
    assert_eq!(classify_tcp_probe(&TcpProbeOutcome::Connected), PortState::Open);
    assert_eq!(classify_tcp_probe(&TcpProbeOutcome::Refused), PortState::Closed);
    assert_eq!(classify_tcp_probe(&TcpProbeOutcome::Reset), PortState::Closed);
    assert_eq!(classify_tcp_probe(&TcpProbeOutcome::OtherError), PortState::Error);
}

#[test]
fn test_encode_dns_query_builds_one_question_packet() {
    let bytes = encode_dns_query(&DNSQuery::health_check()).unwrap();
    assert!(bytes.len() >= 12);
    // question count, big-endian, at offset 4: exactly one question
    assert_eq!(bytes[4], 0);
    assert_eq!(bytes[5], 1);
    // the packet carries the question beyond the fixed header
    assert!(bytes.len() > 12);
}

#[test]
fn test_encode_dns_query_rejects_unknown_record_type() {
    let q = DNSQuery {
        query: String::from("www.wikipedia.org"),
        query_type: String::from("NOT-A-RECORD-TYPE"),
    };
    assert_eq!(encode_dns_query(&q), None);
}

#[test]
fn test_udp_probe_parseable_reply_is_open() {
    // a well-formed DNS message: the bytes of a freshly encoded query
    let bytes = encode_dns_query(&DNSQuery::health_check()).unwrap();
    assert_eq!(classify_udp_probe(&UdpProbeOutcome::Reply(bytes)), PortState::Open);
}

#[test]
fn test_udp_probe_unparseable_reply_is_error() {
    let garbage = vec![0x13, 0x37, 0x00];
    assert_eq!(classify_udp_probe(&UdpProbeOutcome::Reply(garbage)), PortState::Error);
}

#[test]
fn test_udp_probe_timeout_is_closed() {
    assert_eq!(classify_udp_probe(&UdpProbeOutcome::TimedOut), PortState::Closed);
}

#[test]
fn test_udp_probe_socket_failure_is_error() {
    assert_eq!(classify_udp_probe(&UdpProbeOutcome::IoError), PortState::Error);
}

fn deliver_round(
    app: &mut App,
    api: ApiQueryResponseState,
    tcp: PortState,
    udp: PortState,
) -> CompositeStatus {
    app.update(&Action::SetDNSStatus(api));
    app.update(&Action::SetTCPPortState(tcp));
    app.update(&Action::SetUDPPortState(udp));
    app.dns_status.aggregate()
}

fn response_with_code(code: &str) -> DNSResponse {
    DNSResponse {
        reason: String::new(),
        response: String::new(),
        responseType: String::new(),
        returnCode: String::from(code),
    }
}

#[test]
fn test_scenario_api_ok_ports_open_is_healthy() {
    // API reachable and answering NOERROR, TCP connects, UDP replies in time
    let mut app = App::new().unwrap();
    let api = classify_query_response(&Some(response_with_code("NOERROR")));
    let tcp = classify_tcp_probe(&TcpProbeOutcome::Connected);
    let reply = encode_dns_query(&DNSQuery::health_check()).unwrap();
    let udp = classify_udp_probe(&UdpProbeOutcome::Reply(reply));

    assert_eq!(api, ApiQueryResponseState::Healthy);
    assert_eq!(tcp, PortState::Open);
    assert_eq!(udp, PortState::Open);
    assert_eq!(deliver_round(&mut app, api, tcp, udp), CompositeStatus::Healthy);
}

#[test]
fn test_scenario_everything_refused_is_unreachable() {
    // API connection refused, TCP connect refused, UDP probe times out
    let mut app = App::new().unwrap();
    let api = classify_query_response(&None);
    let tcp = classify_tcp_probe(&TcpProbeOutcome::Refused);
    let udp = classify_udp_probe(&UdpProbeOutcome::TimedOut);

    assert_eq!(api, ApiQueryResponseState::NoResponse);
    assert_eq!(tcp, PortState::Closed);
    assert_eq!(udp, PortState::Closed);
    assert_eq!(deliver_round(&mut app, api, tcp, udp), CompositeStatus::Unreachable);
}

#[test]
fn test_scenario_api_erroring_is_degraded() {
    // API reachable but answering REFUSED, both ports open
    let mut app = App::new().unwrap();
    let api = classify_query_response(&Some(response_with_code("REFUSED")));
    let tcp = classify_tcp_probe(&TcpProbeOutcome::Connected);
    let reply = encode_dns_query(&DNSQuery::health_check()).unwrap();
    let udp = classify_udp_probe(&UdpProbeOutcome::Reply(reply));

    assert_eq!(api, ApiQueryResponseState::Unhealthy);
    assert_eq!(tcp, PortState::Open);
    assert_eq!(udp, PortState::Open);
    assert_eq!(deliver_round(&mut app, api, tcp, udp), CompositeStatus::Degraded);
}
