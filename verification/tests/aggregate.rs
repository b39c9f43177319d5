use blocky_tui::app::{ApiQueryResponseState, CompositeStatus, DNSStatus};
use blocky_tui::port_check::PortState;

fn status(
    query: Option<ApiQueryResponseState>,
    tcp: Option<PortState>,
    udp: Option<PortState>,
) -> DNSStatus {
    DNSStatus {
        query_response_state: query,
        tcp_port_state: tcp,
        udp_port_state: udp,
    }
}

#[test]
fn test_aggregate_is_total_over_all_set_unset_combinations() {
    let queries = [None, Some(ApiQueryResponseState::Healthy)];
    let ports = [None, Some(PortState::Open)];
    for q in queries {
        for t in ports {
            for u in ports {
                let verdict = status(q, t, u).aggregate();
                assert!(matches!(
                    verdict,
                    CompositeStatus::NotYetQueried
                        | CompositeStatus::Healthy
                        | CompositeStatus::Unreachable
                        | CompositeStatus::Degraded
                ));
            }
        }
    }
}

#[test]
fn test_aggregate_all_unset_is_not_yet_queried() {
    assert_eq!(status(None, None, None).aggregate(), CompositeStatus::NotYetQueried);
}

#[test]
fn test_aggregate_healthy_combination() {
    let s = status(
        Some(ApiQueryResponseState::Healthy),
        Some(PortState::Open),
        Some(PortState::Open),
    );
    assert_eq!(s.aggregate(), CompositeStatus::Healthy);
}

#[test]
fn test_aggregate_unreachable_combination() {
    let s = status(
        Some(ApiQueryResponseState::NoResponse),
        Some(PortState::Closed),
        Some(PortState::Closed),
    );
    assert_eq!(s.aggregate(), CompositeStatus::Unreachable);
}

#[test]
fn test_aggregate_changing_one_healthy_field_degrades() {
    let healthy = status(
        Some(ApiQueryResponseState::Healthy),
        Some(PortState::Open),
        Some(PortState::Open),
    );
    assert_eq!(healthy.aggregate(), CompositeStatus::Healthy);

    let mut s = healthy.clone();
    s.query_response_state = Some(ApiQueryResponseState::Unhealthy);
    assert_eq!(s.aggregate(), CompositeStatus::Degraded);

    let mut s = healthy.clone();
    s.tcp_port_state = Some(PortState::Closed);
    assert_eq!(s.aggregate(), CompositeStatus::Degraded);

    let mut s = healthy.clone();
    s.udp_port_state = Some(PortState::Error);
    assert_eq!(s.aggregate(), CompositeStatus::Degraded);

    let mut s = healthy.clone();
    s.udp_port_state = None;
    assert_eq!(s.aggregate(), CompositeStatus::Degraded);
}

#[test]
fn test_aggregate_partial_states_are_degraded() {
    let s = status(None, Some(PortState::Open), None);
    assert_eq!(s.aggregate(), CompositeStatus::Degraded);
    let s = status(Some(ApiQueryResponseState::NoResponse), None, None);
    assert_eq!(s.aggregate(), CompositeStatus::Degraded);
    let s = status(
        Some(ApiQueryResponseState::NoResponse),
        Some(PortState::Closed),
        Some(PortState::Open),
    );
    assert_eq!(s.aggregate(), CompositeStatus::Degraded);
}
