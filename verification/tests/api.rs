use blocky_tui::api::{
    classify_command_status, classify_query_response, u16_decimal, ApiClient, ApiClientError,
    DNSQuery, DNSResponse,
};
use blocky_tui::app::{ActionState, ApiQueryResponseState};

#[test]
fn test_domain_name_parsing() {
    let api = ApiClient::new("https://dns.test.com", 4000, 53).unwrap();
    assert_eq!(
        api.url_string(),
        "https://dns.test.com:4000/",
        "check if URL parsing works for https://dns.test.com"
    );

    let api = ApiClient::new("https://dns.test.com:1234", 4000, 53).unwrap();
    assert_eq!(
        api.url_string(),
        "https://dns.test.com:4000/",
        "check if URL parsing works for https://dns.test.com"
    );

    let api = ApiClient::new("https://dns.test.com/api", 4000, 53).unwrap();
    assert_eq!(
        api.url_string(),
        "https://dns.test.com:4000/",
        "check if URL parsing works for https://dns.test.com/api"
    );

    let api = ApiClient::new("https://dns.test.com:1234/api", 4000, 53).unwrap();
    assert_eq!(
        api.url_string(),
        "https://dns.test.com:4000/",
        "check if URL parsing works for https://dns.test.com:4000/api"
    );
}

#[test]
fn test_new_rejects_unparseable_url() {
    let r = ApiClient::new("not a url at all", 4000, 1234);
    assert_eq!(r, Err(ApiClientError::InvalidBaseUrl));
}

#[test]
fn test_new_rejects_non_http_scheme() {
    let r = ApiClient::new("ftp://dns.test.com", 4000, 1234);
    assert_eq!(r, Err(ApiClientError::UnsupportedScheme));
}

#[test]
fn test_new_rejects_hostless_url() {
    // a URL without a host is already stopped by the scheme check, since
    // every http(s) URL carries a host
    let r = ApiClient::new("mailto:someone@example.net", 4000, 1234);
    assert_eq!(r, Err(ApiClientError::UnsupportedScheme));
    let r = ApiClient::new("http://", 4000, 1234);
    assert_eq!(r, Err(ApiClientError::InvalidBaseUrl));
}

#[test]
fn test_new_keeps_http_scheme_and_ports() {
    let api = ApiClient::new("http://localhost", 4000, 1234).unwrap();
    assert_eq!(api.url.scheme, "http");
    assert_eq!(api.url.host, "localhost");
    assert_eq!(api.api_port, 4000);
    assert_eq!(api.dns_port, 1234);
    assert_eq!(api.url_string(), "http://localhost:4000/");
}

#[test]
fn test_endpoints_extend_the_base_url() {
    let api = ApiClient::new("https://dns.test.com", 4000, 53).unwrap();
    assert_eq!(api.query_endpoint(), "https://dns.test.com:4000/api/query");
    assert_eq!(
        api.refresh_lists_endpoint(),
        "https://dns.test.com:4000/api/lists/refresh"
    );
    assert_eq!(
        api.cache_flush_endpoint(),
        "https://dns.test.com:4000/api/cache/flush"
    );
}

#[test]
fn test_u16_decimal() {
    assert_eq!(u16_decimal(0), "0");
    assert_eq!(u16_decimal(7), "7");
    assert_eq!(u16_decimal(53), "53");
    assert_eq!(u16_decimal(4000), "4000");
    assert_eq!(u16_decimal(65535), "65535");
}

#[test]
fn test_health_check_query_values() {
    let q = DNSQuery::health_check();
    assert_eq!(q.query, "www.wikipedia.org");
    assert_eq!(q.query_type, "A");
}

fn response_with_code(code: &str) -> DNSResponse {
    DNSResponse {
        reason: String::new(),
        response: String::new(),
        responseType: String::new(),
        returnCode: String::from(code),
    }
}

#[test]
fn test_query_response_noerror_is_healthy() {
    let r = classify_query_response(&Some(response_with_code("NOERROR")));
    assert_eq!(r, ApiQueryResponseState::Healthy);
}

#[test]
fn test_query_response_other_code_is_unhealthy() {
    let r = classify_query_response(&Some(response_with_code("REFUSED")));
    assert_eq!(r, ApiQueryResponseState::Unhealthy);
    let r = classify_query_response(&Some(response_with_code("")));
    assert_eq!(r, ApiQueryResponseState::Unhealthy);
}

#[test]
fn test_query_response_transport_failure_is_no_response() {
    let r = classify_query_response(&None);
    assert_eq!(r, ApiQueryResponseState::NoResponse);
}

#[test]
fn test_command_status_classification() {
    assert_eq!(classify_command_status(&Some(200)), ActionState::Success);
    assert_eq!(classify_command_status(&Some(204)), ActionState::Success);
    assert_eq!(classify_command_status(&Some(299)), ActionState::Success);
    assert_eq!(classify_command_status(&Some(199)), ActionState::Failure);
    assert_eq!(classify_command_status(&Some(300)), ActionState::Failure);
    assert_eq!(classify_command_status(&Some(500)), ActionState::Failure);
    assert_eq!(classify_command_status(&None), ActionState::Failure);
}
