//! The control-API client: validation of the configured base URL, the
//! exact endpoint addresses, and the classification of what the API
//! answered. The HTTP requests themselves are made outside the library;
//! they hand back plain values (a status code, a decoded response body)
//! which the functions here interpret.

use vstd::prelude::*;
use vstd::string::StringExecFns;

use crate::app::{ActionState, ApiQueryResponseState};

verus! {

/// One DNS question to be asked through the control API and over UDP.
#[derive(Debug, PartialEq, Eq, Clone)]
pub struct DNSQuery {
    pub query: String,
    pub query_type: String,
}

impl DNSQuery {
    /// The fixed well-known question every health probe round asks: an
    /// `A` record lookup that any working resolver can answer.
    pub fn health_check() -> (r: DNSQuery)
        ensures
            r.query@ == "www.wikipedia.org"@,
            r.query_type@ == "A"@,
    {
        DNSQuery { query: String::from_str("www.wikipedia.org"), query_type: String::from_str("A") }
    }
}

/// The character for a single decimal digit.
pub open spec fn spec_digit_char(d: nat) -> char {
    if d == 0 {
        '0'
    } else if d == 1 {
        '1'
    } else if d == 2 {
        '2'
    } else if d == 3 {
        '3'
    } else if d == 4 {
        '4'
    } else if d == 5 {
        '5'
    } else if d == 6 {
        '6'
    } else if d == 7 {
        '7'
    } else if d == 8 {
        '8'
    } else {
        '9'
    }
}

/// The decimal notation of a number, most significant digit first, with
/// no leading zero except for the number zero itself.
pub open spec fn spec_decimal(n: nat) -> Seq<char>
    decreases n,
{
    if n < 10 {
        seq![spec_digit_char(n)]
    } else {
        spec_decimal(n / 10) + seq![spec_digit_char(n % 10)]
    }
}

/// The string of one decimal digit.
fn digit_str(d: u16) -> (r: &'static str)
    requires
        d < 10,
    ensures
        r@ == seq![spec_digit_char(d as nat)],
{
    proof {
        reveal_strlit("0");
        reveal_strlit("1");
        reveal_strlit("2");
        reveal_strlit("3");
        reveal_strlit("4");
        reveal_strlit("5");
        reveal_strlit("6");
        reveal_strlit("7");
        reveal_strlit("8");
        reveal_strlit("9");
        assert("0"@ =~= seq!['0']);
        assert("1"@ =~= seq!['1']);
        assert("2"@ =~= seq!['2']);
        assert("3"@ =~= seq!['3']);
        assert("4"@ =~= seq!['4']);
        assert("5"@ =~= seq!['5']);
        assert("6"@ =~= seq!['6']);
        assert("7"@ =~= seq!['7']);
        assert("8"@ =~= seq!['8']);
        assert("9"@ =~= seq!['9']);
    }
    match d {
        0 => "0",
        1 => "1",
        2 => "2",
        3 => "3",
        4 => "4",
        5 => "5",
        6 => "6",
        7 => "7",
        8 => "8",
        _ => "9",
    }
}

/// The decimal notation of a port number.
pub fn u16_decimal(n: u16) -> (r: String)
    ensures
        r@ == spec_decimal(n as nat),
    decreases n,
{
    if n < 10 {
        String::from_str(digit_str(n))
    } else {
        let mut s = u16_decimal(n / 10);
        s.append(digit_str(n % 10));
        s
    }
}

/// The decoded body of the control API's query endpoint.
#[allow(non_snake_case)]
#[derive(Debug, PartialEq, Eq, Clone)]
pub struct DNSResponse {
    pub reason: String,
    pub response: String,
    pub responseType: String,
    pub returnCode: String,
}

/// What the URL parser reports of a base URL: the (lowercased) scheme and
/// the host, if the URL has one.
#[derive(Debug, PartialEq, Eq, Clone)]
pub struct UrlParts {
    pub scheme: String,
    pub host: Option<String>,
}

/// The parts of a parsed URL, as they appear in specifications.
pub struct UrlView {
    pub scheme: Seq<char>,
    pub host: Option<Seq<char>>,
}

impl View for UrlParts {
    type V = UrlView;

    open spec fn view(&self) -> UrlView {
        UrlView {
            scheme: self.scheme@,
            host: match self.host {
                Some(h) => Some(h@),
                None => None,
            },
        }
    }
}

/// The scheme and host that URL parsing yields for a string, or `None`
/// where the string is not a valid URL. Parsing is a pure function of the
/// string; what it yields is defined by the URL standard and not restated
/// here.
pub uninterp spec fn url_parse_spec(s: Seq<char>) -> Option<UrlView>;

/// Relies on url::Url::parse, and on Url::scheme and Url::host_str for
/// reading the parsed URL: parsing is deterministic, the scheme comes out
/// lowercased, and the host is `None` for host-less URLs.
#[verifier::external_body]
fn parse_base_url(s: &str) -> (r: Option<UrlParts>)
    ensures
        (r matches Some(p) ==> url_parse_spec(s@) == Some(p@)),
        (r is None ==> url_parse_spec(s@) is None),
{
    match url::Url::parse(s) {
        Ok(u) => Some(
            UrlParts {
                scheme: u.scheme().to_owned(),
                host: match u.host_str() {
                    Some(h) => Some(h.to_owned()),
                    None => None,
                },
            },
        ),
        Err(_) => None,
    }
}

/// Why a base URL was rejected at startup.
#[derive(Debug, PartialEq, Eq, Clone, Copy, Structural)]
pub enum ApiClientError {
    /// The string is not a valid URL.
    InvalidBaseUrl,
    /// The URL's scheme is neither `http` nor `https`.
    UnsupportedScheme,
    /// The URL has no host, so no API port can be attached to it.
    CannotSetPort,
}

/// The validated base address of the control API: an `http` or `https`
/// scheme and a non-empty host.
#[derive(Debug, PartialEq, Eq, Clone)]
pub struct ApiUrl {
    pub scheme: String,
    pub host: String,
}

/// Configuration of the control API: its validated base URL, the port its
/// HTTP interface listens on, and the port its DNS listener uses.
#[derive(Debug, PartialEq, Eq, Clone)]
pub struct ApiClient {
    pub url: ApiUrl,
    pub dns_port: u16,
    pub api_port: u16,
}

/// Whether a parsed scheme is acceptable for the control API.
pub open spec fn spec_scheme_ok(scheme: Seq<char>) -> bool {
    scheme == "http"@ || scheme == "https"@ || scheme.len() == 0
}

/// Whether a parsed URL carries a host that a port can be attached to.
pub open spec fn spec_host_ok(host: Option<Seq<char>>) -> bool {
    host matches Some(h) && h.len() > 0
}

impl ApiClient {
    /// A well-formed client: the invariant `new` establishes.
    pub open spec fn wf(self) -> bool {
        &&& (self.url.scheme@ == "http"@ || self.url.scheme@ == "https"@)
        &&& self.url.host@.len() > 0
    }

    /// Validate a base URL and build the client configuration for it.
    ///
    /// The URL must parse, its scheme must be `http` or `https` (a URL
    /// that parses without a scheme would default to `https`), and it
    /// must have a host to attach the API port to. Each violation is
    /// reported as its own error, checked in that order.
    pub fn new(base_url: &str, api_port: u16, dns_port: u16) -> (r: Result<ApiClient, ApiClientError>)
        ensures
            (r == Err::<ApiClient, ApiClientError>(ApiClientError::InvalidBaseUrl) <==> url_parse_spec(
                base_url@,
            ) is None),
            (r == Err::<ApiClient, ApiClientError>(ApiClientError::UnsupportedScheme) <==> (
            url_parse_spec(base_url@) matches Some(u) && !spec_scheme_ok(u.scheme))),
            (r == Err::<ApiClient, ApiClientError>(ApiClientError::CannotSetPort) <==> (
            url_parse_spec(base_url@) matches Some(u) && spec_scheme_ok(u.scheme)
                && !spec_host_ok(u.host))),
            (r matches Ok(c) ==> (url_parse_spec(base_url@) matches Some(u) && spec_scheme_ok(
                u.scheme,
            ) && spec_host_ok(u.host) && c.url.host@ == u.host->0 && c.url.scheme@ == (
            if u.scheme.len() == 0 {
                "https"@
            } else {
                u.scheme
            }) && c.api_port == api_port && c.dns_port == dns_port && c.wf())),
            (r is Ok <==> (url_parse_spec(base_url@) matches Some(u) && spec_scheme_ok(u.scheme)
                && spec_host_ok(u.host))),
    {
        match parse_base_url(base_url) {
            None => Err(ApiClientError::InvalidBaseUrl),
            Some(parts) => {
                let http = String::from_str("http");
                let https = String::from_str("https");
                let scheme_empty = parts.scheme.as_str().is_empty();
                if !(parts.scheme == http || parts.scheme == https || scheme_empty) {
                    Err(ApiClientError::UnsupportedScheme)
                } else {
                    match parts.host {
                        None => Err(ApiClientError::CannotSetPort),
                        Some(host) => {
                            if host.as_str().is_empty() {
                                Err(ApiClientError::CannotSetPort)
                            } else {
                                let scheme = if scheme_empty {
                                    https
                                } else {
                                    parts.scheme
                                };
                                Ok(ApiClient { url: ApiUrl { scheme, host }, dns_port, api_port })
                            }
                        },
                    }
                }
            },
        }
    }

    /// The serialized base URL the client talks to:
    /// `scheme://host:api_port/`.
    pub open spec fn spec_url_string(self) -> Seq<char> {
        self.url.scheme@ + "://"@ + self.url.host@ + ":"@ + spec_decimal(self.api_port as nat)
            + "/"@
    }

    /// Serialize the base URL, always naming the API port explicitly.
    pub fn url_string(&self) -> (r: String)
        ensures
            r@ == self.spec_url_string(),
    {
        let mut s = self.url.scheme.clone();
        s.append("://");
        s.append(self.url.host.as_str());
        s.append(":");
        let port = u16_decimal(self.api_port);
        s.append(port.as_str());
        s.append("/");
        proof {
            assert(s@ =~= self.spec_url_string());
        }
        s
    }

    /// The address of the endpoint that answers one DNS query.
    pub fn query_endpoint(&self) -> (r: String)
        ensures
            r@ == self.spec_url_string() + "api/query"@,
    {
        let mut s = self.url_string();
        s.append("api/query");
        s
    }

    /// The address of the endpoint that refreshes the blocking lists.
    pub fn refresh_lists_endpoint(&self) -> (r: String)
        ensures
            r@ == self.spec_url_string() + "api/lists/refresh"@,
    {
        let mut s = self.url_string();
        s.append("api/lists/refresh");
        s
    }

    /// The address of the endpoint that flushes the DNS cache.
    pub fn cache_flush_endpoint(&self) -> (r: String)
        ensures
            r@ == self.spec_url_string() + "api/cache/flush"@,
    {
        let mut s = self.url_string();
        s.append("api/cache/flush");
        s
    }
}

/// How one answer of the query endpoint is read: a decoded response with
/// return code `NOERROR` is healthy, any other decoded response is an
/// application-level failure, and no decoded response at all (transport
/// failure, timeout, undecodable body) means the API did not answer.
pub open spec fn spec_classify_query_response(resp: Option<DNSResponse>) -> ApiQueryResponseState {
    match resp {
        Some(d) => if d.returnCode@ == "NOERROR"@ {
            ApiQueryResponseState::Healthy
        } else {
            ApiQueryResponseState::Unhealthy
        },
        None => ApiQueryResponseState::NoResponse,
    }
}

/// Classify what the query endpoint answered. Total: every outcome of the
/// request, including every failure, maps to exactly one state.
pub fn classify_query_response(resp: &Option<DNSResponse>) -> (r: ApiQueryResponseState)
    ensures
        r == spec_classify_query_response(*resp),
{
    match resp {
        Some(d) => {
            if d.returnCode == String::from_str("NOERROR") {
                ApiQueryResponseState::Healthy
            } else {
                ApiQueryResponseState::Unhealthy
            }
        },
        None => ApiQueryResponseState::NoResponse,
    }
}

/// How a command endpoint's answer is read: any 2xx status code is
/// success; any other status code, and any transport failure (no status
/// code at all), is failure. A command never resolves back to `Waiting`.
pub open spec fn spec_classify_command_status(status: Option<u16>) -> ActionState {
    match status {
        Some(code) => if 200 <= code < 300 {
            ActionState::Success
        } else {
            ActionState::Failure
        },
        None => ActionState::Failure,
    }
}

/// Classify the HTTP status a command endpoint answered with, `None`
/// standing for a transport failure. Total, and never `Waiting`: a
/// dispatched command always resolves.
pub fn classify_command_status(status: &Option<u16>) -> (r: ActionState)
    ensures
        r == spec_classify_command_status(*status),
        r != ActionState::Waiting,
{
    match status {
        Some(code) => {
            if 200 <= *code && *code < 300 {
                ActionState::Success
            } else {
                ActionState::Failure
            }
        },
        None => ActionState::Failure,
    }
}

} // verus!
