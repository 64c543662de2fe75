//! The etcd endpoints discovery connects to: each configured URL is used as written when
//! it names an IP address or no host, or replaced by the addresses its host resolves to.
use vstd::prelude::*;
use crate::text::decimal_text;
use crate::text::decimal;

verus! {

/// The parts of a URI that endpoint resolution reads.
pub struct UriParts {
    pub scheme: Option<String>,
    pub host: Option<String>,
    pub port: Option<u16>,
}

/// (scheme, host, port) of the URI that `axum::http::Uri` reads from `s`, if it reads one.
pub uninterp spec fn parsed_uri(s: Seq<char>) -> Option<(Option<Seq<char>>, Option<Seq<char>>, Option<u16>)>;

pub open spec fn opt_chars(o: Option<String>) -> Option<Seq<char>> {
    match o {
        Some(s) => Some(s@),
        None => None,
    }
}

/// Parses `s` with `<axum::http::Uri as FromStr>::from_str` and reads `scheme_str`,
/// `host` and `port_u16`. The contract names the result and claims no more.
#[verifier::external_body]
fn parse_uri(s: &str) -> (r: Option<UriParts>)
    ensures
        match r {
            Some(p) => parsed_uri(s@) == Some((opt_chars(p.scheme), opt_chars(p.host), p.port)),
            None => parsed_uri(s@) is None,
        },
{
    match s.parse::<axum::http::Uri>() {
        Ok(uri) => Some(UriParts {
            scheme: uri.scheme_str().map(|x| x.to_string()),
            host: uri.host().map(|x| x.to_string()),
            port: uri.port_u16(),
        }),
        Err(_) => None,
    }
}

/// Why no channel to etcd could be built.
#[derive(Debug)]
pub enum EndpointError {
    /// The endpoint does not read as a URI
    InvalidUri(String),
    /// No endpoint was left to connect to
    NoValidEndpoints,
}

/// Whether `s` reads as an IPv4 or IPv6 address (`core::net::IpAddr`'s `FromStr`).
pub uninterp spec fn ip_literal(s: Seq<char>) -> bool;

/// Whether `<core::net::IpAddr as FromStr>::from_str` accepts `s`. The contract names the
/// result and claims no more.
#[verifier::external_body]
fn is_ip_literal(s: &str) -> (r: bool)
    ensures
        r == ip_literal(s@),
{
    s.parse::<core::net::IpAddr>().is_ok()
}

/// What to do with one configured endpoint.
pub enum EndpointPlan {
    /// Use the endpoint as written (it names no host, or its host is an IP address)
    AsIs(String),
    /// It names the host `host`, not an IP address: resolve it and connect to each address
    /// with `scheme` and `port`
    Host { host: String, scheme: String, port: u16 },
}

/// The plan for an endpoint: an unreadable URI is an error; one that names no host, or
/// whose host reads as an IP address, is used as written; otherwise its host is resolved,
/// the scheme defaulting to `http` and the port to 2379.
pub fn plan_endpoint(endpoint: &str) -> (r: Result<EndpointPlan, EndpointError>)
    ensures
        match parsed_uri(endpoint@) {
            None => r matches Err(EndpointError::InvalidUri(e)) && e@ == endpoint@,
            Some(parts) => match parts.1 {
                None => r matches Ok(EndpointPlan::AsIs(e)) && e@ == endpoint@,
                Some(h) => if ip_literal(h) {
                    r matches Ok(EndpointPlan::AsIs(e)) && e@ == endpoint@
                } else {
                    r matches Ok(EndpointPlan::Host { host, scheme, port }) && host@ == h && scheme@ == match parts.0 {
                        Some(s) => s,
                        None => "http"@,
                    } && port == match parts.2 {
                        Some(p) => p,
                        None => 2379u16,
                    }
                },
            },
        },
{
    let parts = match parse_uri(endpoint) {
        Some(p) => p,
        None => {
            return Err(EndpointError::InvalidUri(endpoint.to_string()));
        },
    };
    match parts.host {
        None => Ok(EndpointPlan::AsIs(endpoint.to_string())),
        Some(host) => {
            if is_ip_literal(host.as_str()) {
                return Ok(EndpointPlan::AsIs(endpoint.to_string()));
            }
            let scheme = match parts.scheme {
                Some(s) => s,
                None => String::from_str("http"),
            };
            let port = match parts.port {
                Some(p) => p,
                None => 2379,
            };
            Ok(EndpointPlan::Host { host, scheme, port })
        },
    }
}

/// An address a host resolved to: its text, and whether it is IPv6.
pub struct ResolvedIp {
    pub text: String,
    pub is_v6: bool,
}

/// `{scheme}://{ip}:{port}`, the address in brackets when IPv6.
pub open spec fn resolved_uri_text(scheme: Seq<char>, ip: Seq<char>, is_v6: bool, port: u16) -> Seq<char> {
    if is_v6 {
        scheme + "://["@ + ip + "]:"@ + decimal_text(port as nat)
    } else {
        scheme + "://"@ + ip + ":"@ + decimal_text(port as nat)
    }
}

/// The endpoints a host lookup yields: one per resolved address, in order; when the
/// lookup failed, the endpoint as written.
pub fn resolved_endpoints(endpoint: &str, scheme: &str, port: u16, lookup: Option<Vec<ResolvedIp>>) -> (r: Vec<String>)
    ensures
        match lookup {
            None => r@.len() == 1 && r@[0]@ == endpoint@,
            Some(ips) => r@.len() == ips@.len() && forall|i: int|
                0 <= i < ips@.len() ==> (#[trigger] r@[i])@ == resolved_uri_text(scheme@, ips@[i].text@, ips@[i].is_v6, port),
        },
{
    let mut out: Vec<String> = Vec::new();
    match lookup {
        None => {
            out.push(endpoint.to_string());
        },
        Some(ips) => {
            let port_text = decimal(port as u64);
            let mut i: usize = 0;
            while i < ips.len()
                invariant
                    i <= ips.len(),
                    port_text@ == decimal_text(port as nat),
                    out@.len() == i,
                    forall|k: int| 0 <= k < i ==> (#[trigger] out@[k])@ == resolved_uri_text(scheme@, ips@[k].text@, ips@[k].is_v6, port),
                decreases ips.len() - i,
            {
                let ip = &ips[i];
                let uri = if ip.is_v6 {
                    String::from_str(scheme).concat("://[").concat(ip.text.as_str()).concat("]:").concat(port_text.as_str())
                } else {
                    String::from_str(scheme).concat("://").concat(ip.text.as_str()).concat(":").concat(port_text.as_str())
                };
                out.push(uri);
                i = i + 1;
            }
        },
    }
    out
}

/// The endpoints to balance over; an empty list is an error.
pub fn checked_endpoints(endpoints: Vec<String>) -> (r: Result<Vec<String>, EndpointError>)
    ensures
        endpoints@.len() == 0 ==> r == Err::<Vec<String>, EndpointError>(EndpointError::NoValidEndpoints),
        endpoints@.len() > 0 ==> r == Ok::<Vec<String>, EndpointError>(endpoints),
{
    if endpoints.len() == 0 {
        Err(EndpointError::NoValidEndpoints)
    } else {
        Ok(endpoints)
    }
}

/// A resolved endpoint keeps the configured scheme and port: it is the scheme, `://`,
/// the address (bracketed when IPv6), `:` and the port's decimal digits.
pub proof fn lemma_resolved_uri_keeps_scheme_and_port(scheme: Seq<char>, ip: Seq<char>, is_v6: bool, port: u16)
    ensures
        (scheme + "://"@).is_prefix_of(resolved_uri_text(scheme, ip, is_v6, port)),
        resolved_uri_text(scheme, ip, is_v6, port).len() == scheme.len() + 3 + ip.len() + (if is_v6 { 2int } else { 0int })
            + 1 + decimal_text(port as nat).len(),
        resolved_uri_text(scheme, ip, is_v6, port).skip(
            resolved_uri_text(scheme, ip, is_v6, port).len() - decimal_text(port as nat).len() - 1,
        ) == seq![':'] + decimal_text(port as nat),
        resolved_uri_text(scheme, ip, is_v6, port).subrange(
            scheme.len() + 3 + (if is_v6 { 1int } else { 0int }),
            scheme.len() + 3 + (if is_v6 { 1int } else { 0int }) + ip.len(),
        ) == ip,
{
    reveal_strlit("://");
    reveal_strlit("://[");
    reveal_strlit("]:");
    reveal_strlit(":");
    let t = resolved_uri_text(scheme, ip, is_v6, port);
    let d = decimal_text(port as nat);
    if is_v6 {
        assert(t == scheme + "://["@ + ip + "]:"@ + d);
    } else {
        assert(t == scheme + "://"@ + ip + ":"@ + d);
    }
    assert((scheme + "://"@) =~= t.subrange(0, scheme.len() + 3int));
    assert(t.skip(t.len() - d.len() - 1) =~= seq![':'] + d);
    assert(t.subrange(
        scheme.len() + 3 + (if is_v6 { 1int } else { 0int }),
        scheme.len() + 3 + (if is_v6 { 1int } else { 0int }) + ip.len(),
    ) =~= ip);
}

} // verus!
