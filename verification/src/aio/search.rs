//! The decisions around the HTTP requests that discovery makes: which URL to
//! ask, and which answers to refuse.

use vstd::prelude::*;

use crate::errors::SearchError;
use crate::net::SocketAddress;
use crate::search::{check_is_ip_spoofed, is_spoofed, url_accepted, url_rejected_as, validate_url};
use crate::text::{dec_text, push_decimal};
use crate::uri::{parse_http_uri, parsed_http_uri, parsed_url, Url};

verus! {

/// The most bytes read from the body of an HTTP response.
pub const MAX_HTTP_RESPONSE_SIZE: usize = 256 * 1024;

/// The most bytes read from one reply to the search broadcast.
pub const MAX_RESPONSE_SIZE: usize = 1500;

/// The canonical reason phrase of an HTTP status code, as
/// `http::StatusCode::canonical_reason` gives it.
pub uninterp spec fn http_canonical_reason(code: u16) -> Option<Seq<char>>;

/// Makes the status code with `http::StatusCode::from_u16` and reads its
/// reason phrase with `canonical_reason`. Claimed: the result is
/// `http_canonical_reason(code)`.
#[verifier::external_body]
fn canonical_reason(code: u16) -> (res: Option<String>)
    requires
        100 <= code <= 999,
    ensures
        res.deep_view() == http_canonical_reason(code),
{
    match http::StatusCode::from_u16(code) {
        Ok(status) => match status.canonical_reason() {
            Some(reason) => Some(reason.to_string()),
            None => None,
        },
        Err(_) => None,
    }
}

/// A status code as `http::StatusCode` writes it: the number, a space, and
/// the reason phrase (`<unknown status code>` where there is none).
pub open spec fn status_text(code: u16) -> Seq<char> {
    dec_text(code as nat) + seq![' '] + match http_canonical_reason(code) {
        Some(reason) => reason,
        None => "<unknown status code>"@,
    }
}

/// Accepts a response status of 200 (OK) and refuses any other.
pub fn check_response_status(code: u16) -> (res: Result<(), SearchError>)
    requires
        100 <= code <= 999,
    ensures
        res is Ok <==> code == 200,
        res matches Err(e) ==> e matches SearchError::HttpError(m) && m@ == "unexpected status: "@
            + status_text(code),
{
    if code == 200 {
        Ok(())
    } else {
        let mut m = "unexpected status: ".to_string();
        push_decimal(&mut m, code as u32);
        m.append(" ");
        match canonical_reason(code) {
            Some(reason) => m.append(reason.as_str()),
            None => m.append("<unknown status code>"),
        }
        proof {
            reveal_strlit(" ");
            assert(m@ =~= "unexpected status: "@ + status_text(code));
        }
        Err(SearchError::HttpError(m))
    }
}

/// Where an HTTP request goes: the `Host` header's value, the request's URI
/// as `http` writes it, and that URI parsed as a URL.
pub struct RequestTarget {
    pub authority: String,
    pub uri: String,
    pub url: Url,
}

/// The URL text of `path` on the HTTP server at `addr`.
pub open spec fn target_text(addr: SocketAddress, path: Seq<char>) -> Seq<char> {
    "http://"@ + addr.text() + path
}

/// The target of a request for `path` to the gateway at `addr`. The text
/// `http://{addr}{path}` must parse as an `http` URI, whose text must parse
/// as a URL, and that URL must name `addr`'s IP address as its host.
pub fn request_target(addr: &SocketAddress, path: &str) -> (res: Result<RequestTarget, SearchError>)
    ensures
        match parsed_http_uri(target_text(*addr, path@)) {
            None => res matches Err(e) && e is InvalidHttpUri,
            Some(uri) => match parsed_url(uri) {
                None => res matches Err(e) && e is InvalidUri,
                Some(u) => if url_accepted(addr.spec_ip(), u) {
                    res matches Ok(t) && t.authority@ == addr.text() && t.uri@ == uri && t.url@ == u
                } else {
                    res matches Err(e) && url_rejected_as(addr.spec_ip(), u, e)
                },
            },
        },
{
    let authority = addr.to_string();
    let mut text = "http://".to_string();
    text.append(authority.as_str());
    text.append(path);
    let uri = match parse_http_uri(text.as_str()) {
        Ok(uri) => uri,
        Err(e) => {
            return Err(SearchError::InvalidHttpUri(e));
        },
    };
    let url = match Url::parse(uri.as_str()) {
        Ok(url) => url,
        Err(e) => {
            return Err(SearchError::InvalidUri(e));
        },
    };
    match validate_url(addr.ip(), &url) {
        Ok(()) => Ok(RequestTarget { authority, uri, url }),
        Err(e) => Err(e),
    }
}

/// A reply to the search broadcast, received from `from`, claims the gateway
/// at `claimed` with its description at `root_url`. A reply whose claimed IP
/// address is not the sender's is refused before any URL is made; otherwise
/// the result is the target that fetches the description.
pub fn accept_reply(from: &SocketAddress, claimed: &SocketAddress, root_url: &str) -> (res: Result<
    RequestTarget,
    SearchError,
>)
    ensures
        is_spoofed(*from, *claimed) ==> (res matches Err(SearchError::SpoofedIp { src_ip, url_ip })
            && src_ip == from.spec_ip() && url_ip == claimed.spec_ip()),
        !is_spoofed(*from, *claimed) ==> match parsed_http_uri(target_text(*claimed, root_url@)) {
            None => res matches Err(e) && e is InvalidHttpUri,
            Some(uri) => match parsed_url(uri) {
                None => res matches Err(e) && e is InvalidUri,
                Some(u) => if url_accepted(claimed.spec_ip(), u) {
                    res matches Ok(t) && t.authority@ == claimed.text() && t.uri@ == uri && t.url@
                        == u
                } else {
                    res matches Err(e) && url_rejected_as(claimed.spec_ip(), u, e)
                },
            },
        },
{
    match check_is_ip_spoofed(from, claimed) {
        Ok(()) => request_target(claimed, root_url),
        Err(e) => Err(e),
    }
}

/// The last checks of a search: the gateway must answer from an IPv4
/// address, and the gateway's URL (`gateway_url`) must parse and name that
/// address as its host. The result is the gateway's address.
pub fn finish_search(addr: &SocketAddress, gateway_url: &str) -> (res: Result<SocketAddress, SearchError>)
    ensures
        !(addr is V4) ==> (res matches Err(e) && e is InvalidResponse),
        addr is V4 ==> match parsed_url(gateway_url@) {
            None => res matches Err(e) && e is InvalidUri,
            Some(u) => if url_accepted(addr.spec_ip(), u) {
                res matches Ok(a) && a == *addr
            } else {
                res matches Err(e) && url_rejected_as(addr.spec_ip(), u, e)
            },
        },
{
    let v4 = match require_ipv4(addr) {
        Ok(a) => a,
        Err(e) => {
            return Err(e);
        },
    };
    let url = match Url::parse(gateway_url) {
        Ok(url) => url,
        Err(e) => {
            return Err(SearchError::InvalidUri(e));
        },
    };
    match validate_url(v4.ip(), &url) {
        Ok(()) => Ok(v4),
        Err(e) => Err(e),
    }
}

/// The gateway must answer from an IPv4 address: an IPv6 one is refused as
/// an invalid response.
pub fn require_ipv4(addr: &SocketAddress) -> (res: Result<SocketAddress, SearchError>)
    ensures
        res is Ok <==> addr is V4,
        res matches Ok(a) ==> a == *addr,
        res matches Err(e) ==> e is InvalidResponse,
{
    match addr {
        SocketAddress::V4 { ip, port } => Ok(SocketAddress::V4 { ip: *ip, port: *port }),
        SocketAddress::V6 { .. } => Err(SearchError::InvalidResponse),
    }
}

} // verus!
