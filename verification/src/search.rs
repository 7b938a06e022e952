//! The checks that keep a gateway's replies from pointing the client at a
//! host other than the one that answered.

use vstd::prelude::*;

use crate::errors::SearchError;
use crate::net::{lemma_ip_text_injective, IpAddress, SocketAddress};
use crate::uri::Url;

verus! {

/// A reply received from `from` claims to come from `addr`, and the two IP
/// addresses differ (ports are not compared).
pub open spec fn is_spoofed(from: SocketAddress, addr: SocketAddress) -> bool {
    from.spec_ip() != addr.spec_ip()
}

/// Checks that the address a reply claims (`addr`) has the IP address that
/// the reply actually came from (`from`).
pub fn check_is_ip_spoofed(from: &SocketAddress, addr: &SocketAddress) -> (res: Result<(), SearchError>)
    ensures
        res is Ok <==> !is_spoofed(*from, *addr),
        res is Ok <==> match (*from, *addr) {
            (SocketAddress::V4 { ip: a, .. }, SocketAddress::V4 { ip: b, .. }) => a == b,
            (SocketAddress::V6 { ip: a, .. }, SocketAddress::V6 { ip: b, .. }) => a == b,
            _ => false,
        },
        res is Err ==> (res matches Err(SearchError::SpoofedIp { src_ip, url_ip }) && src_ip
            == from.spec_ip() && url_ip == addr.spec_ip()),
{
    let src_ip = from.ip();
    let url_ip = addr.ip();
    if src_ip.same_as(&url_ip) {
        Ok(())
    } else {
        Err(SearchError::SpoofedIp { src_ip, url_ip })
    }
}

/// A URL (by its view) is accepted for a reply from `src_ip` when its host
/// is that address's text.
pub open spec fn url_accepted(src_ip: IpAddress, url: (Seq<char>, Option<Seq<char>>)) -> bool {
    url.1 == Some(src_ip.text())
}

/// The error that refuses a URL for a reply from `src_ip`: the URL's host
/// where it has one, else the URL itself.
pub open spec fn url_rejected_as(
    src_ip: IpAddress,
    url: (Seq<char>, Option<Seq<char>>),
    err: SearchError,
) -> bool {
    match url.1 {
        Some(h) => err matches SearchError::SpoofedUrl { src_ip: s, url_host } && s == src_ip
            && url_host@ == h,
        None => err matches SearchError::UrlMissingHost(u) && u@ == url,
    }
}

/// Checks that `url` names, as its host, the IP address `src_ip` that the
/// reply came from.
pub fn validate_url(src_ip: IpAddress, url: &Url) -> (res: Result<(), SearchError>)
    ensures
        res is Ok <==> url_accepted(src_ip, url@),
        res is Ok <==> url@.1 == Some(src_ip.text()),
        res matches Err(e) ==> url_rejected_as(src_ip, url@, e),
{
    match url.host_str() {
        Some(url_host) => {
            let expected = src_ip.to_string();
            if url_host.to_string() == expected {
                Ok(())
            } else {
                Err(SearchError::SpoofedUrl { src_ip, url_host: url_host.to_string() })
            }
        },
        None => Err(SearchError::UrlMissingHost(url.clone())),
    }
}

/// A reply that claims the address it came from is never taken for a
/// spoofed one.
pub proof fn lemma_own_address_not_spoofed(addr: SocketAddress)
    ensures
        !is_spoofed(addr, addr),
{
}

/// Whether a reply is spoofed does not depend on which of the two addresses
/// is the sender and which the claimed one.
pub proof fn lemma_spoofing_symmetric(a: SocketAddress, b: SocketAddress)
    ensures
        is_spoofed(a, b) == is_spoofed(b, a),
{
}

/// Ports play no part: two sockets on one IP address never spoof each other.
pub proof fn lemma_ports_ignored(a: SocketAddress, b: SocketAddress)
    requires
        a.spec_ip() == b.spec_ip(),
    ensures
        !is_spoofed(a, b),
{
}

/// A URL is accepted for at most one source address: the host comparison
/// tells addresses apart exactly.
pub proof fn lemma_url_accepted_for_one_source(
    a: IpAddress,
    b: IpAddress,
    url: (Seq<char>, Option<Seq<char>>),
)
    requires
        url_accepted(a, url),
        url_accepted(b, url),
    ensures
        a == b,
{
    lemma_ip_text_injective(a, b);
}

/// A reply is spoofed exactly when the two IP addresses differ in full: in
/// family, or in any octet or segment.
pub proof fn lemma_spoofed_iff_addresses_differ(from: SocketAddress, addr: SocketAddress)
    ensures
        is_spoofed(from, addr) <==> from.spec_ip() != addr.spec_ip(),
        is_spoofed(from, addr) <==> !match (from, addr) {
            (SocketAddress::V4 { ip: a, .. }, SocketAddress::V4 { ip: b, .. }) => forall|i: int|
                0 <= i < 4 ==> a[i] == b[i],
            (SocketAddress::V6 { ip: a, .. }, SocketAddress::V6 { ip: b, .. }) => forall|i: int|
                0 <= i < 8 ==> a[i] == b[i],
            _ => false,
        },
{
    broadcast use vstd::array::group_array_axioms;

    match (from, addr) {
        (SocketAddress::V4 { ip: a, .. }, SocketAddress::V4 { ip: b, .. }) => {
            if forall|i: int| 0 <= i < 4 ==> a[i] == b[i] {
                assert(a =~= b);
            }
        },
        (SocketAddress::V6 { ip: a, .. }, SocketAddress::V6 { ip: b, .. }) => {
            if forall|i: int| 0 <= i < 8 ==> a[i] == b[i] {
                assert(a =~= b);
            }
        },
        _ => {},
    }
}

} // verus!
