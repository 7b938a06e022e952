use igd::aio::search::{accept_reply, finish_search, request_target, require_ipv4};
use igd::{check_is_ip_spoofed, validate_url, IpAddress, SearchError, SocketAddress, Url};

const LOCALHOST: [u8; 4] = [127, 0, 0, 1];

#[test]
fn ip_spoofing_in_broadcast_response() {
    let from = SocketAddress::V4 { ip: LOCALHOST, port: 40000 };
    let claimed = SocketAddress::V4 { ip: [1, 2, 3, 4], port: 5 };
    match check_is_ip_spoofed(&from, &claimed) {
        Err(SearchError::SpoofedIp { src_ip, url_ip }) => {
            assert_eq!(src_ip, IpAddress::V4(LOCALHOST));
            assert_eq!(url_ip, IpAddress::V4([1, 2, 3, 4]));
        }
        other => panic!("Unexpected result: {other:?}"),
    }
}

#[test]
fn same_ip_other_port_is_not_spoofed() {
    let from = SocketAddress::V4 { ip: LOCALHOST, port: 40000 };
    let claimed = SocketAddress::V4 { ip: LOCALHOST, port: 80 };
    assert!(check_is_ip_spoofed(&from, &claimed).is_ok());
    assert!(check_is_ip_spoofed(&claimed, &from).is_ok());
}

#[test]
fn mixed_families_are_spoofed() {
    let v4 = SocketAddress::V4 { ip: [0, 0, 0, 1], port: 1 };
    let v6 = SocketAddress::V6 { ip: [0, 0, 0, 0, 0, 0, 0, 1], port: 1, flowinfo: 0, scope_id: 0 };
    assert!(matches!(check_is_ip_spoofed(&v4, &v6), Err(SearchError::SpoofedIp { .. })));
    assert!(matches!(check_is_ip_spoofed(&v6, &v4), Err(SearchError::SpoofedIp { .. })));
    assert!(check_is_ip_spoofed(&v6, &v6).is_ok());
}

#[test]
fn url_with_source_host_is_valid() {
    let url = Url::parse("http://1.2.3.4:5/rootDesc.xml").unwrap();
    assert_eq!(url.host_str(), Some("1.2.3.4"));
    assert!(validate_url(IpAddress::V4([1, 2, 3, 4]), &url).is_ok());
}

#[test]
fn url_with_other_host_is_spoofed() {
    let url = Url::parse("http://example.com/x").unwrap();
    match validate_url(IpAddress::V4(LOCALHOST), &url) {
        Err(SearchError::SpoofedUrl { src_ip, url_host }) => {
            assert_eq!(src_ip, IpAddress::V4(LOCALHOST));
            assert_eq!(url_host, "example.com");
        }
        other => panic!("Unexpected result: {other:?}"),
    }
}

#[test]
fn url_without_host_is_refused() {
    let url = Url::parse("data:text/plain,Stuff").unwrap();
    assert_eq!(url.host_str(), None);
    match validate_url(IpAddress::V4(LOCALHOST), &url) {
        Err(SearchError::UrlMissingHost(u)) => assert_eq!(u.as_str(), "data:text/plain,Stuff"),
        other => panic!("Unexpected result: {other:?}"),
    }
}

#[test]
fn ipv6_source_never_matches_a_bracketed_host() {
    let url = Url::parse("http://[::1]:80/x").unwrap();
    assert_eq!(url.host_str(), Some("[::1]"));
    assert!(matches!(
        validate_url(IpAddress::V6([0, 0, 0, 0, 0, 0, 0, 1]), &url),
        Err(SearchError::SpoofedUrl { .. })
    ));
}

#[test]
fn ip_spoofing_in_getxml_body() {
    let addr = SocketAddress::V4 { ip: LOCALHOST, port: 49152 };
    let result = request_target(&addr, ":aaa@example.com/exec_cmd?cmd=touch%20%2ftmp%2frce");
    match result {
        Err(SearchError::SpoofedUrl { src_ip, url_host }) => {
            assert_eq!(src_ip, IpAddress::V4(LOCALHOST));
            assert_eq!(url_host, "example.com");
        }
        Err(other) => panic!("Unexpected result: {other:?}"),
        Ok(t) => panic!("Unexpected target: {}", t.uri),
    }
}

#[test]
fn ip_spoofing_in_getxml_body_control_url() {
    let addr = SocketAddress::V4 { ip: LOCALHOST, port: 49152 };
    let result = request_target(&addr, ":aaa@example2.com/exec_cmd?cmd=touch%20%2ftmp%2frce");
    match result {
        Err(SearchError::SpoofedUrl { src_ip, url_host }) => {
            assert_eq!(src_ip, IpAddress::V4(LOCALHOST));
            assert_eq!(url_host, "example2.com");
        }
        Err(other) => panic!("Unexpected result: {other:?}"),
        Ok(t) => panic!("Unexpected target: {}", t.uri),
    }
}

#[test]
fn honest_request_target() {
    let addr = SocketAddress::V4 { ip: LOCALHOST, port: 49152 };
    let t = request_target(&addr, "/igdupnp/control/WANIPConn1").unwrap();
    assert_eq!(t.authority, "127.0.0.1:49152");
    assert_eq!(t.uri, "http://127.0.0.1:49152/igdupnp/control/WANIPConn1");
    assert_eq!(t.url.as_str(), "http://127.0.0.1:49152/igdupnp/control/WANIPConn1");
}

#[test]
fn path_refused_by_http() {
    let addr = SocketAddress::V4 { ip: LOCALHOST, port: 49152 };
    assert!(matches!(request_target(&addr, "/a b"), Err(SearchError::InvalidHttpUri(_))));
}

#[test]
fn spoofed_reply_refused_before_any_url() {
    let from = SocketAddress::V4 { ip: LOCALHOST, port: 40000 };
    let claimed = SocketAddress::V4 { ip: [1, 2, 3, 4], port: 5 };
    match accept_reply(&from, &claimed, "/a b") {
        Err(SearchError::SpoofedIp { src_ip, url_ip }) => {
            assert_eq!(src_ip, IpAddress::V4(LOCALHOST));
            assert_eq!(url_ip, IpAddress::V4([1, 2, 3, 4]));
        }
        Err(other) => panic!("Unexpected result: {other:?}"),
        Ok(t) => panic!("Unexpected target: {}", t.uri),
    }
}

#[test]
fn honest_reply_gives_description_target() {
    let from = SocketAddress::V4 { ip: LOCALHOST, port: 40000 };
    let claimed = SocketAddress::V4 { ip: LOCALHOST, port: 5000 };
    let t = accept_reply(&from, &claimed, "/rootDesc.xml").unwrap();
    assert_eq!(t.authority, "127.0.0.1:5000");
    assert_eq!(t.url.as_str(), "http://127.0.0.1:5000/rootDesc.xml");
    match accept_reply(&from, &claimed, ":aaa@example.com/x") {
        Err(SearchError::SpoofedUrl { url_host, .. }) => assert_eq!(url_host, "example.com"),
        Err(other) => panic!("Unexpected result: {other:?}"),
        Ok(t) => panic!("Unexpected target: {}", t.uri),
    }
}

#[test]
fn search_finishes_on_ipv4_gateway_url() {
    let addr = SocketAddress::V4 { ip: [192, 168, 1, 1], port: 5000 };
    assert_eq!(finish_search(&addr, "http://192.168.1.1:5000/ctl/IPConn").unwrap(), addr);
    match finish_search(&addr, "http://10.0.0.1:5000/ctl/IPConn") {
        Err(SearchError::SpoofedUrl { src_ip, url_host }) => {
            assert_eq!(src_ip, IpAddress::V4([192, 168, 1, 1]));
            assert_eq!(url_host, "10.0.0.1");
        }
        other => panic!("Unexpected result: {other:?}"),
    }
    assert!(matches!(finish_search(&addr, "not a url"), Err(SearchError::InvalidUri(_))));
    let v6 = SocketAddress::V6 { ip: [0, 0, 0, 0, 0, 0, 0, 1], port: 1, flowinfo: 0, scope_id: 0 };
    assert!(matches!(finish_search(&v6, "http://[::1]:1/"), Err(SearchError::InvalidResponse)));
}

#[test]
fn unparsable_request_target() {
    assert!(matches!(request_target(&addr_for_invalid(), ":99999/x"), Err(SearchError::InvalidHttpUri(_))));
    let addr = SocketAddress::V4 { ip: [1, 2, 3, 4], port: 5 };
    assert!(matches!(request_target(&addr, "99999"), Err(SearchError::InvalidUri(_))));
}

#[test]
fn gateway_must_answer_over_ipv4() {
    let v4 = SocketAddress::V4 { ip: [1, 2, 3, 4], port: 5 };
    assert_eq!(require_ipv4(&v4).unwrap(), v4);
    let v6 = SocketAddress::V6 { ip: [0, 0, 0, 0, 0, 0, 0, 1], port: 1, flowinfo: 0, scope_id: 0 };
    assert!(matches!(require_ipv4(&v6), Err(SearchError::InvalidResponse)));
}

fn addr_for_invalid() -> SocketAddress {
    SocketAddress::V4 { ip: [1, 2, 3, 4], port: 5 }
}
