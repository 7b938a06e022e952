use igd::{IpAddress, SocketAddress};

fn v6_cases() -> Vec<([u16; 8], &'static str)> {
    vec![
        ([0, 0, 0, 0, 0, 0, 0, 0], "::"),
        ([0, 0, 0, 0, 0, 0, 0, 1], "::1"),
        ([1, 0, 0, 0, 0, 0, 0, 0], "1::"),
        ([0x2001, 0xdb8, 0, 0, 0, 0, 0, 1], "2001:db8::1"),
        ([0x2001, 0xdb8, 0, 0, 1, 0, 0, 1], "2001:db8::1:0:0:1"),
        ([0x2001, 0xdb8, 0, 1, 0, 0, 0, 1], "2001:db8:0:1::1"),
        ([0x2001, 0xdb8, 1, 2, 3, 4, 5, 6], "2001:db8:1:2:3:4:5:6"),
        ([0x2001, 0, 1, 2, 3, 4, 5, 6], "2001:0:1:2:3:4:5:6"),
        ([0xfe80, 0, 0, 0, 0x1ff, 0xfe23, 0x4567, 0x890a], "fe80::1ff:fe23:4567:890a"),
        ([0, 0, 0, 0, 0, 0xffff, 0xc000, 0x0280], "::ffff:192.0.2.128"),
        ([0, 0, 0, 0, 0, 0xffff, 0, 0], "::ffff:0.0.0.0"),
        ([0, 0, 0, 0, 0xffff, 0xffff, 0xc000, 0x0280], "::ffff:ffff:c000:280"),
        ([0, 0, 0, 0, 0, 0, 0xc000, 0x0280], "::c000:280"),
        ([0xffff, 0xffff, 0xffff, 0xffff, 0xffff, 0xffff, 0xffff, 0xffff], "ffff:ffff:ffff:ffff:ffff:ffff:ffff:ffff"),
        ([0, 1, 0, 1, 0, 1, 0, 1], "0:1:0:1:0:1:0:1"),
        ([1, 0, 0, 2, 0, 0, 3, 0], "1::2:0:0:3:0"),
        ([0xabcd, 0x0ef0, 0x00a0, 0x000b, 0, 0, 0, 0], "abcd:ef0:a0:b::"),
    ]
}

#[test]
fn ipv4_text_cases() {
    for (o, t) in [
        ([0u8, 0, 0, 0], "0.0.0.0"),
        ([127, 0, 0, 1], "127.0.0.1"),
        ([1, 2, 3, 4], "1.2.3.4"),
        ([192, 168, 1, 254], "192.168.1.254"),
        ([255, 255, 255, 255], "255.255.255.255"),
        ([10, 0, 100, 9], "10.0.100.9"),
    ] {
        assert_eq!(IpAddress::V4(o).to_string(), t);
    }
}

#[test]
fn ipv4_text_exact() {
    assert_eq!(IpAddress::V4([192, 168, 0, 1]).to_string(), "192.168.0.1");
    assert_eq!(IpAddress::V4([0, 0, 0, 0]).to_string(), "0.0.0.0");
}

#[test]
fn ipv6_text_cases() {
    for (s, t) in v6_cases() {
        assert_eq!(IpAddress::V6(s).to_string(), t, "{:?}", s);
    }
}

#[test]
fn ipv6_text_exact() {
    assert_eq!(IpAddress::V6([0; 8]).to_string(), "::");
    assert_eq!(IpAddress::V6([0, 0, 0, 0, 0, 0, 0, 1]).to_string(), "::1");
    assert_eq!(IpAddress::V6([0x2001, 0xdb8, 0, 0, 1, 0, 0, 1]).to_string(), "2001:db8::1:0:0:1");
    assert_eq!(IpAddress::V6([0x2001, 0xdb8, 0, 1, 1, 1, 1, 1]).to_string(), "2001:db8:0:1:1:1:1:1");
    assert_eq!(IpAddress::V6([0, 0, 0, 0, 0, 0xffff, 0xc000, 0x0280]).to_string(), "::ffff:192.0.2.128");
}

#[test]
fn socket_text_cases() {
    let v4 = SocketAddress::V4 { ip: [127, 0, 0, 1], port: 1900 };
    assert_eq!(v4.to_string(), "127.0.0.1:1900");
    for (s, t) in v6_cases() {
        let plain = SocketAddress::V6 { ip: s, port: 8080, flowinfo: 7, scope_id: 0 };
        assert_eq!(plain.to_string(), format!("[{t}]:8080"));
        let scoped = SocketAddress::V6 { ip: s, port: 8080, flowinfo: 7, scope_id: 3 };
        assert_eq!(scoped.to_string(), format!("[{t}%3]:8080"));
    }
}

#[test]
fn socket_ip_and_equality() {
    let a = SocketAddress::V4 { ip: [1, 2, 3, 4], port: 5 };
    assert_eq!(a.ip(), IpAddress::V4([1, 2, 3, 4]));
    assert!(a.ip().same_as(&IpAddress::V4([1, 2, 3, 4])));
    assert!(!a.ip().same_as(&IpAddress::V4([1, 2, 3, 5])));
    assert!(!IpAddress::V4([0; 4]).same_as(&IpAddress::V6([0; 8])));
    let b = SocketAddress::V6 { ip: [0, 0, 0, 0, 0, 0, 0, 1], port: 5, flowinfo: 0, scope_id: 0 };
    assert_eq!(b.ip(), IpAddress::V6([0, 0, 0, 0, 0, 0, 0, 1]));
}
