use bitcoind::addr::{Ipv4Addr, SocketAddrV4};
use bitcoind::text::{decimal_string, join_path};

#[test]
fn test_local_ip() {
    assert_eq!("127.0.0.1", format!("{}", Ipv4Addr::localhost().to_text()));
    for port in [0u16, 1, 1024, 18443, 32768, 49152, 60999, 65535] {
        let socket = SocketAddrV4::new(Ipv4Addr::localhost(), port);
        assert_eq!(format!("127.0.0.1:{}", port), format!("{}", socket.to_text()));
    }
}

#[test]
fn decimal_of_every_port_is_what_std_prints() {
    for port in 0..=u16::MAX {
        assert_eq!(decimal_string(port as u64), format!("{}", port));
    }
}

#[test]
fn decimal_at_the_edges() {
    assert_eq!(decimal_string(0), "0");
    assert_eq!(decimal_string(9), "9");
    assert_eq!(decimal_string(10), "10");
    assert_eq!(decimal_string(18443), "18443");
    assert_eq!(decimal_string(1_000_000), "1000000");
    assert_eq!(decimal_string(u64::MAX), "18446744073709551615");
}

#[test]
fn socket_text_is_dotted_decimal_and_port() {
    let cases: [(u8, u8, u8, u8, u16); 5] = [
        (127, 0, 0, 1, 8332),
        (0, 0, 0, 0, 0),
        (255, 255, 255, 255, 65535),
        (10, 1, 20, 3, 18444),
        (192, 168, 100, 9, 9),
    ];
    for (a, b, c, d, port) in cases {
        let ip = Ipv4Addr::new(a, b, c, d);
        let socket = SocketAddrV4::new(ip, port);
        assert_eq!(ip.to_text(), format!("{}.{}.{}.{}", a, b, c, d));
        assert_eq!(socket.to_text(), format!("{}.{}.{}.{}:{}", a, b, c, d, port));
        assert_eq!(socket.ip(), ip);
        assert_eq!(socket.port(), port);
    }
    let socket = SocketAddrV4::new(Ipv4Addr::new(10, 1, 20, 3), 18444);
    assert_eq!(socket.to_text(), "10.1.20.3:18444");
}

#[test]
fn local_socket_is_loopback() {
    let socket = SocketAddrV4::local(44842);
    assert_eq!(socket.ip(), Ipv4Addr::new(127, 0, 0, 1));
    assert_eq!(socket.port(), 44842);
    assert_eq!(socket.to_text(), "127.0.0.1:44842");
}

#[test]
fn join_path_puts_one_separator() {
    assert_eq!(join_path("/tmp/node", "regtest"), "/tmp/node/regtest");
    assert_eq!(join_path("/tmp/node/", "regtest"), "/tmp/node/regtest");
    assert_eq!(join_path("", "regtest"), "regtest");
    assert_eq!(join_path("/", ".cookie"), "/.cookie");
    assert_eq!(join_path("/tmp/node", "/etc"), "/etc");
    assert_eq!(join_path("/tmp/node", ""), "/tmp/node/");
    assert_eq!(join_path("", ""), "");
}

#[test]
fn join_path_is_what_std_joins_on_unix() {
    let bases = ["", "/", "/tmp", "/tmp/", "rel", "rel/dir", "/tmp/\u{e9}t\u{e9}", "a//"];
    let names = ["", "regtest", ".cookie", "/abs", "x/y", "\u{fc}"];
    for base in bases {
        for name in names {
            let joined = std::path::Path::new(base).join(name);
            assert_eq!(join_path(base, name), joined.to_str().unwrap());
        }
    }
}
