use bitcoind::addr::{Ipv4Addr, SocketAddrV4};
use bitcoind::config::{Config, P2P};

#[test]
fn standalone_node_does_not_listen() {
    assert!(!P2P::No.needs_port());
    assert_eq!(P2P::No.args(18444), vec!["-listen=0".to_string()]);
}

#[test]
fn listening_node_gets_its_port() {
    assert!(P2P::Yes.needs_port());
    assert_eq!(P2P::Yes.args(18444), vec!["-port=18444".to_string()]);
    assert_eq!(P2P::Yes.args(0), vec!["-port=0".to_string()]);
}

#[test]
fn connecting_node_gets_its_port_and_its_peer() {
    let peer = SocketAddrV4::new(Ipv4Addr::new(10, 0, 2, 15), 38333);
    let mode = P2P::Connect(peer);
    assert!(mode.needs_port());
    assert_eq!(
        mode.args(65535),
        vec!["-port=65535".to_string(), "-connect=10.0.2.15:38333".to_string()]
    );
}

#[test]
fn config_of_a_standalone_node() {
    let config = Config::new("/tmp/.tmpAbCdEf".to_string(), 18443, P2P::No, 0);
    assert_eq!(config.datadir, "/tmp/.tmpAbCdEf");
    assert_eq!(config.cookie_file, "/tmp/.tmpAbCdEf/regtest/.cookie");
    assert_eq!(config.rpc_socket, SocketAddrV4::local(18443));
    assert_eq!(config.p2p_socket, None);
    assert_eq!(config.rpc_url(), "http://127.0.0.1:18443");
    assert_eq!(config.p2p_connect(), None);
}

#[test]
fn config_of_a_listening_node() {
    let config = Config::new("/data/".to_string(), 1, P2P::Yes, 2);
    assert_eq!(config.cookie_file, "/data/regtest/.cookie");
    assert_eq!(config.rpc_socket.port(), 1);
    assert_eq!(config.p2p_socket, Some(SocketAddrV4::local(2)));
    assert_eq!(config.p2p_connect(), Some(P2P::Connect(SocketAddrV4::local(2))));
    assert_eq!(config.rpc_url(), "http://127.0.0.1:1");
}

#[test]
fn cookie_file_lies_below_the_datadir() {
    for datadir in ["", "/", "/tmp/x", "/tmp/x/", "relative"] {
        let config = Config::new(datadir.to_string(), 8332, P2P::No, 0);
        assert!(config.cookie_file.starts_with(datadir));
        assert!(config.cookie_file.ends_with("regtest/.cookie"));
        let joined = std::path::Path::new(datadir).join("regtest").join(".cookie");
        assert_eq!(config.cookie_file, joined.to_str().unwrap());
    }
}

#[test]
fn connecting_node_listens_on_loopback() {
    let peer = SocketAddrV4::new(Ipv4Addr::new(192, 168, 1, 7), 18444);
    let config = Config::new("/d".to_string(), 5000, P2P::Connect(peer), 5001);
    assert_eq!(config.p2p_socket, Some(SocketAddrV4::local(5001)));
    assert_ne!(config.p2p_socket.unwrap().port(), config.rpc_socket.port());
}
