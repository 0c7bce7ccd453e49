//! How to reach a node, and how a node is asked to take part in the
//! peer-to-peer network.

use crate::addr::{local_ip, SocketAddrV4};
use crate::text::{append_decimal, decimal, join, join_path, starts_with};
use vstd::prelude::*;
use vstd::string::*;

verus! {

/// Enum to specify p2p settings.
#[derive(Clone, Copy, Debug, PartialEq, Eq, Structural)]
pub enum P2P {
    /// The node opens no p2p port and works in standalone mode.
    No,
    /// The node opens a p2p port.
    Yes,
    /// The node opens a p2p port and also connects to the given socket.
    Connect(SocketAddrV4),
}

/// The arguments that put a node into the mode `p2p`, listening on `port`
/// where it listens at all.
pub open spec fn peer_args(p2p: P2P, port: u16) -> Seq<Seq<char>> {
    match p2p {
        P2P::No => seq!["-listen=0"@],
        P2P::Yes => seq!["-port="@ + decimal(port as nat)],
        P2P::Connect(other) => seq![
            "-port="@ + decimal(port as nat),
            "-connect="@ + other.text(),
        ],
    }
}

/// The file, below the data directory, in which a regtest node leaves the
/// credentials of its RPC interface.
pub open spec fn cookie_path(datadir: Seq<char>) -> Seq<char> {
    join(join(datadir, "regtest"@), ".cookie"@)
}

impl P2P {
    /// Whether a node in this mode listens for peers, and so needs a port.
    pub open spec fn listens(self) -> bool {
        !(self is No)
    }

    /// Whether a node in this mode listens for peers, and so needs a port.
    pub fn needs_port(&self) -> (b: bool)
        ensures
            b == self.listens(),
    {
        match self {
            P2P::No => false,
            _ => true,
        }
    }

    /// The arguments that put a node into this mode, listening on `port`
    /// where it listens at all.
    pub fn args(&self, port: u16) -> (args: Vec<String>)
        ensures
            args.deep_view() == peer_args(*self, port),
    {
        let mut args: Vec<String> = Vec::new();
        match self {
            P2P::No => {
                args.push("-listen=0".to_owned());
            },
            P2P::Yes => {
                let mut listen = "-port=".to_owned();
                append_decimal(&mut listen, port as u64);
                args.push(listen);
            },
            P2P::Connect(other) => {
                let mut listen = "-port=".to_owned();
                append_decimal(&mut listen, port as u64);
                args.push(listen);
                let mut connect = "-connect=".to_owned();
                other.append_to(&mut connect);
                args.push(connect);
            },
        }
        assert(args.deep_view() =~= peer_args(*self, port));
        args
    }
}

/// Contains all the information to connect to a node.
#[derive(Debug, PartialEq, Eq)]
pub struct Config {
    /// Path to the node datadir.
    pub datadir: String,
    /// Path to the node cookie file, useful for other clients to connect to
    /// the node.
    pub cookie_file: String,
    /// Socket of the rpc of the node, useful for other clients to connect to
    /// the node.
    pub rpc_socket: SocketAddrV4,
    /// p2p socket, is some if the node started with p2p enabled.
    pub p2p_socket: Option<SocketAddrV4>,
}

/// What a [`Config`] holds, with its paths as sequences of characters.
pub struct ConfigView {
    pub datadir: Seq<char>,
    pub cookie_file: Seq<char>,
    pub rpc_socket: SocketAddrV4,
    pub p2p_socket: Option<SocketAddrV4>,
}

impl View for Config {
    type V = ConfigView;

    open spec fn view(&self) -> ConfigView {
        ConfigView {
            datadir: self.datadir@,
            cookie_file: self.cookie_file@,
            rpc_socket: self.rpc_socket,
            p2p_socket: self.p2p_socket,
        }
    }
}

/// The configuration of a node with the data directory `datadir` that serves
/// RPC on `rpc_port` and, in a mode that listens, peers on `p2p_port`.
pub open spec fn config_of(datadir: Seq<char>, rpc_port: u16, p2p: P2P, p2p_port: u16)
    -> ConfigView {
    ConfigView {
        datadir,
        cookie_file: cookie_path(datadir),
        rpc_socket: SocketAddrV4 { ip: local_ip(), port: rpc_port },
        p2p_socket: if p2p.listens() {
            Some(SocketAddrV4 { ip: local_ip(), port: p2p_port })
        } else {
            None
        },
    }
}

impl ConfigView {
    /// What holds of the configuration of every node: the cookie file lies
    /// where a regtest node puts it, and both sockets are loopback sockets.
    pub open spec fn wf(self) -> bool {
        &&& self.cookie_file == cookie_path(self.datadir)
        &&& self.rpc_socket.ip == local_ip()
        &&& self.p2p_socket matches Some(socket) ==> socket.ip == local_ip()
    }

    /// The URL of the RPC interface, with its scheme.
    pub open spec fn rpc_url(self) -> Seq<char> {
        "http://"@ + self.rpc_socket.text()
    }
}

impl Clone for Config {
    fn clone(&self) -> (copy: Config)
        ensures
            copy@ == self@,
    {
        Config {
            datadir: self.datadir.clone(),
            cookie_file: self.cookie_file.clone(),
            rpc_socket: self.rpc_socket,
            p2p_socket: self.p2p_socket,
        }
    }
}

impl Config {
    /// The configuration of a node with the data directory `datadir` that
    /// serves RPC on `rpc_port` and, in a mode that listens, peers on
    /// `p2p_port`.
    pub fn new(datadir: String, rpc_port: u16, p2p: P2P, p2p_port: u16) -> (config: Config)
        ensures
            config@ == config_of(datadir@, rpc_port, p2p, p2p_port),
            config@.wf(),
    {
        let below = join_path(datadir.as_str(), "regtest");
        let cookie_file = join_path(below.as_str(), ".cookie");
        let p2p_socket = if p2p.needs_port() {
            Some(SocketAddrV4::local(p2p_port))
        } else {
            None
        };
        Config { datadir, cookie_file, rpc_socket: SocketAddrV4::local(rpc_port), p2p_socket }
    }

    /// The URL of the RPC interface, with its scheme: `http://127.0.0.1:18443`
    /// for a node that serves RPC on port 18443.
    pub fn rpc_url(&self) -> (url: String)
        ensures
            url@ == self@.rpc_url(),
    {
        let mut url = "http://".to_owned();
        self.rpc_socket.append_to(&mut url);
        url
    }

    /// The mode in which another node connects to this one: `None` where this
    /// node does not listen for peers.
    pub fn p2p_connect(&self) -> (p2p: Option<P2P>)
        ensures
            p2p == match self.p2p_socket {
                Some(socket) => Some(P2P::Connect(socket)),
                None => None,
            },
    {
        match self.p2p_socket {
            Some(socket) => Some(P2P::Connect(socket)),
            None => None,
        }
    }
}

/// The cookie file of a node lies below its data directory, whatever the
/// directory is called.
pub proof fn lemma_cookie_below_datadir(datadir: Seq<char>)
    ensures
        starts_with(cookie_path(datadir), datadir),
        cookie_path(datadir).len() > datadir.len(),
{
    reveal_strlit("regtest");
    reveal_strlit(".cookie");
    let below = join(datadir, "regtest"@);
    assert("regtest"@[0] == 'r');
    assert(".cookie"@[0] == '.');
    assert(below.len() >= datadir.len() + 7);
    assert(below.subrange(0, datadir.len() as int) =~= datadir);
    assert(below.last() == 't');
    let path = cookie_path(datadir);
    assert(path =~= below + seq!['/'] + ".cookie"@);
    assert(path.subrange(0, datadir.len() as int) =~= datadir);
}

} // verus!
