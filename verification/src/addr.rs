//! IPv4 socket addresses as plain values, and their text.

use crate::text::{append_decimal, decimal};
use vstd::prelude::*;
use vstd::string::*;

verus! {

/// An IPv4 address, by its four octets.
#[derive(Clone, Copy, Debug, PartialEq, Eq, Structural)]
pub struct Ipv4Addr {
    pub a: u8,
    pub b: u8,
    pub c: u8,
    pub d: u8,
}

/// An IPv4 address together with a port.
#[derive(Clone, Copy, Debug, PartialEq, Eq, Structural)]
pub struct SocketAddrV4 {
    pub ip: Ipv4Addr,
    pub port: u16,
}

/// The loopback address `127.0.0.1`, on which every fixture listens.
pub open spec fn local_ip() -> Ipv4Addr {
    Ipv4Addr { a: 127, b: 0, c: 0, d: 1 }
}

/// The loopback socket with the given port.
pub open spec fn local_socket(port: u16) -> SocketAddrV4 {
    SocketAddrV4 { ip: local_ip(), port }
}

impl Ipv4Addr {
    /// The address `a.b.c.d`.
    pub fn new(a: u8, b: u8, c: u8, d: u8) -> (ip: Ipv4Addr)
        ensures
            ip == (Ipv4Addr { a, b, c, d }),
    {
        Ipv4Addr { a, b, c, d }
    }

    /// The loopback address `127.0.0.1`.
    pub fn localhost() -> (ip: Ipv4Addr)
        ensures
            ip == local_ip(),
    {
        Ipv4Addr { a: 127, b: 0, c: 0, d: 1 }
    }

    /// The dotted-decimal text of the address.
    pub open spec fn text(self) -> Seq<char> {
        decimal(self.a as nat) + seq!['.'] + decimal(self.b as nat) + seq!['.'] + decimal(
            self.c as nat,
        ) + seq!['.'] + decimal(self.d as nat)
    }

    /// Appends the dotted-decimal text of the address to `out`.
    pub fn append_to(&self, out: &mut String)
        ensures
            final(out)@ == old(out)@ + self.text(),
    {
        proof {
            reveal_strlit(".");
        }
        assert("."@ =~= seq!['.']);
        append_decimal(out, self.a as u64);
        out.append(".");
        append_decimal(out, self.b as u64);
        out.append(".");
        append_decimal(out, self.c as u64);
        out.append(".");
        append_decimal(out, self.d as u64);
        assert(out@ =~= old(out)@ + self.text());
    }

    /// The dotted-decimal text of the address, as a string.
    pub fn to_text(&self) -> (s: String)
        ensures
            s@ == self.text(),
    {
        let mut s = String::new();
        self.append_to(&mut s);
        assert(s@ =~= self.text());
        s
    }
}

impl SocketAddrV4 {
    /// The socket of `ip` at `port`.
    pub fn new(ip: Ipv4Addr, port: u16) -> (socket: SocketAddrV4)
        ensures
            socket == (SocketAddrV4 { ip, port }),
    {
        SocketAddrV4 { ip, port }
    }

    /// The loopback socket at `port`.
    pub fn local(port: u16) -> (socket: SocketAddrV4)
        ensures
            socket == local_socket(port),
    {
        SocketAddrV4 { ip: Ipv4Addr::localhost(), port }
    }

    /// The address of the socket.
    pub fn ip(&self) -> (ip: Ipv4Addr)
        ensures
            ip == self.ip,
    {
        self.ip
    }

    /// The port of the socket.
    pub fn port(&self) -> (port: u16)
        ensures
            port == self.port,
    {
        self.port
    }

    /// The text `a.b.c.d:port` of the socket.
    pub open spec fn text(self) -> Seq<char> {
        self.ip.text() + seq![':'] + decimal(self.port as nat)
    }

    /// Appends the text `a.b.c.d:port` of the socket to `out`.
    pub fn append_to(&self, out: &mut String)
        ensures
            final(out)@ == old(out)@ + self.text(),
    {
        proof {
            reveal_strlit(":");
        }
        assert(":"@ =~= seq![':']);
        self.ip.append_to(out);
        out.append(":");
        append_decimal(out, self.port as u64);
        assert(out@ =~= old(out)@ + self.text());
    }

    /// The text `a.b.c.d:port` of the socket, as a string.
    pub fn to_text(&self) -> (s: String)
        ensures
            s@ == self.text(),
    {
        let mut s = String::new();
        self.append_to(&mut s);
        assert(s@ =~= self.text());
        s
    }
}

} // verus!
