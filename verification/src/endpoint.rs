//! Local ports for outgoing connections, and what a connect asks the
//! socket for.
use vstd::prelude::*;
use crate::address::{IpAddr, parse_remote_address, remote_address};
use crate::state::NetError;

verus! {

/// The port that follows `port`, wrapping from 65535 to 0.
pub open spec fn following_port(port: u16) -> u16 {
    ((port as int + 1) % 65536) as u16
}

/// The first local port, from a free-running hardware counter: the counter
/// modulo 65535.
pub fn start_endpoint_from(counter: u64) -> (r: u16)
    ensures
        r == counter % 65535,
        r < u16::MAX,
{
    (counter % 65535) as u16
}

/// Hands out local ports for outgoing connections, one after the other.
pub struct LocalEndpoints {
    next: u16,
}

impl LocalEndpoints {
    /// The port the next connect gets.
    pub closed spec fn next_port(self) -> u16 {
        self.next
    }

    /// Ports handed out from `first` on.
    pub fn starting_at(first: u16) -> (r: Self)
        ensures
            r.next_port() == first,
    {
        LocalEndpoints { next: first }
    }

    /// Starts the ports over from `first`.
    pub fn restart_at(&mut self, first: u16)
        ensures
            final(self).next_port() == first,
    {
        self.next = first;
    }

    /// Hands out the next port; the one after it follows, wrapping from
    /// 65535 to 0.
    pub fn take(&mut self) -> (port: u16)
        ensures
            port == old(self).next_port(),
            final(self).next_port() == following_port(port),
    {
        let port = self.next;
        self.next = port.wrapping_add(1);
        port
    }
}

/// Two connects in a row get consecutive local ports, modulo 2^16.
pub proof fn lemma_consecutive_ports(first: u16)
    ensures
        following_port(first) as int == (first as int + 1) % 65536,
        following_port(following_port(first)) as int == (first as int + 2) % 65536,
{
}

/// What a connect asks the socket for: the peer's address and port, and
/// the local port to connect from.
#[derive(Clone, Copy, Debug)]
pub struct ConnectTarget {
    pub remote: IpAddr,
    pub remote_port: u16,
    pub local_port: u16,
}

/// The connect request for a peer at `remote` (as parsing gave it) and
/// `port`: a failed parse is `Illegal` and takes no local port; otherwise
/// the request uses the next local port.
pub fn connect_target(remote: Result<IpAddr, NetError>, port: u16, ports: &mut LocalEndpoints) -> (r:
    Result<ConnectTarget, NetError>)
    ensures
        match remote {
            Ok(a) => r == Ok::<ConnectTarget, NetError>(
                ConnectTarget { remote: a, remote_port: port, local_port: old(ports).next_port() },
            ) && final(ports).next_port() == following_port(old(ports).next_port()),
            Err(e) => r == Err::<ConnectTarget, NetError>(e) && final(ports).next_port()
                == old(ports).next_port(),
        },
{
    match remote {
        Ok(a) => {
            let local_port = ports.take();
            Ok(ConnectTarget { remote: a, remote_port: port, local_port })
        },
        Err(e) => Err(e),
    }
}

/// The connect request for the peer that the bytes `ip` name (UTF-8 text
/// of an IPv4 or IPv6 address) at `port`. Bytes that name no address give
/// `Illegal` and take no local port.
pub fn prepare_connect(ip: &[u8], port: u16, ports: &mut LocalEndpoints) -> (r: Result<
    ConnectTarget,
    NetError,
>)
    ensures
        match remote_address(ip@) {
            Some(a) => r == Ok::<ConnectTarget, NetError>(
                ConnectTarget { remote: a, remote_port: port, local_port: old(ports).next_port() },
            ) && final(ports).next_port() == following_port(old(ports).next_port()),
            None => r == Err::<ConnectTarget, NetError>(NetError::Illegal) && final(ports).next_port()
                == old(ports).next_port(),
        },
{
    let remote = parse_remote_address(ip);
    connect_target(remote, port, ports)
}

} // verus!
