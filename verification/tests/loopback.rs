use std::collections::BTreeMap;
use std::sync::Arc;
use std::task::{Wake, Waker};

use hermit_sys::address::IpAddr;
use hermit_sys::endpoint::ConnectTarget;
use hermit_sys::network::poll_again;
use hermit_sys::tcp::{
    keep_alive_and_peer, poll_accept, poll_close, poll_connect, poll_drain, poll_read,
    poll_shutdown, poll_write, start_connect, start_listen, CloseStage,
};
use smoltcp::iface::{EthernetInterface, EthernetInterfaceBuilder, NeighborCache};
use smoltcp::phy::Loopback;
use smoltcp::socket::{SocketHandle, SocketSet, TcpSocket, TcpSocketBuffer, TcpState};
use smoltcp::time::Instant;
use smoltcp::wire::{EthernetAddress, IpAddress, IpCidr};

struct Quiet;

impl Wake for Quiet {
    fn wake(self: Arc<Self>) {}
}

struct Net {
    iface: EthernetInterface<'static, Loopback>,
    sockets: SocketSet<'static>,
    now: i64,
    server: SocketHandle,
    client: SocketHandle,
    waker: Waker,
}

impl Net {
    fn new() -> Net {
        let iface = EthernetInterfaceBuilder::new(Loopback::new())
            .ethernet_addr(EthernetAddress::default())
            .neighbor_cache(NeighborCache::new(BTreeMap::new()))
            .ip_addrs(vec![IpCidr::new(IpAddress::v4(127, 0, 0, 1), 8)])
            .finalize();
        let mut sockets = SocketSet::new(vec![]);
        let server = sockets.add(TcpSocket::new(
            TcpSocketBuffer::new(vec![0; 1024]),
            TcpSocketBuffer::new(vec![0; 1024]),
        ));
        let client = sockets.add(TcpSocket::new(
            TcpSocketBuffer::new(vec![0; 1024]),
            TcpSocketBuffer::new(vec![0; 1024]),
        ));
        Net { iface, sockets, now: 0, server, client, waker: Waker::from(Arc::new(Quiet)) }
    }

    fn pump(&mut self) {
        for _ in 0..10 {
            let t = Instant::from_millis(self.now);
            while poll_again(self.iface.poll(&mut self.sockets, t)) {}
            self.now += 10;
        }
    }

    fn on<R>(&mut self, h: SocketHandle, f: impl FnOnce(&mut TcpSocket<'static>, &Waker) -> R) -> R {
        let waker = self.waker.clone();
        let mut s = self.sockets.get::<TcpSocket>(h);
        f(&mut s, &waker)
    }
}

fn connected() -> Net {
    let mut net = Net::new();
    let server = net.server;
    let client = net.client;
    assert_eq!(net.on(server, |s, _| start_listen(s, 1234)), Ok(()));
    let target = ConnectTarget { remote: IpAddr::Ipv4([127, 0, 0, 1]), remote_port: 1234, local_port: 65000 };
    assert_eq!(net.on(client, |s, _| start_connect(s, target)), Ok(()));
    assert_eq!(net.on(client, |s, w| poll_connect(s, w)), None);
    net.pump();
    assert_eq!(net.on(client, |s, w| poll_connect(s, w)), Some(Ok(())));
    assert_eq!(net.on(server, |s, w| poll_accept(s, w)), Some(Ok(())));
    net
}

#[test]
fn data_goes_from_client_to_server() {
    let mut net = connected();
    let (server, client) = (net.server, net.client);
    assert_eq!(net.on(client, |s, w| poll_write(s, b"hello", w)), Some(Ok(5)));
    net.pump();
    let mut buf = [0u8; 16];
    assert_eq!(net.on(server, |s, w| poll_read(s, &mut buf, w)), Some(Ok(5)));
    assert_eq!(&buf[..5], b"hello");
    assert_eq!(&buf[5..], &[0u8; 11]);
    // nothing more has arrived: the read waits and leaves the buffer alone
    let mut again = [1u8; 4];
    assert_eq!(net.on(server, |s, w| poll_read(s, &mut again, w)), None);
    assert_eq!(again, [1u8; 4]);
    // an empty buffer is read at once
    let mut empty = [0u8; 0];
    assert_eq!(net.on(server, |s, w| poll_read(s, &mut empty, w)), Some(Ok(0)));
}

#[test]
fn read_takes_no_more_than_the_buffer() {
    let mut net = connected();
    let (server, client) = (net.server, net.client);
    assert_eq!(net.on(client, |s, w| poll_write(s, b"0123456789", w)), Some(Ok(10)));
    net.pump();
    let mut small = [0u8; 4];
    assert_eq!(net.on(server, |s, w| poll_read(s, &mut small, w)), Some(Ok(4)));
    assert_eq!(&small, b"0123");
    let mut rest = [0u8; 16];
    assert_eq!(net.on(server, |s, w| poll_read(s, &mut rest, w)), Some(Ok(6)));
    assert_eq!(&rest[..6], b"456789");
}

#[test]
fn accepted_peer_is_the_client() {
    let mut net = connected();
    let server = net.server;
    let (addr, port) = net.on(server, |s, _| keep_alive_and_peer(s));
    assert!(matches!(addr, IpAddr::Ipv4([127, 0, 0, 1])));
    assert_eq!(port, 65000);
}

#[test]
fn close_drains_then_shuts_down() {
    let mut net = connected();
    let (server, client) = (net.server, net.client);
    assert_eq!(net.on(client, |s, w| poll_write(s, b"bye", w)), Some(Ok(3)));
    // the queued bytes hold the close back
    assert_eq!(net.on(client, |s, w| poll_drain(s, w)), None);
    net.pump();
    assert_eq!(net.on(client, |s, w| poll_drain(s, w)), Some(Ok(())));
    assert_eq!(net.on(client, |s, w| poll_shutdown(s, w)), Some(Ok(())));
    net.pump();
    // the closed side refuses further reads and writes
    assert_eq!(
        net.on(client, |s, w| poll_write(s, b"x", w)),
        Some(Err(hermit_sys::state::NetError::Illegal))
    );
    // the server still gets the bytes sent before the close
    let mut buf = [0u8; 8];
    assert_eq!(net.on(server, |s, w| poll_read(s, &mut buf, w)), Some(Ok(3)));
    assert_eq!(&buf[..3], b"bye");
    // the peer has closed: a write takes nothing
    assert_eq!(net.on(server, |s, _| s.state()), TcpState::CloseWait);
    assert_eq!(net.on(server, |s, w| poll_write(s, b"late", w)), Some(Ok(0)));
    // and a second close of the client is refused
    assert_eq!(
        net.on(client, |s, w| poll_drain(s, w)),
        Some(Err(hermit_sys::state::NetError::Illegal))
    );
}

#[test]
fn write_queues_only_what_fits() {
    let mut net = connected();
    let client = net.client;
    let big = vec![7u8; 1500];
    assert_eq!(net.on(client, |s, w| poll_write(s, &big, w)), Some(Ok(1024)));
    assert_eq!(net.on(client, |s, _| s.send_queue()), 1024);
    // a full transmit buffer makes the write wait and queues nothing more
    assert_eq!(net.on(client, |s, w| poll_write(s, b"x", w)), None);
    assert_eq!(net.on(client, |s, _| s.send_queue()), 1024);
}

#[test]
fn accept_sets_keep_alive() {
    let mut net = connected();
    let server = net.server;
    let _ = net.on(server, |s, _| keep_alive_and_peer(s));
    assert_eq!(
        net.on(server, |s, _| s.keep_alive()),
        Some(smoltcp::time::Duration::from_millis(75000))
    );
    assert_eq!(net.on(server, |s, _| s.state()), TcpState::Established);
}

#[test]
fn close_moves_through_its_stages() {
    let mut net = connected();
    let client = net.client;
    let mut stage = CloseStage::Draining;
    assert_eq!(net.on(client, |s, w| poll_write(s, b"abc", w)), Some(Ok(3)));
    assert_eq!(net.on(client, |s, w| poll_close(&mut stage, s, w)), None);
    assert_eq!(stage, CloseStage::Draining);
    net.pump();
    assert_eq!(net.on(client, |s, w| poll_close(&mut stage, s, w)), Some(Ok(())));
    assert_eq!(stage, CloseStage::ShuttingDown);
    assert_eq!(net.on(client, |s, _| s.state()), TcpState::FinWait1);
    let mut again = CloseStage::Draining;
    assert_eq!(
        net.on(client, |s, w| poll_close(&mut again, s, w)),
        Some(Err(hermit_sys::state::NetError::Illegal))
    );
    assert_eq!(again, CloseStage::Draining);
}
