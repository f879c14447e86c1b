//! The stream operations on a TCP socket of smoltcp: one poll each, as the
//! socket's owner runs them every time the socket wakes the operation.
//!
//! A poll gives `Some(result)` when the operation has finished, and `None`
//! when it waits; it has then registered the caller's waker with the side
//! of the socket it waits on.
use vstd::prelude::*;
use smoltcp::socket::TcpSocket;
use smoltcp::socket::TcpState as SocketState;
use smoltcp::wire::IpAddress;
use std::task::Waker;
use crate::address::{IpAddr, is_unspecified_ip};
use crate::endpoint::ConnectTarget;
use crate::network::DEFAULT_KEEP_ALIVE_INTERVAL;
use crate::socket_ops::{
    carries_stream,
    DrainStep, ReadStep, Wait, WriteStep, accept_outcome, accept_step, connect_outcome,
    connect_step, drain_outcome, drain_step, read_after_recv, read_outcome, read_result_outcome,
    read_step, shutdown_outcome, shutdown_step, started_or_illegal, write_after_send,
    write_outcome, write_step,
};
use crate::state::{
    NetError, TcpState, close_transition, is_active_state, is_open_state, is_shut_down,
    may_send_state, receives_in_state, shut_down,
};

verus! {

/// smoltcp's TCP socket; only its methods look inside.
#[verifier::external_type_specification]
#[verifier::external_body]
pub struct ExTcpSocket<'a>(TcpSocket<'a>);

/// The handle by which a task is woken.
#[verifier::external_type_specification]
#[verifier::external_body]
pub struct ExWaker(Waker);

/// smoltcp's error type; the stream operations only tell its presence.
#[verifier::external_type_specification]
#[verifier::external_body]
pub struct ExSmoltcpError(smoltcp::Error);

/// The state of a socket, as `TcpSocket::state` reports it.
pub uninterp spec fn tcp_state(s: TcpSocket) -> TcpState;

/// The bytes in a socket's receive buffer, oldest first.
pub uninterp spec fn rx_queue(s: TcpSocket) -> Seq<u8>;

/// The bytes in a socket's transmit buffer, oldest first.
pub uninterp spec fn tx_queue(s: TcpSocket) -> Seq<u8>;

/// The size of a socket's transmit buffer, as `TcpSocket::send_capacity`
/// reports it.
pub uninterp spec fn tx_capacity(s: TcpSocket) -> nat;

/// A socket's remote endpoint, as `TcpSocket::remote_endpoint` reports it,
/// the address converted to an [`IpAddr`].
pub uninterp spec fn peer_endpoint(s: TcpSocket) -> (IpAddr, u16);

/// The port of a socket's local endpoint, as `TcpSocket::local_endpoint`
/// reports it.
pub uninterp spec fn local_port(s: TcpSocket) -> u16;

/// A socket's keep-alive interval in milliseconds, as
/// `TcpSocket::keep_alive` reports it.
pub uninterp spec fn keep_alive_ms(s: TcpSocket) -> Option<u64>;

/// Whether a waker is registered with the receive side of a socket, to be
/// woken when what a receive would give may have changed.
pub uninterp spec fn recv_waker_registered(s: TcpSocket) -> bool;

/// Whether a waker is registered with the transmit side of a socket, to be
/// woken when what a send would give may have changed.
pub uninterp spec fn send_waker_registered(s: TcpSocket) -> bool;

/// Whether `b` has the waker registrations of `a`.
pub open spec fn wakers_kept(a: TcpSocket, b: TcpSocket) -> bool {
    recv_waker_registered(b) == recv_waker_registered(a) && send_waker_registered(b)
        == send_waker_registered(a)
}

/// Whether `b` has the state, endpoints, keep-alive interval and transmit
/// buffer size of `a`.
pub open spec fn connection_kept(a: TcpSocket, b: TcpSocket) -> bool {
    &&& tcp_state(b) == tcp_state(a)
    &&& peer_endpoint(b) == peer_endpoint(a)
    &&& local_port(b) == local_port(a)
    &&& keep_alive_ms(b) == keep_alive_ms(a)
    &&& tx_capacity(b) == tx_capacity(a)
}

/// Whether `b` shows all that `a` shows: connection and both queues.
pub open spec fn socket_kept(a: TcpSocket, b: TcpSocket) -> bool {
    &&& connection_kept(a, b)
    &&& rx_queue(b) == rx_queue(a)
    &&& tx_queue(b) == tx_queue(a)
}

/// Whether the socket may still receive: its receive half is open, or
/// bytes wait in its receive buffer.
pub open spec fn may_recv_of(s: TcpSocket) -> bool {
    receives_in_state(tcp_state(s)) || rx_queue(s).len() > 0
}

/// Whether the socket can take bytes to send: its transmit half is open
/// and its transmit buffer is not full.
pub open spec fn can_send_of(s: TcpSocket) -> bool {
    may_send_state(tcp_state(s)) && tx_queue(s).len() < tx_capacity(s)
}

/// The smaller of two numbers.
pub open spec fn min_of(a: int, b: int) -> int {
    if a < b {
        a
    } else {
        b
    }
}

/// Calls `TcpSocket::state` and converts the state. Trusted: the result is
/// the socket's state.
#[verifier::external_body]
fn socket_state(s: &TcpSocket<'_>) -> (r: TcpState)
    ensures
        r == tcp_state(*s),
{
    match s.state() {
        SocketState::Closed => TcpState::Closed,
        SocketState::Listen => TcpState::Listen,
        SocketState::SynSent => TcpState::SynSent,
        SocketState::SynReceived => TcpState::SynReceived,
        SocketState::Established => TcpState::Established,
        SocketState::FinWait1 => TcpState::FinWait1,
        SocketState::FinWait2 => TcpState::FinWait2,
        SocketState::CloseWait => TcpState::CloseWait,
        SocketState::Closing => TcpState::Closing,
        SocketState::LastAck => TcpState::LastAck,
        SocketState::TimeWait => TcpState::TimeWait,
    }
}

/// Calls `TcpSocket::is_active`. Trusted, as smoltcp's source shows: a
/// connection is active in every state but `Closed`, `TimeWait`, `Listen`.
#[verifier::external_body]
fn socket_is_active(s: &TcpSocket<'_>) -> (r: bool)
    ensures
        r == is_active_state(tcp_state(*s)),
{
    s.is_active()
}

/// Calls `TcpSocket::may_recv`. Trusted, as smoltcp's source shows: true in
/// `Established`, `FinWait1`, `FinWait2`, and whenever bytes wait in the
/// receive buffer.
#[verifier::external_body]
fn socket_may_recv(s: &TcpSocket<'_>) -> (r: bool)
    ensures
        r == (receives_in_state(tcp_state(*s)) || rx_queue(*s).len() > 0),
{
    s.may_recv()
}

/// Calls `TcpSocket::can_send`. Trusted, as smoltcp's source shows: true
/// in `Established` and `CloseWait` while the transmit buffer is not full.
#[verifier::external_body]
fn socket_can_send(s: &TcpSocket<'_>) -> (r: bool)
    ensures
        r == (may_send_state(tcp_state(*s)) && tx_queue(*s).len() < tx_capacity(*s)),
{
    s.can_send()
}

/// Calls `TcpSocket::send_queue`. Trusted: the result is the number of
/// bytes in the transmit buffer.
#[verifier::external_body]
fn socket_send_queue(s: &TcpSocket<'_>) -> (r: usize)
    ensures
        r == tx_queue(*s).len(),
{
    s.send_queue()
}

/// Calls `TcpSocket::recv_slice`. Trusted, as smoltcp's source shows: a
/// socket that may not receive refuses and nothing changes; otherwise the
/// oldest bytes of the receive buffer, as many as fit in `data`, move to
/// the front of `data`, and nothing else that the names show changes (no
/// waker is woken).
#[verifier::external_body]
fn socket_recv_slice(s: &mut TcpSocket<'_>, data: &mut [u8]) -> (r: Result<usize, smoltcp::Error>)
    ensures
        !may_recv_of(*old(s)) ==> r is Err && *final(s) == *old(s) && final(data)@ == old(
            data,
        )@,
        may_recv_of(*old(s)) ==> ({
            let k = min_of(old(data)@.len() as int, rx_queue(*old(s)).len() as int);
            &&& r == Ok::<usize, smoltcp::Error>(k as usize)
            &&& final(data)@ == rx_queue(*old(s)).take(k) + old(data)@.skip(k)
            &&& rx_queue(*final(s)) == rx_queue(*old(s)).skip(k)
            &&& tx_queue(*final(s)) == tx_queue(*old(s))
            &&& connection_kept(*old(s), *final(s))
            &&& recv_waker_registered(*final(s)) == recv_waker_registered(*old(s))
            &&& send_waker_registered(*final(s)) == send_waker_registered(*old(s))
        }),
{
    s.recv_slice(data)
}

/// Calls `TcpSocket::send_slice`. Trusted, as smoltcp's source shows: a
/// socket whose transmit half is closed refuses and nothing changes;
/// otherwise the first bytes of `data`, as many as there is room for, are
/// appended to the transmit buffer, and nothing else that the names show
/// changes (no waker is woken). The transmit buffer never holds more than
/// its size.
#[verifier::external_body]
fn socket_send_slice(s: &mut TcpSocket<'_>, data: &[u8]) -> (r: Result<usize, smoltcp::Error>)
    ensures
        tx_queue(*old(s)).len() <= tx_capacity(*old(s)),
        !may_send_state(tcp_state(*old(s))) ==> r is Err && *final(s) == *old(s),
        may_send_state(tcp_state(*old(s))) ==> ({
            let k = min_of(
                data@.len() as int,
                tx_capacity(*old(s)) - tx_queue(*old(s)).len(),
            );
            &&& r == Ok::<usize, smoltcp::Error>(k as usize)
            &&& tx_queue(*final(s)) == tx_queue(*old(s)) + data@.take(k)
            &&& rx_queue(*final(s)) == rx_queue(*old(s))
            &&& connection_kept(*old(s), *final(s))
            &&& wakers_kept(*old(s), *final(s))
        }),
{
    s.send_slice(data)
}

/// Calls `TcpSocket::close`. Trusted, as smoltcp's source shows: the state
/// moves as [`close_transition`] says, and nothing else that the names show
/// changes.
#[verifier::external_body]
fn socket_close(s: &mut TcpSocket<'_>)
    ensures
        tcp_state(*final(s)) == close_transition(tcp_state(*old(s))),
        rx_queue(*final(s)) == rx_queue(*old(s)),
        tx_queue(*final(s)) == tx_queue(*old(s)),
        peer_endpoint(*final(s)) == peer_endpoint(*old(s)),
        local_port(*final(s)) == local_port(*old(s)),
        keep_alive_ms(*final(s)) == keep_alive_ms(*old(s)),
        tx_capacity(*final(s)) == tx_capacity(*old(s)),
{
    s.close()
}

/// Whether a connect to `target` from a socket in state `st` is taken: the
/// socket is not open, the peer's address is specified, and neither port
/// is zero.
pub open spec fn connect_accepted(st: TcpState, target: ConnectTarget) -> bool {
    !is_open_state(st) && !is_unspecified_ip(target.remote) && target.remote_port != 0
        && target.local_port != 0
}

/// Calls `TcpSocket::connect` with the target's peer and local port, the
/// peer's address converted to smoltcp's. Trusted, as smoltcp's source
/// shows: it succeeds exactly as [`connect_accepted`] says; then the
/// socket is reset to `SynSent` towards the peer from the local port, with
/// empty buffers and no keep-alive; on failure nothing changes.
#[verifier::external_body]
fn socket_connect(s: &mut TcpSocket<'_>, target: ConnectTarget) -> (r: Result<(), smoltcp::Error>)
    ensures
        r is Ok <==> connect_accepted(tcp_state(*old(s)), target),
        r is Err ==> *final(s) == *old(s),
        r is Ok ==> ({
            &&& tcp_state(*final(s)) == TcpState::SynSent
            &&& peer_endpoint(*final(s)) == (target.remote, target.remote_port)
            &&& local_port(*final(s)) == target.local_port
            &&& rx_queue(*final(s)).len() == 0
            &&& tx_queue(*final(s)).len() == 0
            &&& keep_alive_ms(*final(s)) is None
            &&& tx_capacity(*final(s)) == tx_capacity(*old(s))
        }),
{
    let addr = match target.remote {
        IpAddr::Unspecified => IpAddress::Unspecified,
        IpAddr::Ipv4(o) => IpAddress::Ipv4(smoltcp::wire::Ipv4Address(o)),
        IpAddr::Ipv6(o) => IpAddress::Ipv6(smoltcp::wire::Ipv6Address(o)),
    };
    s.connect((addr, target.remote_port), target.local_port)
}

/// Calls `TcpSocket::listen` on `port`. Trusted, as smoltcp's source shows:
/// it succeeds exactly when the port is not zero and the socket is not
/// open; then the socket is reset to `Listen` on the port, with no peer,
/// empty buffers and no keep-alive; on failure nothing changes.
#[verifier::external_body]
fn socket_listen(s: &mut TcpSocket<'_>, port: u16) -> (r: Result<(), smoltcp::Error>)
    ensures
        r is Ok <==> (port != 0 && !is_open_state(tcp_state(*old(s)))),
        r is Err ==> *final(s) == *old(s),
        r is Ok ==> ({
            &&& tcp_state(*final(s)) == TcpState::Listen
            &&& local_port(*final(s)) == port
            &&& peer_endpoint(*final(s)) == (IpAddr::Unspecified, 0u16)
            &&& rx_queue(*final(s)).len() == 0
            &&& tx_queue(*final(s)).len() == 0
            &&& keep_alive_ms(*final(s)) is None
            &&& tx_capacity(*final(s)) == tx_capacity(*old(s))
        }),
{
    s.listen(port)
}

/// Calls `TcpSocket::register_recv_waker`. Trusted, as smoltcp's source
/// shows: a waker is then registered with the receive side (the given one,
/// or an earlier one that wakes the same task); the transmit side's
/// registration and all else that the names show stay.
#[verifier::external_body]
fn register_recv_waker(s: &mut TcpSocket<'_>, waker: &Waker)
    ensures
        socket_kept(*old(s), *final(s)),
        recv_waker_registered(*final(s)),
        send_waker_registered(*final(s)) == send_waker_registered(*old(s)),
{
    s.register_recv_waker(waker)
}

/// Calls `TcpSocket::register_send_waker`. Trusted, as smoltcp's source
/// shows: a waker is then registered with the transmit side (the given one,
/// or an earlier one that wakes the same task); the receive side's
/// registration and all else that the names show stay.
#[verifier::external_body]
fn register_send_waker(s: &mut TcpSocket<'_>, waker: &Waker)
    ensures
        socket_kept(*old(s), *final(s)),
        send_waker_registered(*final(s)),
        recv_waker_registered(*final(s)) == recv_waker_registered(*old(s)),
{
    s.register_send_waker(waker)
}

/// Calls `TcpSocket::set_keep_alive` with an interval of `interval_ms`
/// milliseconds, made by smoltcp's `Duration::from_millis`. Trusted, as
/// smoltcp's source shows: the keep-alive interval becomes that, and
/// nothing else that the names show changes.
#[verifier::external_body]
fn socket_set_keep_alive(s: &mut TcpSocket<'_>, interval_ms: u64)
    ensures
        keep_alive_ms(*final(s)) == Some(interval_ms),
        tcp_state(*final(s)) == tcp_state(*old(s)),
        peer_endpoint(*final(s)) == peer_endpoint(*old(s)),
        local_port(*final(s)) == local_port(*old(s)),
        tx_capacity(*final(s)) == tx_capacity(*old(s)),
        rx_queue(*final(s)) == rx_queue(*old(s)),
        tx_queue(*final(s)) == tx_queue(*old(s)),
{
    s.set_keep_alive(Some(smoltcp::time::Duration::from_millis(interval_ms)))
}

/// Calls `TcpSocket::remote_endpoint` and converts its address and port.
/// Trusted: the result is the socket's remote endpoint.
#[verifier::external_body]
fn socket_remote_endpoint(s: &TcpSocket<'_>) -> (r: (IpAddr, u16))
    ensures
        r == peer_endpoint(*s),
{
    let endpoint = s.remote_endpoint();
    let addr = match endpoint.addr {
        IpAddress::Ipv4(a) => IpAddr::Ipv4(a.0),
        IpAddress::Ipv6(a) => IpAddr::Ipv6(a.0),
        _ => IpAddr::Unspecified,
    };
    (addr, endpoint.port)
}

/// The result of one poll of an operation that stands at `w`: its result
/// when it is ready, nothing while it waits.
pub open spec fn settled<T>(w: Wait<T>) -> Option<Result<T, NetError>> {
    match w {
        Wait::Ready(r) => Some(r),
        _ => None,
    }
}

/// Starts connecting the socket to the target's peer from its local port.
/// It succeeds exactly as [`connect_accepted`] says, leaving the socket in
/// `SynSent` towards the peer with empty buffers; any refusal is `Illegal`
/// and leaves the socket as it was.
pub fn start_connect(s: &mut TcpSocket<'_>, target: ConnectTarget) -> (r: Result<(), NetError>)
    ensures
        r is Ok <==> connect_accepted(tcp_state(*old(s)), target),
        r is Err ==> r == Err::<(), NetError>(NetError::Illegal) && *final(s) == *old(s),
        r is Ok ==> tcp_state(*final(s)) == TcpState::SynSent && peer_endpoint(*final(s)) == (
            target.remote,
            target.remote_port,
        ) && local_port(*final(s)) == target.local_port && rx_queue(*final(s)).len() == 0
            && tx_queue(*final(s)).len() == 0 && keep_alive_ms(*final(s)) is None && tx_capacity(
            *final(s),
        ) == tx_capacity(*old(s)),
{
    started_or_illegal(socket_connect(s, target))
}

/// One poll of a connect: finished as [`connect_outcome`] says for the
/// socket's state, or waiting on its transmit side. What the socket shows
/// does not change.
pub fn poll_connect(s: &mut TcpSocket<'_>, waker: &Waker) -> (r: Option<Result<(), NetError>>)
    ensures
        r == settled(connect_outcome(tcp_state(*old(s)))),
        socket_kept(*old(s), *final(s)),
        r is None ==> send_waker_registered(*final(s)) && recv_waker_registered(*final(s))
            == recv_waker_registered(*old(s)),
        r is Some ==> wakers_kept(*old(s), *final(s)),
{
    let st = socket_state(s);
    let step = connect_step(st);
    match step {
        Wait::Ready(res) => Some(res),
        Wait::ForSend => {
            register_send_waker(s, waker);
            None
        },
        Wait::ForRecv => {
            register_recv_waker(s, waker);
            None
        },
    }
}

/// Starts listening on `port`. It succeeds exactly when the port is not
/// zero and the socket is not open, leaving the socket in `Listen` on the
/// port with no peer and empty buffers; any refusal is `Illegal` and
/// leaves the socket as it was.
pub fn start_listen(s: &mut TcpSocket<'_>, port: u16) -> (r: Result<(), NetError>)
    ensures
        r is Ok <==> (port != 0 && !is_open_state(tcp_state(*old(s)))),
        r is Err ==> r == Err::<(), NetError>(NetError::Illegal) && *final(s) == *old(s),
        r is Ok ==> tcp_state(*final(s)) == TcpState::Listen && local_port(*final(s)) == port
            && peer_endpoint(*final(s)) == (IpAddr::Unspecified, 0u16) && rx_queue(
            *final(s),
        ).len() == 0 && tx_queue(*final(s)).len() == 0 && keep_alive_ms(*final(s)) is None
            && tx_capacity(*final(s)) == tx_capacity(*old(s)),
{
    started_or_illegal(socket_listen(s, port))
}

/// One poll of an accept: finished as [`accept_outcome`] says for the
/// socket's state, or waiting on its receive side. What the socket shows
/// does not change.
pub fn poll_accept(s: &mut TcpSocket<'_>, waker: &Waker) -> (r: Option<Result<(), NetError>>)
    ensures
        r == settled(
            accept_outcome(is_active_state(tcp_state(*old(s))), tcp_state(*old(s))),
        ),
        socket_kept(*old(s), *final(s)),
        r is None ==> recv_waker_registered(*final(s)) && send_waker_registered(*final(s))
            == send_waker_registered(*old(s)),
        r is Some ==> wakers_kept(*old(s), *final(s)),
{
    let active = socket_is_active(s);
    let st = if active {
        None
    } else {
        Some(socket_state(s))
    };
    let step = accept_step(active, st);
    match step {
        Wait::Ready(res) => Some(res),
        Wait::ForSend => {
            register_send_waker(s, waker);
            None
        },
        Wait::ForRecv => {
            register_recv_waker(s, waker);
            None
        },
    }
}

/// Gives an accepted connection the default keep-alive interval, and tells
/// the peer's address and port: the socket's remote endpoint. Nothing else
/// that the socket shows changes.
pub fn keep_alive_and_peer(s: &mut TcpSocket<'_>) -> (r: (IpAddr, u16))
    ensures
        r == peer_endpoint(*old(s)),
        keep_alive_ms(*final(s)) == Some(DEFAULT_KEEP_ALIVE_INTERVAL),
        tcp_state(*final(s)) == tcp_state(*old(s)),
        peer_endpoint(*final(s)) == peer_endpoint(*old(s)),
        local_port(*final(s)) == local_port(*old(s)),
        rx_queue(*final(s)) == rx_queue(*old(s)),
        tx_queue(*final(s)) == tx_queue(*old(s)),
{
    socket_set_keep_alive(s, DEFAULT_KEEP_ALIVE_INTERVAL);
    socket_remote_endpoint(s)
}

/// The result of one poll of a read into a buffer of `buffer_len` bytes,
/// on a socket in state `st` that reports `may_recv`, and, where it is
/// asked for bytes, answers with `received`.
pub open spec fn read_poll(
    st: TcpState,
    may_recv: bool,
    received: Result<usize, smoltcp::Error>,
    buffer_len: usize,
) -> Option<Result<usize, NetError>> {
    match read_outcome(st, may_recv) {
        ReadStep::Refuse => Some(Err(NetError::Illegal)),
        ReadStep::WaitForRecv => None,
        ReadStep::Receive => settled(read_result_outcome(received, buffer_len)),
    }
}

/// How many bytes one poll of a read into a buffer of `buffer_len` bytes
/// takes from socket `s`: as many of the received bytes as fit, where the
/// socket is not shut down and may receive; none otherwise.
pub open spec fn read_count(s: TcpSocket, buffer_len: int) -> int {
    if !is_shut_down(tcp_state(s)) && may_recv_of(s) {
        min_of(buffer_len, rx_queue(s).len() as int)
    } else {
        0
    }
}

/// One poll of a read into `buffer`: finished as [`read_poll`] says for the
/// socket's state and the bytes it has received, or waiting on its receive
/// side. The oldest received bytes, as many as [`read_count`] says, move to
/// the front of the buffer and leave the socket's receive buffer; the rest
/// of the buffer, and all else that the socket shows, stay as they were.
pub fn poll_read(s: &mut TcpSocket<'_>, buffer: &mut [u8], waker: &Waker) -> (r: Option<
    Result<usize, NetError>,
>)
    ensures
        ({
            let k = read_count(*old(s), old(buffer)@.len() as int);
            &&& r == read_poll(
                tcp_state(*old(s)),
                may_recv_of(*old(s)),
                Ok(k as usize),
                old(buffer)@.len() as usize,
            )
            &&& final(buffer)@ == rx_queue(*old(s)).take(k) + old(buffer)@.skip(k)
            &&& rx_queue(*final(s)) == rx_queue(*old(s)).skip(k)
        }),
        tx_queue(*final(s)) == tx_queue(*old(s)),
        connection_kept(*old(s), *final(s)),
        r matches Some(Ok(n)) ==> n <= old(buffer)@.len() && (n > 0 || old(buffer)@.len() == 0),
        r matches Some(Ok(n)) ==> n == read_count(*old(s), old(buffer)@.len() as int),
        r matches Some(Err(e)) ==> e == NetError::Illegal,
        r is None ==> recv_waker_registered(*final(s)) && send_waker_registered(*final(s))
            == send_waker_registered(*old(s)),
        r is Some ==> wakers_kept(*old(s), *final(s)),
{
    let len = buffer.len();
    let ghost s0 = *s;
    let ghost b0 = buffer@;
    let st = socket_state(s);
    let may_recv = if shut_down(st) {
        None
    } else {
        Some(socket_may_recv(s))
    };
    match read_step(st, may_recv) {
        ReadStep::Refuse => {
            assert(b0.skip(0) =~= b0);
            assert(rx_queue(s0).skip(0) =~= rx_queue(s0));
            Some(Err(NetError::Illegal))
        },
        ReadStep::WaitForRecv => {
            register_recv_waker(s, waker);
            assert(b0.skip(0) =~= b0);
            assert(rx_queue(s0).skip(0) =~= rx_queue(s0));
            None
        },
        ReadStep::Receive => {
            let received = socket_recv_slice(s, buffer);
            match read_after_recv(received, len) {
                Wait::Ready(res) => Some(res),
                _ => {
                    register_recv_waker(s, waker);
                    None
                },
            }
        },
    }
}

/// The result of one poll of a write of `buffer_len` bytes, on a socket in
/// state `st` that reports `may_recv` and `can_send`, and, where it is
/// handed the bytes, answers with `sent`.
pub open spec fn write_poll(
    st: TcpState,
    may_recv: bool,
    can_send: bool,
    sent: Result<usize, smoltcp::Error>,
) -> Option<Result<usize, NetError>> {
    match write_outcome(st, may_recv, can_send) {
        WriteStep::Refuse => Some(Err(NetError::Illegal)),
        WriteStep::WriteNothing => Some(Ok(0)),
        WriteStep::WaitForSend => None,
        WriteStep::Send => Some(
            match sent {
                Ok(n) => Ok(n),
                Err(_) => Err(NetError::Illegal),
            },
        ),
    }
}

/// How many bytes one poll of a write of `buffer_len` bytes hands to socket
/// `s`: as many as there is room for, where the write sends; none
/// otherwise.
pub open spec fn write_count(s: TcpSocket, buffer_len: int) -> int {
    if write_outcome(tcp_state(s), may_recv_of(s), can_send_of(s)) == WriteStep::Send {
        min_of(buffer_len, tx_capacity(s) - tx_queue(s).len())
    } else {
        0
    }
}

/// One poll of a write of `buffer`: finished as [`write_poll`] says for the
/// socket's state and room, or waiting on its transmit side. The first
/// bytes of the buffer, as many as [`write_count`] says, are appended to
/// the socket's transmit buffer; all else that the socket shows stays as
/// it was.
pub fn poll_write(s: &mut TcpSocket<'_>, buffer: &[u8], waker: &Waker) -> (r: Option<
    Result<usize, NetError>,
>)
    ensures
        ({
            let k = write_count(*old(s), buffer@.len() as int);
            &&& r == write_poll(
                tcp_state(*old(s)),
                may_recv_of(*old(s)),
                can_send_of(*old(s)),
                Ok(k as usize),
            )
            &&& tx_queue(*final(s)) == tx_queue(*old(s)) + buffer@.take(k)
        }),
        rx_queue(*final(s)) == rx_queue(*old(s)),
        connection_kept(*old(s), *final(s)),
        r matches Some(Ok(n)) ==> n <= buffer@.len(),
        r matches Some(Ok(n)) ==> n == write_count(*old(s), buffer@.len() as int),
        r matches Some(Err(e)) ==> e == NetError::Illegal,
        r is None ==> send_waker_registered(*final(s)) && recv_waker_registered(*final(s))
            == recv_waker_registered(*old(s)),
        r is Some ==> wakers_kept(*old(s), *final(s)),
{
    let ghost s0 = *s;
    let st = socket_state(s);
    let may_recv = if shut_down(st) {
        None
    } else {
        Some(socket_may_recv(s))
    };
    let can_send = match may_recv {
        Some(true) => Some(socket_can_send(s)),
        _ => None,
    };
    match write_step(st, may_recv, can_send) {
        WriteStep::Refuse => {
            assert(tx_queue(s0) + buffer@.take(0) =~= tx_queue(s0));
            Some(Err(NetError::Illegal))
        },
        WriteStep::WriteNothing => {
            assert(tx_queue(s0) + buffer@.take(0) =~= tx_queue(s0));
            Some(Ok(0))
        },
        WriteStep::WaitForSend => {
            register_send_waker(s, waker);
            assert(tx_queue(s0) + buffer@.take(0) =~= tx_queue(s0));
            None
        },
        WriteStep::Send => {
            let sent = socket_send_slice(s, buffer);
            assert(tx_queue(s0).len() <= tx_capacity(s0));
            let blen = buffer.len();
            assert(0 <= write_count(s0, buffer@.len() as int) <= blen);
            Some(write_after_send(sent))
        },
    }
}

/// The result of one poll of the first stage of a close, on a socket in
/// state `st` with `send_queue` bytes queued: `Some(Ok(()))` once the
/// socket was told to close.
pub open spec fn drain_poll(st: TcpState, send_queue: usize) -> Option<Result<(), NetError>> {
    match drain_outcome(st, send_queue) {
        DrainStep::Refuse => Some(Err(NetError::Illegal)),
        DrainStep::WaitForSend => None,
        DrainStep::CloseSocket => Some(Ok(())),
    }
}

/// One poll of the first stage of a close: finished as [`drain_poll`] says
/// for the socket's state and transmit buffer, or waiting on its transmit
/// side. Where it tells the socket to close, the state moves as
/// [`close_transition`] says; all else that the socket shows stays.
pub fn poll_drain(s: &mut TcpSocket<'_>, waker: &Waker) -> (r: Option<Result<(), NetError>>)
    ensures
        r == drain_poll(tcp_state(*old(s)), tx_queue(*old(s)).len() as usize),
        drain_outcome(tcp_state(*old(s)), tx_queue(*old(s)).len() as usize)
            == DrainStep::CloseSocket ==> tcp_state(*final(s)) == close_transition(
            tcp_state(*old(s)),
        ),
        drain_outcome(tcp_state(*old(s)), tx_queue(*old(s)).len() as usize)
            != DrainStep::CloseSocket ==> tcp_state(*final(s)) == tcp_state(*old(s)),
        rx_queue(*final(s)) == rx_queue(*old(s)),
        tx_queue(*final(s)) == tx_queue(*old(s)),
        peer_endpoint(*final(s)) == peer_endpoint(*old(s)),
        local_port(*final(s)) == local_port(*old(s)),
        keep_alive_ms(*final(s)) == keep_alive_ms(*old(s)),
        r is None ==> send_waker_registered(*final(s)) && recv_waker_registered(*final(s))
            == recv_waker_registered(*old(s)),
        r matches Some(Err(_)) ==> wakers_kept(*old(s), *final(s)),
{
    let st = socket_state(s);
    let queued = if shut_down(st) {
        None
    } else {
        Some(socket_send_queue(s))
    };
    match drain_step(st, queued) {
        DrainStep::Refuse => Some(Err(NetError::Illegal)),
        DrainStep::WaitForSend => {
            register_send_waker(s, waker);
            None
        },
        DrainStep::CloseSocket => {
            socket_close(s);
            Some(Ok(()))
        },
    }
}

/// One poll of the second stage of a close: finished as
/// [`shutdown_outcome`] says for the socket's state (done once it is shut
/// down), or waiting on its transmit side. It never fails, and what the
/// socket shows does not change.
pub fn poll_shutdown(s: &mut TcpSocket<'_>, waker: &Waker) -> (r: Option<Result<(), NetError>>)
    ensures
        r == settled(shutdown_outcome(tcp_state(*old(s)))),
        r is None || r == Some(Ok::<(), NetError>(())),
        socket_kept(*old(s), *final(s)),
        r is None ==> send_waker_registered(*final(s)) && recv_waker_registered(*final(s))
            == recv_waker_registered(*old(s)),
        r is Some ==> wakers_kept(*old(s), *final(s)),
{
    let st = socket_state(s);
    match shutdown_step(st) {
        Wait::Ready(res) => Some(res),
        _ => {
            register_send_waker(s, waker);
            None
        },
    }
}

/// Where a close stands between polls.
#[derive(Clone, Copy, Debug, PartialEq, Eq, Structural)]
pub enum CloseStage {
    /// Waiting for the transmit buffer to empty before closing.
    Draining,
    /// The socket was told to close; waiting until it is shut down.
    ShuttingDown,
}

/// One poll of a close that stands at `stage`. While draining it polls the
/// first stage; once that has told the socket to close, the close moves to
/// shutting down and polls the second stage at once, on the socket's new
/// state. A refusal while draining finishes the close with it.
pub fn poll_close(stage: &mut CloseStage, s: &mut TcpSocket<'_>, waker: &Waker) -> (r: Option<
    Result<(), NetError>,
>)
    ensures
        *old(stage) == CloseStage::ShuttingDown ==> *final(stage) == CloseStage::ShuttingDown
            && r == settled(shutdown_outcome(tcp_state(*old(s)))),
        *old(stage) == CloseStage::Draining && drain_poll(
            tcp_state(*old(s)),
            tx_queue(*old(s)).len() as usize,
        ) == Some(Ok::<(), NetError>(())) ==> *final(stage) == CloseStage::ShuttingDown && r
            == settled(shutdown_outcome(close_transition(tcp_state(*old(s))))),
        *old(stage) == CloseStage::Draining && drain_poll(
            tcp_state(*old(s)),
            tx_queue(*old(s)).len() as usize,
        ) != Some(Ok::<(), NetError>(())) ==> *final(stage) == CloseStage::Draining && r
            == drain_poll(tcp_state(*old(s)), tx_queue(*old(s)).len() as usize),
        rx_queue(*final(s)) == rx_queue(*old(s)),
        tx_queue(*final(s)) == tx_queue(*old(s)),
        peer_endpoint(*final(s)) == peer_endpoint(*old(s)),
        local_port(*final(s)) == local_port(*old(s)),
        keep_alive_ms(*final(s)) == keep_alive_ms(*old(s)),
{
    if *stage == CloseStage::Draining {
        match poll_drain(s, waker) {
            Some(Ok(())) => {
                *stage = CloseStage::ShuttingDown;
                poll_shutdown(s, waker)
            },
            other => other,
        }
    } else {
        poll_shutdown(s, waker)
    }
}

/// A read from a socket that can still carry a stream and may receive
/// takes as many of the received bytes as fit in the buffer, and when it
/// finishes with a count, that count is exactly how many bytes it took;
/// with bytes waiting and room in the buffer it always finishes.
pub proof fn lemma_read_reports_bytes_moved(s: TcpSocket, buffer_len: usize)
    requires
        carries_stream(tcp_state(s)),
        may_recv_of(s),
    ensures
        read_count(s, buffer_len as int) == (if buffer_len < rx_queue(s).len() {
            buffer_len as int
        } else {
            rx_queue(s).len() as int
        }),
        forall|m: usize|
            #[trigger] read_poll(
                tcp_state(s),
                true,
                Ok(read_count(s, buffer_len as int) as usize),
                buffer_len,
            ) == Some(Ok::<usize, NetError>(m)) ==> m == read_count(s, buffer_len as int),
        rx_queue(s).len() > 0 && buffer_len > 0 ==> read_poll(
            tcp_state(s),
            true,
            Ok(read_count(s, buffer_len as int) as usize),
            buffer_len,
        ) == Some(Ok::<usize, NetError>(read_count(s, buffer_len as int) as usize)),
{
}

/// A write to a socket that can still carry a stream, may receive and has
/// room hands over as many of the caller's bytes as there is room for, and
/// finishes with exactly that count.
pub proof fn lemma_write_sends_all_that_fits(s: TcpSocket, buffer_len: usize)
    requires
        carries_stream(tcp_state(s)),
        may_recv_of(s),
        can_send_of(s),
    ensures
        write_count(s, buffer_len as int) == (if buffer_len < tx_capacity(s) - tx_queue(
            s,
        ).len() {
            buffer_len as int
        } else {
            tx_capacity(s) - tx_queue(s).len()
        }),
        write_poll(
            tcp_state(s),
            true,
            true,
            Ok(write_count(s, buffer_len as int) as usize),
        ) == Some(Ok::<usize, NetError>(write_count(s, buffer_len as int) as usize)),
{
}

/// The first stage of a close on a socket that can still carry a stream
/// and has nothing left to send tells the socket to close and finishes.
pub proof fn lemma_drain_closes_idle_socket(s: TcpSocket)
    requires
        carries_stream(tcp_state(s)),
        tx_queue(s).len() == 0,
    ensures
        drain_outcome(tcp_state(s), tx_queue(s).len() as usize) == DrainStep::CloseSocket,
        drain_poll(tcp_state(s), tx_queue(s).len() as usize) == Some(Ok::<(), NetError>(())),
{
}

} // verus!
