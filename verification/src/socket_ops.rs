//! What each blocking stream operation does on one look at its socket.
//!
//! Every operation waits on the socket until it can finish. Each time the
//! socket wakes it up, the operation reads what the socket reports, and the
//! step functions here say what to do: finish with a result, hand data to
//! or take data from the socket, close the socket, or register for the next
//! wake-up and wait.
use vstd::prelude::*;
use crate::state::{NetError, TcpState, is_shut_down, shut_down};

verus! {

/// What a waiting operation does next.
#[derive(Debug, PartialEq, Eq)]
pub enum Wait<T> {
    /// Finish with this result.
    Ready(Result<T, NetError>),
    /// Wait until the transmit side of the socket wakes the operation.
    ForSend,
    /// Wait until the receive side of the socket wakes the operation.
    ForRecv,
}

/// What a connect attempt does in state `st`.
pub open spec fn connect_outcome(st: TcpState) -> Wait<()> {
    match st {
        TcpState::Closed | TcpState::TimeWait => Wait::Ready(Err(NetError::Unaddressable)),
        TcpState::Listen => Wait::Ready(Err(NetError::Illegal)),
        TcpState::SynSent | TcpState::SynReceived => Wait::ForSend,
        _ => Wait::Ready(Ok(())),
    }
}

/// One look at a socket on which a connection was started: a socket that
/// has fallen back to `Closed` or `TimeWait` could not reach its peer, one
/// in `Listen` was never connecting, one still in the handshake waits, and
/// every other state means the connection is up.
pub fn connect_step(st: TcpState) -> (r: Wait<()>)
    ensures
        r == connect_outcome(st),
        (r == Wait::<()>::ForSend) <==> (st == TcpState::SynSent || st == TcpState::SynReceived),
{
    match st {
        TcpState::Closed | TcpState::TimeWait => Wait::Ready(Err(NetError::Unaddressable)),
        TcpState::Listen => Wait::Ready(Err(NetError::Illegal)),
        TcpState::SynSent | TcpState::SynReceived => Wait::ForSend,
        _ => Wait::Ready(Ok(())),
    }
}

/// The result of asking a socket to start connecting or listening: any
/// failure of the socket is an `Illegal` request.
pub fn started_or_illegal<E>(started: Result<(), E>) -> (r: Result<(), NetError>)
    ensures
        started is Ok ==> r == Ok::<(), NetError>(()),
        started is Err ==> r == Err::<(), NetError>(NetError::Illegal),
{
    match started {
        Ok(()) => Ok(()),
        Err(_) => Err(NetError::Illegal),
    }
}

/// What an accept does on a socket that reports `is_active` and `st`.
pub open spec fn accept_outcome(is_active: bool, st: TcpState) -> Wait<()> {
    if is_active {
        Wait::Ready(Ok(()))
    } else {
        match st {
            TcpState::Closed | TcpState::Closing | TcpState::FinWait1 | TcpState::FinWait2 => {
                Wait::Ready(Err(NetError::Illegal))
            },
            _ => Wait::ForRecv,
        }
    }
}

/// One look at a listening socket: an active connection finishes the
/// accept; a socket that is closed or whose local side is closing refuses
/// it; otherwise the accept waits for the receive side. The state is only
/// looked at where no connection is active.
pub fn accept_step(is_active: bool, st: Option<TcpState>) -> (r: Wait<()>)
    requires
        !is_active ==> st is Some,
    ensures
        is_active ==> r == Wait::<()>::Ready(Ok(())),
        !is_active ==> r == accept_outcome(is_active, st->Some_0),
        r == Wait::<()>::Ready(Ok(())) <==> is_active,
{
    if is_active {
        Wait::Ready(Ok(()))
    } else {
        match st {
            Some(TcpState::Closed) | Some(TcpState::Closing) | Some(TcpState::FinWait1) | Some(
                TcpState::FinWait2,
            ) => Wait::Ready(Err(NetError::Illegal)),
            _ => Wait::ForRecv,
        }
    }
}

/// What a read does on one look at its socket.
#[derive(Clone, Copy, Debug, PartialEq, Eq)]
pub enum ReadStep {
    /// Finish with an `Illegal` error.
    Refuse,
    /// Take received bytes from the socket into the caller's buffer, then
    /// decide with [`read_after_recv`].
    Receive,
    /// Wait until the receive side of the socket wakes the read.
    WaitForRecv,
}

/// What a read does on a socket in state `st` that reports `may_recv`.
pub open spec fn read_outcome(st: TcpState, may_recv: bool) -> ReadStep {
    if is_shut_down(st) {
        ReadStep::Refuse
    } else if may_recv {
        ReadStep::Receive
    } else {
        ReadStep::WaitForRecv
    }
}

/// One look at a socket to be read: a shut-down socket refuses the read
/// (with `Illegal`), one that may still receive hands over what it holds,
/// and any other waits. Whether the socket may receive is only looked at
/// where it is not shut down.
pub fn read_step(st: TcpState, may_recv: Option<bool>) -> (r: ReadStep)
    requires
        !is_shut_down(st) ==> may_recv is Some,
    ensures
        is_shut_down(st) ==> r == ReadStep::Refuse,
        !is_shut_down(st) ==> r == read_outcome(st, may_recv->Some_0),
{
    if shut_down(st) {
        ReadStep::Refuse
    } else {
        match may_recv {
            Some(true) => ReadStep::Receive,
            _ => ReadStep::WaitForRecv,
        }
    }
}

/// What a read does with `received` for a buffer of `buffer_len` bytes.
pub open spec fn read_result_outcome<E>(received: Result<usize, E>, buffer_len: usize) -> Wait<
    usize,
> {
    match received {
        Err(_) => Wait::Ready(Err(NetError::Illegal)),
        Ok(n) => if n > 0 || buffer_len == 0 {
            Wait::Ready(Ok(n))
        } else {
            Wait::ForRecv
        },
    }
}

/// What a read does once the socket has answered the request for bytes
/// with `received`, for a caller's buffer of `buffer_len` bytes: a failed
/// receive fails the read with `Illegal`; some bytes, or an empty buffer,
/// finish it with their count; no bytes for a non-empty buffer wait.
pub fn read_after_recv<E>(received: Result<usize, E>, buffer_len: usize) -> (r: Wait<usize>)
    ensures
        r == read_result_outcome(received, buffer_len),
{
    match received {
        Err(_) => Wait::Ready(Err(NetError::Illegal)),
        Ok(n) => {
            if n > 0 || buffer_len == 0 {
                Wait::Ready(Ok(n))
            } else {
                Wait::ForRecv
            }
        },
    }
}

/// What a write does on one look at its socket.
#[derive(Clone, Copy, Debug, PartialEq, Eq)]
pub enum WriteStep {
    /// Finish with an `Illegal` error.
    Refuse,
    /// Finish with zero bytes written.
    WriteNothing,
    /// Hand the caller's bytes to the socket, then finish with
    /// [`write_after_send`].
    Send,
    /// Wait until the transmit side of the socket wakes the write.
    WaitForSend,
}

/// What a write does on a socket in state `st` that reports `may_recv`
/// and `can_send`.
pub open spec fn write_outcome(st: TcpState, may_recv: bool, can_send: bool) -> WriteStep {
    if is_shut_down(st) {
        WriteStep::Refuse
    } else if !may_recv {
        WriteStep::WriteNothing
    } else if can_send {
        WriteStep::Send
    } else {
        WriteStep::WaitForSend
    }
}

/// One look at a socket to be written: a shut-down socket refuses the
/// write; one that can no longer receive takes nothing and the write
/// finishes with zero bytes; one with room to send takes the bytes; any
/// other waits. Each report is only looked at where the ones before it
/// left the decision open.
pub fn write_step(st: TcpState, may_recv: Option<bool>, can_send: Option<bool>) -> (r: WriteStep)
    requires
        !is_shut_down(st) ==> may_recv is Some,
        !is_shut_down(st) && may_recv == Some(true) ==> can_send is Some,
    ensures
        is_shut_down(st) ==> r == WriteStep::Refuse,
        !is_shut_down(st) && may_recv == Some(false) ==> r == WriteStep::WriteNothing,
        !is_shut_down(st) && may_recv == Some(true) ==> r == write_outcome(
            st,
            true,
            can_send->Some_0,
        ),
{
    if shut_down(st) {
        WriteStep::Refuse
    } else {
        match may_recv {
            Some(true) => match can_send {
                Some(true) => WriteStep::Send,
                _ => WriteStep::WaitForSend,
            },
            _ => WriteStep::WriteNothing,
        }
    }
}

/// The result of a write once the socket has answered the hand-over with
/// `sent`: the count of bytes it took, or `Illegal` for any failure.
pub fn write_after_send<E>(sent: Result<usize, E>) -> (r: Result<usize, NetError>)
    ensures
        sent is Ok ==> r == Ok::<usize, NetError>(sent->Ok_0),
        sent is Err ==> r == Err::<usize, NetError>(NetError::Illegal),
{
    match sent {
        Ok(n) => Ok(n),
        Err(_) => Err(NetError::Illegal),
    }
}

/// What the first stage of a close does on one look at its socket.
#[derive(Clone, Copy, Debug, PartialEq, Eq)]
pub enum DrainStep {
    /// Finish the close with an `Illegal` error.
    Refuse,
    /// Tell the socket to close its transmit half; the close goes on with
    /// its second stage.
    CloseSocket,
    /// Wait until the transmit side of the socket wakes the close.
    WaitForSend,
}

/// What the first stage of a close does on a socket in state `st` with
/// `send_queue` bytes waiting to be sent.
pub open spec fn drain_outcome(st: TcpState, send_queue: usize) -> DrainStep {
    if is_shut_down(st) {
        DrainStep::Refuse
    } else if send_queue > 0 {
        DrainStep::WaitForSend
    } else {
        DrainStep::CloseSocket
    }
}

/// The first stage of a close, on one look at its socket: a shut-down
/// socket refuses the close, bytes still queued for sending make it wait,
/// and an empty queue closes the socket. The queue is only looked at where
/// the socket is not shut down.
pub fn drain_step(st: TcpState, send_queue: Option<usize>) -> (r: DrainStep)
    requires
        !is_shut_down(st) ==> send_queue is Some,
    ensures
        is_shut_down(st) ==> r == DrainStep::Refuse,
        !is_shut_down(st) ==> r == drain_outcome(st, send_queue->Some_0),
{
    if shut_down(st) {
        DrainStep::Refuse
    } else {
        match send_queue {
            Some(0) => DrainStep::CloseSocket,
            _ => DrainStep::WaitForSend,
        }
    }
}

/// What the second stage of a close does on a socket in state `st`.
pub open spec fn shutdown_outcome(st: TcpState) -> Wait<()> {
    if is_shut_down(st) {
        Wait::Ready(Ok(()))
    } else {
        Wait::ForSend
    }
}

/// The second stage of a close, after the socket was told to close: it
/// finishes once the socket is shut down and waits until then.
pub fn shutdown_step(st: TcpState) -> (r: Wait<()>)
    ensures
        r == shutdown_outcome(st),
{
    if shut_down(st) {
        Wait::Ready(Ok(()))
    } else {
        Wait::ForSend
    }
}

/// In every state, a read is refused exactly where a write and the first
/// stage of a close are refused: in the shut-down states.
pub proof fn lemma_refusals_agree(st: TcpState, may_recv: bool, can_send: bool, send_queue: usize)
    ensures
        (read_outcome(st, may_recv) == ReadStep::Refuse) <==> is_shut_down(st),
        (write_outcome(st, may_recv, can_send) == WriteStep::Refuse) <==> is_shut_down(st),
        (drain_outcome(st, send_queue) == DrainStep::Refuse) <==> is_shut_down(st),
{
}

/// The second stage of a close finishes in exactly the states in which
/// reads and writes are refused, and it never fails.
pub proof fn lemma_shutdown_finishes_where_io_is_refused(st: TcpState, may_recv: bool, can_send: bool)
    ensures
        (shutdown_outcome(st) == Wait::<()>::Ready(Ok(()))) <==> (read_outcome(st, may_recv)
            == ReadStep::Refuse),
        (shutdown_outcome(st) == Wait::<()>::Ready(Ok(()))) <==> (write_outcome(
            st,
            may_recv,
            can_send,
        ) == WriteStep::Refuse),
        !(shutdown_outcome(st) is Ready && shutdown_outcome(st)->Ready_0 is Err),
{
}

/// The first stage of a close never closes the socket while bytes wait in
/// its transmit queue.
pub proof fn lemma_close_keeps_queued_bytes(st: TcpState, send_queue: usize)
    ensures
        send_queue > 0 ==> drain_outcome(st, send_queue) != DrainStep::CloseSocket,
{
}

/// A read that finishes with a count of bytes has read some, unless the
/// caller's buffer was empty.
pub proof fn lemma_read_makes_progress<E>(received: Result<usize, E>, buffer_len: usize)
    ensures
        read_result_outcome(received, buffer_len) is Ready && read_result_outcome(
            received,
            buffer_len,
        )->Ready_0 is Ok ==> read_result_outcome(received, buffer_len)->Ready_0->Ok_0 > 0
            || buffer_len == 0,
{
}

/// Whether a socket in state `st` can still carry a stream: every state
/// but `FinWait1`, `FinWait2`, `Closed`, `Closing` and `TimeWait`.
pub open spec fn carries_stream(st: TcpState) -> bool {
    st == TcpState::Listen || st == TcpState::SynSent || st == TcpState::SynReceived || st
        == TcpState::Established || st == TcpState::CloseWait || st == TcpState::LastAck
}

/// The first stage of a close tells the socket to close exactly when the
/// socket can still carry a stream and nothing waits to be sent; it waits
/// exactly when bytes are still queued on such a socket; otherwise it is
/// refused.
pub proof fn lemma_drain_closes_empty_open_socket(st: TcpState, send_queue: usize)
    ensures
        (drain_outcome(st, send_queue) == DrainStep::CloseSocket) <==> (carries_stream(st)
            && send_queue == 0),
        (drain_outcome(st, send_queue) == DrainStep::WaitForSend) <==> (carries_stream(st)
            && send_queue > 0),
        (drain_outcome(st, send_queue) == DrainStep::Refuse) <==> !carries_stream(st),
        carries_stream(st) ==> drain_outcome(st, 0) == DrainStep::CloseSocket,
{
}

/// A write on a socket that can still carry a stream, may still receive
/// and has room to send hands the bytes over; one that may no longer
/// receive writes nothing; one without room waits; and a write is refused
/// exactly where the socket can no longer carry a stream.
pub proof fn lemma_write_sends_when_it_can(st: TcpState, may_recv: bool, can_send: bool)
    ensures
        (write_outcome(st, may_recv, can_send) == WriteStep::Send) <==> (carries_stream(st)
            && may_recv && can_send),
        (write_outcome(st, may_recv, can_send) == WriteStep::WriteNothing) <==> (carries_stream(
            st,
        ) && !may_recv),
        (write_outcome(st, may_recv, can_send) == WriteStep::WaitForSend) <==> (carries_stream(
            st,
        ) && may_recv && !can_send),
        (write_outcome(st, may_recv, can_send) == WriteStep::Refuse) <==> !carries_stream(st),
{
}

/// A read reports exactly the count of bytes the socket handed over,
/// whenever that count is not zero or the buffer is empty; it waits only
/// where no byte came for a non-empty buffer, and fails with `Illegal`
/// exactly where the socket refused.
pub proof fn lemma_read_reports_what_it_took<E>(received: Result<usize, E>, buffer_len: usize)
    ensures
        received is Ok && (received->Ok_0 > 0 || buffer_len == 0) ==> read_result_outcome(
            received,
            buffer_len,
        ) == Wait::<usize>::Ready(Ok(received->Ok_0)),
        (read_result_outcome(received, buffer_len) == Wait::<usize>::ForRecv) <==> (received
            == Ok::<usize, E>(0) && buffer_len > 0),
        (read_result_outcome(received, buffer_len) == Wait::<usize>::Ready(
            Err(NetError::Illegal),
        )) <==> received is Err,
        forall|m: usize|
            read_result_outcome(received, buffer_len) == Wait::<usize>::Ready(Ok(m)) ==> received
                == Ok::<usize, E>(m),
{
}

} // verus!
