//! Plain-value models of what the network stack reports about a TCP socket.
use vstd::prelude::*;

verus! {

/// The state of a TCP connection, as in the TCP state machine of RFC 793.
#[derive(Clone, Copy, Debug, PartialEq, Eq, Structural)]
pub enum TcpState {
    Closed,
    Listen,
    SynSent,
    SynReceived,
    Established,
    FinWait1,
    FinWait2,
    CloseWait,
    Closing,
    LastAck,
    TimeWait,
}

/// The errors that the stream operations report.
#[derive(Clone, Copy, Debug, PartialEq, Eq, Structural)]
pub enum NetError {
    /// The operation is not permitted in the socket's state, or the request
    /// was malformed.
    Illegal,
    /// The peer could not be reached.
    Unaddressable,
}

/// The states in which the stream layer no longer reads, writes or starts
/// to close: the local side has sent its FIN, or the connection is gone.
pub open spec fn is_shut_down(st: TcpState) -> bool {
    match st {
        TcpState::FinWait1 | TcpState::FinWait2 | TcpState::Closed | TcpState::Closing
        | TcpState::TimeWait => true,
        _ => false,
    }
}

/// Tells whether `st` is one of the states of [`is_shut_down`].
pub fn shut_down(st: TcpState) -> (r: bool)
    ensures
        r == is_shut_down(st),
{
    match st {
        TcpState::FinWait1 | TcpState::FinWait2 | TcpState::Closed | TcpState::Closing
        | TcpState::TimeWait => true,
        _ => false,
    }
}

/// Whether a socket in state `st` is open: it handles packets, as in every
/// state but `Closed` and `TimeWait`.
pub open spec fn is_open_state(st: TcpState) -> bool {
    !(st == TcpState::Closed || st == TcpState::TimeWait)
}

/// Whether a connection in state `st` is active: it exchanges packets with
/// a peer, as in every state but `Closed`, `TimeWait` and `Listen`.
pub open spec fn is_active_state(st: TcpState) -> bool {
    !(st == TcpState::Closed || st == TcpState::TimeWait || st == TcpState::Listen)
}

/// Whether the transmit half of a connection in state `st` is open:
/// `Established` or `CloseWait`.
pub open spec fn may_send_state(st: TcpState) -> bool {
    st == TcpState::Established || st == TcpState::CloseWait
}

/// Whether the receive half of a connection in state `st` is open:
/// `Established`, `FinWait1` or `FinWait2`.
pub open spec fn receives_in_state(st: TcpState) -> bool {
    st == TcpState::Established || st == TcpState::FinWait1 || st == TcpState::FinWait2
}

/// The state a socket in state `st` goes to when told to close its
/// transmit half: a connection not yet synchronized closes at once, an open
/// transmit half sends its FIN, and a closed one stays as it is.
pub open spec fn close_transition(st: TcpState) -> TcpState {
    match st {
        TcpState::Listen | TcpState::SynSent => TcpState::Closed,
        TcpState::SynReceived | TcpState::Established => TcpState::FinWait1,
        TcpState::CloseWait => TcpState::LastAck,
        _ => st,
    }
}

} // verus!
