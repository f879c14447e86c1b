//! The state of the network interface, and the decisions of the loop that
//! drives it.
use vstd::prelude::*;

verus! {

/// Keep-alive interval of accepted connections, in milliseconds.
pub const DEFAULT_KEEP_ALIVE_INTERVAL: u64 = 75000;

/// Size in bytes of the receive and of the transmit buffer of each TCP
/// socket.
pub const TCP_BUFFER_SIZE: usize = 65535;

/// Whether the network interface was found and set up.
pub enum NetworkState<N> {
    /// No network device was found.
    Missing,
    /// A device was found but could not be set up.
    InitializationFailed,
    /// The interface is up.
    Initialized(N),
}

/// The message of the error that every use of an interface that is not up
/// gets.
pub open spec fn not_initialized_message() -> Seq<char> {
    "Network is not initialized!"@
}

impl<N> NetworkState<N> {
    /// The interface, where it is up; otherwise an error that says the
    /// network is not initialized.
    pub fn as_nic_mut(&mut self) -> (r: Result<&mut N, &'static str>)
        ensures
            ((*old(self)) is Initialized) <==> (r is Ok),
            (*old(self)) is Initialized ==> *(r->Ok_0) == (*old(self))->Initialized_0
                && *final(self) == NetworkState::Initialized(*final(r->Ok_0)),
            !((*old(self)) is Initialized) ==> r->Err_0@ == not_initialized_message()
                && *final(self) == *old(self),
    {
        match self {
            NetworkState::Initialized(nic) => Ok(nic),
            _ => Err("Network is not initialized!"),
        }
    }
}

/// Whether the loop that drives the interface polls it again after a poll
/// that gave `polled`: as long as the poll reports work done, and after a
/// failed poll.
pub fn poll_again<E>(polled: Result<bool, E>) -> (r: bool)
    ensures
        r == !(polled == Ok::<bool, E>(false)),
{
    match polled {
        Ok(progress) => progress,
        Err(_) => true,
    }
}

/// A zero-filled buffer for one direction of a TCP socket.
pub fn tcp_socket_buffer() -> (r: Vec<u8>)
    ensures
        r@.len() == TCP_BUFFER_SIZE,
        forall|i: int| 0 <= i < r@.len() ==> r@[i] == 0,
{
    let mut buffer: Vec<u8> = Vec::with_capacity(TCP_BUFFER_SIZE);
    while buffer.len() < TCP_BUFFER_SIZE
        invariant
            buffer@.len() <= TCP_BUFFER_SIZE,
            forall|i: int| 0 <= i < buffer@.len() ==> buffer@[i] == 0,
        decreases TCP_BUFFER_SIZE - buffer@.len(),
    {
        buffer.push(0);
    }
    buffer
}

} // verus!
