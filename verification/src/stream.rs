//! The stream calls that answer without touching a socket, and the plan of
//! a shutdown.
use vstd::prelude::*;
use smoltcp::socket::SocketHandle;
use crate::state::NetError;

verus! {

/// smoltcp's handle of a socket in its socket set; it is only carried
/// through here.
#[verifier::external_type_specification]
#[verifier::external_body]
pub struct ExSocketHandle(SocketHandle);

/// The handle by which callers name a stream.
pub type Handle = SocketHandle;

/// Read timeouts are not supported: always an error.
pub fn sys_tcp_stream_set_read_timeout(_handle: Handle, _timeout: Option<u64>) -> (r: Result<(), ()>)
    ensures
        r is Err,
{
    Err(())
}

/// Read timeouts are not supported: always an error.
pub fn sys_tcp_stream_get_read_timeout(_handle: Handle) -> (r: Result<Option<u64>, ()>)
    ensures
        r is Err,
{
    Err(())
}

/// Write timeouts are not supported: always an error.
pub fn sys_tcp_stream_set_write_timeout(_handle: Handle, _timeout: Option<u64>) -> (r: Result<
    (),
    (),
>)
    ensures
        r is Err,
{
    Err(())
}

/// Write timeouts are not supported: always an error.
pub fn sys_tcp_stream_get_write_timeout(_handle: Handle) -> (r: Result<Option<u64>, ()>)
    ensures
        r is Err,
{
    Err(())
}

/// Streams cannot be duplicated: always an error.
/// Deprecated since 0.1.14: please do not use it.
pub fn sys_tcp_stream_duplicate(_handle: Handle) -> (r: Result<Handle, ()>)
    ensures
        r is Err,
{
    Err(())
}

/// Peeking is not supported: always an error, and the buffer is left as it
/// was.
pub fn sys_tcp_stream_peek(_handle: Handle, _buf: &mut [u8]) -> (r: Result<usize, ()>)
    ensures
        r is Err,
        final(_buf)@ == old(_buf)@,
{
    Err(())
}

/// Only blocking mode is supported: asking for it succeeds, asking for
/// non-blocking mode is an error.
pub fn sys_tcp_stream_set_nonblocking(_handle: Handle, mode: bool) -> (r: Result<(), ()>)
    ensures
        r is Err <==> mode,
{
    if mode {
        Err(())
    } else {
        Ok(())
    }
}

/// Setting the time-to-live is not supported: always an error.
pub fn sys_tcp_stream_set_tll(_handle: Handle, _ttl: u32) -> (r: Result<(), ()>)
    ensures
        r is Err,
{
    Err(())
}

/// Reading the time-to-live is not supported: always an error.
pub fn sys_tcp_stream_get_tll(_handle: Handle) -> (r: Result<u32, ()>)
    ensures
        r is Err,
{
    Err(())
}

/// What a blocking stream call returns to its caller, from the outcome of
/// running its operation: the operation's value where it ran and
/// succeeded; an error, with no detail, where it could not run or failed.
pub fn stream_result<T>(outcome: Result<Result<T, NetError>, ()>) -> (r: Result<T, ()>)
    ensures
        match outcome {
            Ok(Ok(v)) => r == Ok::<T, ()>(v),
            _ => r == Err::<T, ()>(()),
        },
{
    match outcome {
        Ok(Ok(v)) => Ok(v),
        _ => Err(()),
    }
}

/// What a shutdown does to the stream.
#[derive(Clone, Copy, Debug, PartialEq, Eq, Structural)]
pub enum ShutdownAction {
    /// Nothing: shutting down the read half is not supported, and it
    /// succeeds without effect.
    Nothing,
    /// Close the stream, as `sys_tcp_stream_close` does.
    CloseStream,
}

/// The action of a shutdown with code `how`: 0 shuts down reading, 1
/// writing, 2 both. Shutting down writing and shutting down both do the
/// same: they close the stream.
pub fn shutdown_action(how: i32) -> (r: ShutdownAction)
    requires
        0 <= how <= 2,
    ensures
        how == 0 ==> r == ShutdownAction::Nothing,
        how != 0 ==> r == ShutdownAction::CloseStream,
{
    if how == 0 {
        ShutdownAction::Nothing
    } else {
        ShutdownAction::CloseStream
    }
}

} // verus!
