use hermit_sys::network::{
    poll_again, tcp_socket_buffer, NetworkState, DEFAULT_KEEP_ALIVE_INTERVAL, TCP_BUFFER_SIZE,
};
use hermit_sys::state::NetError;
use hermit_sys::stream::{
    shutdown_action, stream_result, sys_tcp_stream_get_read_timeout, sys_tcp_stream_get_tll,
    sys_tcp_stream_get_write_timeout, sys_tcp_stream_peek, sys_tcp_stream_set_nonblocking,
    sys_tcp_stream_set_read_timeout, sys_tcp_stream_set_tll, sys_tcp_stream_set_write_timeout,
    Handle, ShutdownAction,
};
use smoltcp::socket::{SocketSet, TcpSocket, TcpSocketBuffer};

fn some_handle() -> Handle {
    let mut set = SocketSet::new(vec![]);
    set.add(TcpSocket::new(TcpSocketBuffer::new(vec![0; 8]), TcpSocketBuffer::new(vec![0; 8])))
}

#[test]
fn as_nic_mut_gives_the_interface() {
    let mut state: NetworkState<u32> = NetworkState::Initialized(3);
    *state.as_nic_mut().unwrap() += 1;
    assert!(matches!(state, NetworkState::Initialized(4)));
}

#[test]
fn as_nic_mut_refuses_without_interface() {
    let mut missing: NetworkState<u32> = NetworkState::Missing;
    assert_eq!(missing.as_nic_mut().unwrap_err(), "Network is not initialized!");
    let mut failed: NetworkState<u32> = NetworkState::InitializationFailed;
    assert_eq!(failed.as_nic_mut().unwrap_err(), "Network is not initialized!");
}

#[test]
fn polling_stops_only_when_nothing_happened() {
    assert!(poll_again::<()>(Ok(true)));
    assert!(!poll_again::<()>(Ok(false)));
    assert!(poll_again(Err(smoltcp::Error::Dropped)));
}

#[test]
fn socket_buffers() {
    let b = tcp_socket_buffer();
    assert_eq!(b.len(), 65535);
    assert_eq!(TCP_BUFFER_SIZE, 65535);
    assert!(b.iter().all(|x| *x == 0));
    assert_eq!(DEFAULT_KEEP_ALIVE_INTERVAL, 75000);
}

#[test]
fn unsupported_calls_fail() {
    let h = some_handle();
    assert_eq!(sys_tcp_stream_set_read_timeout(h, Some(10)), Err(()));
    assert_eq!(sys_tcp_stream_get_read_timeout(h), Err(()));
    assert_eq!(sys_tcp_stream_set_write_timeout(h, None), Err(()));
    assert_eq!(sys_tcp_stream_get_write_timeout(h), Err(()));
    assert_eq!(sys_tcp_stream_set_tll(h, 64), Err(()));
    assert_eq!(sys_tcp_stream_get_tll(h), Err(()));
    let mut buf = [7u8; 4];
    assert_eq!(sys_tcp_stream_peek(h, &mut buf), Err(()));
    assert_eq!(buf, [7u8; 4]);
}

#[test]
#[allow(deprecated)]
fn duplicate_fails() {
    let h = some_handle();
    assert!(hermit_sys::stream::sys_tcp_stream_duplicate(h).is_err());
}

#[test]
fn only_blocking_mode() {
    let h = some_handle();
    assert_eq!(sys_tcp_stream_set_nonblocking(h, false), Ok(()));
    assert_eq!(sys_tcp_stream_set_nonblocking(h, true), Err(()));
}

#[test]
fn shutdown_actions() {
    assert_eq!(shutdown_action(0), ShutdownAction::Nothing);
    assert_eq!(shutdown_action(1), ShutdownAction::CloseStream);
    assert_eq!(shutdown_action(2), ShutdownAction::CloseStream);
    assert_eq!(shutdown_action(1), shutdown_action(2));
}

#[test]
fn stream_results() {
    assert_eq!(stream_result::<usize>(Ok(Ok(3))), Ok(3));
    assert_eq!(stream_result::<usize>(Ok(Err(NetError::Illegal))), Err(()));
    assert_eq!(stream_result::<usize>(Err(())), Err(()));
}
