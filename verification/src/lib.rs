//! The decision logic of a small TCP stream layer on top of the smoltcp
//! network stack: how each blocking socket operation reacts to what the
//! socket reports, how local ports are handed out, how addresses from the
//! caller and from DHCP are taken in, and the stream calls that need no
//! socket at all.
pub mod state;
pub mod socket_ops;
pub mod address;
pub mod endpoint;
pub mod network;
pub mod stream;
pub mod tcp;
