use vstd::prelude::*;

pub mod address;
pub mod connection;
pub mod fanout;
pub mod pump;
pub mod setup;
pub mod udpmanager;

pub use address::{Ipv4Addr, SocketAddrV4};

verus! {

/// One datagram as read from a socket: the bytes actually read and where they came from.
#[derive(Clone, Debug)]
pub struct Datagram {
    pub payload: Vec<u8>,
    pub sender: SocketAddrV4,
}

/// The group to join and the local interface to join it on.
#[derive(Clone, Copy, Debug, PartialEq, Eq, Structural, Hash)]
pub struct MulticastConfig {
    pub group: Ipv4Addr,
    pub interface: Ipv4Addr,
}

/// How a socket is used: tied to one peer, broadcast-enabled, or joined to a multicast group.
#[derive(Clone, Copy, Debug, PartialEq, Eq, Structural, Hash)]
pub enum CastMode {
    Unicast(SocketAddrV4),
    Broadcast,
    Multicast(MulticastConfig),
}

/// The identity of one logical socket: its mode and the local address it is bound to.
/// Two identities are the same socket exactly when both parts are equal.
#[derive(Clone, Copy, Debug, PartialEq, Eq, Structural, Hash)]
pub struct IpConfigV4 {
    pub cast_mode: CastMode,
    pub bind_addr: SocketAddrV4,
}

} // verus!
