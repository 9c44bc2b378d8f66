use vstd::prelude::*;

use std::sync::Arc;

use tokio::net::UdpSocket;
use tokio::sync::broadcast::{Receiver, Sender};

use crate::fanout::{clone_sender, on_channel, shares_channel, subscribe_on};
use crate::pump::Pump;
use crate::{Datagram, IpConfigV4};

verus! {

#[verifier::external_type_specification]
#[verifier::external_body]
pub struct ExUdpSocket(UdpSocket);

/// Relies on std's `Arc::clone`: another pointer to the same socket.
#[verifier::external_body]
pub(crate) fn share_socket(socket: &Arc<UdpSocket>) -> (r: Arc<UdpSocket>)
    ensures
        r == *socket,
{
    Arc::clone(socket)
}

/// One logical socket: its identity, the socket it reads and sends through, and the
/// publishing side of the channel that fans its datagrams out to subscribers.
pub struct Connection {
    config: IpConfigV4,
    tx: Sender<Datagram>,
    pub socket: Arc<UdpSocket>,
}

impl Connection {
    /// The identity this connection serves.
    pub closed spec fn identity(&self) -> IpConfigV4 {
        self.config
    }

    /// The socket this connection reads and sends through.
    pub closed spec fn socket_spec(&self) -> Arc<UdpSocket> {
        self.socket
    }

    /// The publishing side of this connection's channel.
    pub closed spec fn sender_spec(&self) -> Sender<Datagram> {
        self.tx
    }

    /// Assembles a connection from a socket already set up for `ip_config` and the
    /// publishing side of its channel.
    pub fn new(ip_config: &IpConfigV4, tx: Sender<Datagram>, socket: Arc<UdpSocket>) -> (r:
        Connection)
        ensures
            r.identity() == *ip_config,
            r.socket_spec() == socket,
            r.sender_spec() == tx,
    {
        Connection { config: *ip_config, tx, socket }
    }

    pub fn config(&self) -> (r: IpConfigV4)
        ensures
            r == self.identity(),
    {
        self.config
    }

    /// The socket, for sending through this connection's identity.
    pub fn socket(&self) -> (r: &Arc<UdpSocket>)
        ensures
            *r == self.socket_spec(),
    {
        &self.socket
    }

    /// A new cursor on this connection's channel. It starts at the present: it sees only
    /// datagrams published after this call, never earlier ones.
    pub fn subscribe(&self) -> (r: Receiver<Datagram>)
        ensures
            on_channel(r, self.sender_spec()),
    {
        subscribe_on(&self.tx)
    }

    /// The share of this connection that its reading loop needs: its mode, its socket, and
    /// a sender on its channel.
    pub fn pump(&self) -> (r: Pump)
        ensures
            r.cast_mode() == self.identity().cast_mode,
            r.socket_spec() == self.socket_spec(),
            shares_channel(r.sender_spec(), self.sender_spec()),
    {
        Pump::new(self.config.cast_mode, clone_sender(&self.tx), share_socket(&self.socket))
    }
}

} // verus!
