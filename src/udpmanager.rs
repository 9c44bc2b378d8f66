use vstd::prelude::*;

use std::sync::Arc;

use tokio::net::UdpSocket;
use tokio::sync::broadcast::Receiver;

use crate::connection::{share_socket, Connection};
use crate::fanout::{capacity_for, channel_capacity, on_channel, shares_channel, valid_capacity};
use crate::pump::Pump;
use crate::setup::{setup_plan, socket_setup, SetupStep};
use crate::{Datagram, IpConfigV4};

verus! {

/// The identities cached after a subscription to `cfg` has completed: a new identity is
/// added at the end, a known one changes nothing.
pub open spec fn cached_after(ids: Seq<IpConfigV4>, cfg: IpConfigV4) -> Seq<IpConfigV4> {
    if ids.contains(cfg) {
        ids
    } else {
        ids.push(cfg)
    }
}

/// Structurally equal identities share one connection: once a subscription to `a` has
/// completed, a subscription to `b` finds `a`'s connection and adds nothing, so a fresh
/// manager counts one identity after both.
pub proof fn lemma_identity_dedup(ids: Seq<IpConfigV4>, a: IpConfigV4, b: IpConfigV4)
    requires
        a == b,
    ensures
        cached_after(ids, a).contains(b),
        cached_after(cached_after(ids, a), b) == cached_after(ids, a),
        cached_after(cached_after(Seq::empty(), a), b).len() == 1,
{
    assert(cached_after(ids, a).contains(a)) by {
        if !ids.contains(a) {
            assert(ids.push(a)[ids.len() as int] == a);
        }
    }
    let one = cached_after(Seq::<IpConfigV4>::empty(), a);
    assert(one.contains(a)) by {
        assert(one[0] == a);
    }
}

/// Identities that differ in mode (for multicast, in group or interface) or in bind address
/// get connections of their own: from a state that caches neither, subscribing to both adds
/// two identities to the count.
pub proof fn lemma_identity_distinct(ids: Seq<IpConfigV4>, a: IpConfigV4, b: IpConfigV4)
    requires
        a.cast_mode != b.cast_mode || a.bind_addr != b.bind_addr,
        !ids.contains(a),
        !ids.contains(b),
    ensures
        !cached_after(ids, a).contains(b),
        cached_after(cached_after(ids, a), b).len() == ids.len() + 2,
{
    assert(a != b);
    let after_a = ids.push(a);
    assert(!after_a.contains(b)) by {
        if after_a.contains(b) {
            let j = choose|j: int| 0 <= j < after_a.len() && after_a[j] == b;
            if j < ids.len() {
                assert(ids[j] == b);
            }
        }
    }
}

/// What a subscription needs next.
pub enum Subscription {
    /// The identity had a connection: here is a new cursor on it.
    Ready(Receiver<Datagram>),
    /// The identity has no connection yet: set up a socket by these steps, then hand it to
    /// `UdpManager::attach` with this channel capacity.
    Open { steps: Vec<SetupStep>, capacity: usize },
}

/// A cache from identity to connection, with at most one connection per identity.
pub struct UdpManager {
    connections: Vec<Connection>,
}

impl View for UdpManager {
    type V = Seq<IpConfigV4>;

    /// The cached identities, oldest first.
    closed spec fn view(&self) -> Seq<IpConfigV4> {
        self.connections@.map_values(|c: Connection| c.identity())
    }
}

impl UdpManager {
    /// Well-formed: at most one connection per identity.
    pub open spec fn wf(&self) -> bool {
        self@.no_duplicates()
    }

    /// The cached connection at position `i`; its identity is `self@[i]`.
    pub closed spec fn connection(&self, i: int) -> Connection {
        self.connections@[i]
    }

    /// The connection cached for `cfg`, when `self@` contains it.
    pub open spec fn connection_for(&self, cfg: IpConfigV4) -> Connection {
        self.connection(self@.index_of(cfg))
    }

    /// Every connection of `old` is still at its position in `self`.
    pub open spec fn keeps(&self, old: &UdpManager) -> bool {
        &&& old@.len() <= self@.len()
        &&& forall|i: int| 0 <= i < old@.len() ==> #[trigger] self.connection(i) == old.connection(i)
    }

    proof fn lemma_position(&self, cfg: IpConfigV4, i: int)
        requires
            self.wf(),
            0 <= i < self@.len(),
            self@[i] == cfg,
        ensures
            self@.index_of(cfg) == i,
            self.connection_for(cfg) == self.connections@[i],
    {
        let j = self@.index_of(cfg);
        assert(0 <= j < self@.len() && self@[j] == cfg);
    }

    pub fn new() -> (r: UdpManager)
        ensures
            r@ == Seq::<IpConfigV4>::empty(),
            r.wf(),
    {
        let r = UdpManager { connections: Vec::new() };
        assert(r@ =~= Seq::<IpConfigV4>::empty());
        r
    }

    /// The position of `cfg`'s connection, if it has one.
    fn find(&self, cfg: &IpConfigV4) -> (r: Option<usize>)
        ensures
            r matches Some(i) ==> i < self@.len() && self@[i as int] == *cfg
                && i < self.connections@.len(),
            r is None ==> !self@.contains(*cfg),
    {
        let mut i: usize = 0;
        while i < self.connections.len()
            invariant
                i <= self.connections@.len(),
                self@.len() == self.connections@.len(),
                forall|j: int| 0 <= j < i ==> self@[j] != *cfg,
            decreases self.connections@.len() - i,
        {
            if self.connections[i].config() == *cfg {
                return Some(i);
            }
            i = i + 1;
        }
        None
    }

    /// The number of distinct identities cached.
    pub fn count(&self) -> (r: usize)
        ensures
            r == self@.len(),
    {
        self.connections.len()
    }

    /// The socket of `config`'s connection, for sending through it; `None` when the identity
    /// has none.
    pub fn get_socket(&self, config: &IpConfigV4) -> (r: Option<Arc<UdpSocket>>)
        ensures
            r is Some <==> self@.contains(*config),
            r matches Some(s) ==> self.wf() ==> s == self.connection_for(*config).socket_spec(),
    {
        match self.find(config) {
            Some(i) => {
                let s = share_socket(self.connections[i].socket());
                proof {
                    if self.wf() {
                        self.lemma_position(*config, i as int);
                    }
                }
                Some(s)
            },
            None => None,
        }
    }

    /// Subscribes to `ip_config`. With a cached connection this returns a new cursor on it,
    /// and `channel_size` is ignored: the channel keeps the capacity it was made with. Without
    /// one it returns the socket setup to perform and the capacity of the channel to create,
    /// `channel_size` or else the default. The cache itself does not change.
    pub fn subscribe(&mut self, ip_config: &IpConfigV4, channel_size: Option<usize>) -> (r:
        Subscription)
        requires
            old(self).wf(),
        ensures
            final(self).wf(),
            *final(self) == *old(self),
            r is Ready <==> old(self)@.contains(*ip_config),
            r matches Subscription::Ready(rx) ==> on_channel(
                rx,
                old(self).connection_for(*ip_config).sender_spec(),
            ),
            r matches Subscription::Open { steps, capacity } ==> steps@ == setup_plan(*ip_config)
                && capacity == capacity_for(channel_size),
    {
        match self.find(ip_config) {
            Some(i) => {
                let rx = self.connections[i].subscribe();
                proof {
                    self.lemma_position(*ip_config, i as int);
                }
                Subscription::Ready(rx)
            },
            None => Subscription::Open {
                steps: socket_setup(ip_config),
                capacity: channel_capacity(channel_size),
            },
        }
    }

    /// Completes a subscription to `ip_config` with a socket set up for it. When the identity
    /// has no connection yet, a channel of `capacity` is created, the connection is cached,
    /// and its pump is returned for the caller to run. When it has one, the socket is dropped
    /// and no pump is returned. Either way the result holds a new cursor on the identity's
    /// connection.
    pub fn attach(&mut self, ip_config: &IpConfigV4, capacity: usize, socket: Arc<UdpSocket>) -> (r:
        (Receiver<Datagram>, Option<Pump>))
        requires
            old(self).wf(),
            !old(self)@.contains(*ip_config) ==> valid_capacity(capacity),
        ensures
            final(self).wf(),
            final(self)@ == cached_after(old(self)@, *ip_config),
            final(self).keeps(&*old(self)),
            on_channel(r.0, final(self).connection_for(*ip_config).sender_spec()),
            r.1 is Some <==> !old(self)@.contains(*ip_config),
            r.1 matches Some(p) ==> {
                let conn = final(self).connection_for(*ip_config);
                &&& p.cast_mode() == ip_config.cast_mode
                &&& p.socket_spec() == socket
                &&& conn.socket_spec() == socket
                &&& shares_channel(p.sender_spec(), conn.sender_spec())
            },
    {
        match self.find(ip_config) {
            Some(i) => {
                let rx = self.connections[i].subscribe();
                proof {
                    self.lemma_position(*ip_config, i as int);
                }
                (rx, None)
            },
            None => {
                let (tx, _) = tokio::sync::broadcast::channel::<Datagram>(capacity);
                let conn = Connection::new(ip_config, tx, socket);
                let pump = conn.pump();
                let rx = conn.subscribe();
                let ghost before = self@;
                let ghost old_self = *self;
                let ghost n = self.connections@.len();
                self.connections.push(conn);
                assert(self@ =~= before.push(*ip_config));
                assert(self.connection(n as int) == conn);
                proof {
                    self.lemma_position(*ip_config, n as int);
                }
                assert(self.keeps(&old_self));
                (rx, Some(pump))
            },
        }
    }
}

/// Subscribing to one identity leaves every other identity's connection as it was: a
/// connection cached before is still cached, with the same socket and the same channel.
pub proof fn lemma_kept_connection(new: &UdpManager, old: &UdpManager, cfg: IpConfigV4)
    requires
        old.wf(),
        new.wf(),
        new.keeps(old),
        old@.contains(cfg),
    ensures
        new@.contains(cfg),
        new.connection_for(cfg) == old.connection_for(cfg),
{
    let i = old@.index_of(cfg);
    assert(0 <= i < old@.len() && old@[i] == cfg);
    assert(new.connection(i) == old.connection(i));
    assert(new@[i] == cfg);
    new.lemma_position(cfg, i);
    old.lemma_position(cfg, i);
}

impl Default for UdpManager {
    fn default() -> (r: UdpManager)
        ensures
            r@ == Seq::<IpConfigV4>::empty(),
            r.wf(),
    {
        UdpManager::new()
    }
}

} // verus!
