use vstd::prelude::*;

use std::sync::Arc;

use tokio::net::UdpSocket;
use tokio::sync::broadcast::Sender;

use crate::{CastMode, Datagram, SocketAddrV4};

verus! {

/// The largest payload of an IPv4 UDP datagram, and so the size of a pump's read buffer.
pub const MAX_DATAGRAM_SIZE: usize = 65507;

/// The read that a pump issues: a plain read on a socket tied to one peer, or a read that
/// also reports the source address.
#[derive(Clone, Copy, Debug, PartialEq, Eq, Structural)]
pub enum ReadKind {
    Connected,
    WithSender,
}

/// What one read on the socket gave.
#[derive(Clone, Copy, Debug, PartialEq, Eq, Structural)]
pub enum ReadOutcome {
    /// A plain read filled the first `n` bytes of the buffer.
    Connected(usize),
    /// A read filled the first `n` bytes of the buffer with bytes from this source.
    WithSender(usize, SocketAddrV4),
    /// The read failed; the pump goes on.
    Failed,
}

pub open spec fn read_kind_of(mode: CastMode) -> ReadKind {
    match mode {
        CastMode::Unicast(_) => ReadKind::Connected,
        _ => ReadKind::WithSender,
    }
}

/// Whether a read of `n` bytes into `buf` carries a datagram: at least one byte, and no
/// more than the buffer holds.
pub open spec fn carries(buf: Seq<u8>, n: nat) -> bool {
    0 < n && n <= buf.len()
}

/// The payload and sender that a read yields, if it yields a datagram at all: a failed read,
/// a read of zero bytes or one that reports more bytes than the buffer holds yields none. The sender of a unicast socket is its peer;
/// that of any other socket is the source that the read reported.
pub open spec fn frame(mode: CastMode, buf: Seq<u8>, outcome: ReadOutcome) -> Option<
    (Seq<u8>, SocketAddrV4),
> {
    match outcome {
        ReadOutcome::Failed => None,
        ReadOutcome::Connected(n) => match mode {
            CastMode::Unicast(peer) => if carries(buf, n as nat) {
                Some((buf.subrange(0, n as int), peer))
            } else {
                None
            },
            _ => None,
        },
        ReadOutcome::WithSender(n, source) => if carries(buf, n as nat) {
            Some(
                (
                    buf.subrange(0, n as int),
                    match mode {
                        CastMode::Unicast(peer) => peer,
                        _ => source,
                    },
                ),
            )
        } else {
            None
        },
    }
}

/// What is published for a read when `live` cursors are subscribed: nothing without a
/// cursor, else the datagram that the read yields.
pub open spec fn delivered(mode: CastMode, buf: Seq<u8>, outcome: ReadOutcome, live: nat) -> Option<
    (Seq<u8>, SocketAddrV4),
> {
    if live == 0 {
        None
    } else {
        frame(mode, buf, outcome)
    }
}

/// Whether `r` is the datagram described by `d`.
pub open spec fn is_datagram(r: Option<Datagram>, d: Option<(Seq<u8>, SocketAddrV4)>) -> bool {
    match d {
        None => r is None,
        Some(f) => r is Some && r->0.payload@ == f.0 && r->0.sender == f.1,
    }
}

/// The number of bytes that a read reports; none for a failed read.
pub open spec fn read_len(outcome: ReadOutcome) -> nat {
    match outcome {
        ReadOutcome::Connected(n) => n as nat,
        ReadOutcome::WithSender(n, _) => n as nat,
        ReadOutcome::Failed => 0,
    }
}

/// A read of `fresh.len()` bytes into a buffer whose remainder `stale` still holds an
/// earlier, longer payload yields a datagram of exactly the fresh bytes: nothing of the
/// earlier payload leaks into it. It yields one whenever a cursor is live, the read
/// succeeded with at least one byte, and a plain read is only used on a unicast socket.
pub proof fn lemma_no_stale_bytes(
    mode: CastMode,
    fresh: Seq<u8>,
    stale: Seq<u8>,
    outcome: ReadOutcome,
    live: nat,
)
    requires
        read_len(outcome) == fresh.len(),
    ensures
        delivered(mode, fresh + stale, outcome, live) matches Some(f) ==> f.0 == fresh
            && f.0.len() == fresh.len(),
        live > 0 && fresh.len() > 0 && outcome !is Failed && (outcome is Connected ==> mode is Unicast)
            ==> delivered(mode, fresh + stale, outcome, live) is Some,
{
    assert((fresh + stale).subrange(0, fresh.len() as int) =~= fresh);
}

/// The read a pump issues for a socket in `mode`.
pub fn read_kind(mode: &CastMode) -> (r: ReadKind)
    ensures
        r == read_kind_of(*mode),
{
    match mode {
        CastMode::Unicast(_) => ReadKind::Connected,
        _ => ReadKind::WithSender,
    }
}

/// A fresh copy of the first `n` bytes of `buf`.
fn copy_prefix(buf: &[u8], n: usize) -> (r: Vec<u8>)
    requires
        n <= buf@.len(),
    ensures
        r@ == buf@.subrange(0, n as int),
{
    let mut out: Vec<u8> = Vec::new();
    let mut i: usize = 0;
    while i < n
        invariant
            n <= buf@.len(),
            i <= n,
            out@ == buf@.subrange(0, i as int),
        decreases n - i,
    {
        out.push(buf[i]);
        i = i + 1;
    }
    out
}

/// The datagram to publish for one read into `buf` while `live_receivers` cursors are
/// subscribed. Its payload holds exactly the bytes read, never what an earlier, longer read
/// left further on in the buffer.
pub fn datagram_from_read(
    mode: &CastMode,
    buf: &[u8],
    outcome: &ReadOutcome,
    live_receivers: usize,
) -> (r: Option<Datagram>)
    ensures
        is_datagram(r, delivered(*mode, buf@, *outcome, live_receivers as nat)),
{
    if live_receivers == 0 {
        return None;
    }
    match outcome {
        ReadOutcome::Failed => None,
        ReadOutcome::Connected(n) => match mode {
            CastMode::Unicast(peer) => if 0 < *n && *n <= buf.len() {
                Some(Datagram { payload: copy_prefix(buf, *n), sender: *peer })
            } else {
                None
            },
            _ => None,
        },
        ReadOutcome::WithSender(n, source) => if 0 < *n && *n <= buf.len() {
            let sender = match mode {
                CastMode::Unicast(peer) => *peer,
                _ => *source,
            };
            Some(Datagram { payload: copy_prefix(buf, *n), sender })
        } else {
            None
        },
    }
}

/// A zeroed read buffer of `MAX_DATAGRAM_SIZE` bytes, for one pump alone.
pub fn receive_buffer() -> (r: Vec<u8>)
    ensures
        r@.len() == MAX_DATAGRAM_SIZE,
        forall|i: int| 0 <= i < r@.len() ==> r@[i] == 0,
{
    vec![0u8; MAX_DATAGRAM_SIZE]
}

/// A reading loop's share of a connection: its socket, its mode, and the publishing side of
/// its channel. The loop reads into a buffer of its own and hands each outcome to `handle`.
pub struct Pump {
    mode: CastMode,
    tx: Sender<Datagram>,
    socket: Arc<UdpSocket>,
}

impl Pump {
    pub closed spec fn cast_mode(&self) -> CastMode {
        self.mode
    }

    pub closed spec fn socket_spec(&self) -> Arc<UdpSocket> {
        self.socket
    }

    /// The sender that the pump publishes with.
    pub closed spec fn sender_spec(&self) -> Sender<Datagram> {
        self.tx
    }

    pub fn new(mode: CastMode, tx: Sender<Datagram>, socket: Arc<UdpSocket>) -> (r: Pump)
        ensures
            r.cast_mode() == mode,
            r.socket_spec() == socket,
            r.sender_spec() == tx,
    {
        Pump { mode, tx, socket }
    }

    pub fn mode(&self) -> (r: CastMode)
        ensures
            r == self.cast_mode(),
    {
        self.mode
    }

    /// The socket the loop reads from.
    pub fn socket(&self) -> (r: &Arc<UdpSocket>)
        ensures
            *r == self.socket_spec(),
    {
        &self.socket
    }

    /// The read to issue on the socket.
    pub fn read_kind(&self) -> (r: ReadKind)
        ensures
            r == read_kind_of(self.cast_mode()),
    {
        read_kind(&self.mode)
    }

    /// Publishes the datagram that one read yields, if there is one and a cursor is live at
    /// that moment; with no cursor the bytes are dropped. A failed read publishes nothing and
    /// is no reason to stop. Returns whether a datagram was handed to the channel.
    pub fn handle(&self, buf: &[u8], outcome: &ReadOutcome) -> (published: bool)
        ensures
            published ==> frame(self.cast_mode(), buf@, *outcome) is Some,
            frame(self.cast_mode(), buf@, *outcome) is None ==> !published,
    {
        let live = self.tx.receiver_count();
        match datagram_from_read(&self.mode, buf, outcome, live) {
            Some(d) => {
                let _ = self.tx.send(d);
                true
            },
            None => false,
        }
    }
}

} // verus!
