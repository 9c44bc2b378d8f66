use vstd::prelude::*;

use tokio::sync::broadcast::error::SendError;
use tokio::sync::broadcast::{Receiver, Sender};

use crate::Datagram;

verus! {

#[verifier::external_type_specification]
#[verifier::external_body]
#[verifier::reject_recursive_types(T)]
pub struct ExSender<T>(Sender<T>);

#[verifier::external_type_specification]
#[verifier::external_body]
#[verifier::reject_recursive_types(T)]
pub struct ExReceiver<T>(Receiver<T>);

#[verifier::external_type_specification]
#[verifier::external_body]
#[verifier::reject_recursive_types(T)]
pub struct ExSendError<T>(SendError<T>);

/// Relies on tokio's `broadcast::channel`: it asserts that the capacity is above zero and
/// at most `usize::MAX >> 1`, and otherwise returns a connected sender and receiver.
pub assume_specification<T: Clone>[ tokio::sync::broadcast::channel::<T> ](capacity: usize) -> (
    Sender<T>,
    Receiver<T>,
)
    requires
        0 < capacity,
        capacity <= usize::MAX / 2,
;

/// Relies on tokio's `Sender::receiver_count`: the number of live cursors at the moment of
/// the call, which other tasks change at any time.
pub assume_specification<T>[ Sender::<T>::receiver_count ](tx: &Sender<T>) -> usize;

/// Relies on tokio's `Sender::send`: it hands the value to every live cursor, or returns it
/// in the error when there is none at that moment.
pub assume_specification<T>[ Sender::<T>::send ](tx: &Sender<T>, value: T) -> Result<
    usize,
    SendError<T>,
>;

/// That cursor `rx` reads the channel that `tx` publishes to.
pub uninterp spec fn on_channel(rx: Receiver<Datagram>, tx: Sender<Datagram>) -> bool;

/// That senders `a` and `b` publish to one and the same channel.
pub uninterp spec fn shares_channel(a: Sender<Datagram>, b: Sender<Datagram>) -> bool;

/// Relies on tokio's `Sender::subscribe`: the new cursor is built on the sender's own channel
/// and sees only what is sent after the call. What it will hold then depends on other tasks,
/// so only the channel is stated. It panics only once `usize::MAX >> 2` cursors are live.
#[verifier::external_body]
pub(crate) fn subscribe_on(tx: &Sender<Datagram>) -> (r: Receiver<Datagram>)
    ensures
        on_channel(r, *tx),
{
    tx.subscribe()
}

/// Relies on tokio's `Clone` for `Sender`: another handle on the same channel.
#[verifier::external_body]
pub(crate) fn clone_sender(tx: &Sender<Datagram>) -> (r: Sender<Datagram>)
    ensures
        shares_channel(r, *tx),
{
    tx.clone()
}

/// Capacity of a connection's channel when the caller names none: the largest `u16`.
pub const DEFAULT_CHANNEL_CAPACITY: usize = 65535;

/// The capacities that a channel can be created with.
pub open spec fn valid_capacity(capacity: usize) -> bool {
    0 < capacity && capacity <= usize::MAX / 2
}

/// Whether a channel can be created with `capacity`.
pub fn is_valid_capacity(capacity: usize) -> (r: bool)
    ensures
        r == valid_capacity(capacity),
{
    0 < capacity && capacity <= usize::MAX / 2
}

/// The capacity that a new connection's channel gets for a requested one.
pub open spec fn capacity_for(channel_size: Option<usize>) -> usize {
    match channel_size {
        Some(n) => n,
        None => DEFAULT_CHANNEL_CAPACITY,
    }
}

/// The capacity that a new connection's channel gets: the one requested, else the default.
pub fn channel_capacity(channel_size: Option<usize>) -> (r: usize)
    ensures
        r == capacity_for(channel_size),
        channel_size is None ==> valid_capacity(r),
{
    match channel_size {
        Some(n) => n,
        None => DEFAULT_CHANNEL_CAPACITY,
    }
}

} // verus!
