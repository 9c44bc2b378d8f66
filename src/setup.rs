use vstd::prelude::*;

use crate::{CastMode, IpConfigV4, MulticastConfig, SocketAddrV4};

verus! {

/// One step in bringing up the socket of an identity, in the order it must be applied.
#[derive(Clone, Copy, Debug, PartialEq, Eq, Structural)]
pub enum SetupStep {
    /// Set `SO_REUSEADDR`, so that identities sharing a port can coexist.
    ReuseAddress,
    /// Put the socket in non-blocking mode.
    Nonblocking,
    /// Bind to this local address.
    Bind(SocketAddrV4),
    /// Associate the socket with its single peer; reads then see only that peer.
    Connect(SocketAddrV4),
    /// Allow sending to and receiving from the broadcast address.
    EnableBroadcast,
    /// Join the group on the interface, before any read.
    JoinMulticast(MulticastConfig),
}

/// The step that sets a socket up for its cast mode.
pub open spec fn mode_step(mode: CastMode) -> SetupStep {
    match mode {
        CastMode::Unicast(peer) => SetupStep::Connect(peer),
        CastMode::Broadcast => SetupStep::EnableBroadcast,
        CastMode::Multicast(m) => SetupStep::JoinMulticast(m),
    }
}

/// The steps for an identity: address reuse and non-blocking mode before the bind, then the
/// step of its mode.
pub open spec fn setup_plan(cfg: IpConfigV4) -> Seq<SetupStep> {
    seq![
        SetupStep::ReuseAddress,
        SetupStep::Nonblocking,
        SetupStep::Bind(cfg.bind_addr),
        mode_step(cfg.cast_mode),
    ]
}

/// Only a broadcast identity's socket gets the broadcast option, so the system refuses
/// sends to the broadcast address on any other; every other identity gets the association
/// or membership of its own mode instead.
pub proof fn lemma_broadcast_only_when_asked(cfg: IpConfigV4)
    ensures
        setup_plan(cfg).contains(SetupStep::EnableBroadcast) <==> cfg.cast_mode is Broadcast,
        cfg.cast_mode matches CastMode::Unicast(peer) ==> setup_plan(cfg).contains(
            SetupStep::Connect(peer),
        ),
        cfg.cast_mode matches CastMode::Multicast(m) ==> setup_plan(cfg).contains(
            SetupStep::JoinMulticast(m),
        ),
{
    let plan = setup_plan(cfg);
    assert(plan[3] == mode_step(cfg.cast_mode));
    if plan.contains(SetupStep::EnableBroadcast) {
        let j = choose|j: int| 0 <= j < plan.len() && plan[j] == SetupStep::EnableBroadcast;
        assert(j == 3);
    }
}

/// The step that sets a socket up for `mode`.
pub fn setup_for_mode(mode: &CastMode) -> (r: SetupStep)
    ensures
        r == mode_step(*mode),
{
    match mode {
        CastMode::Unicast(peer) => SetupStep::Connect(*peer),
        CastMode::Broadcast => SetupStep::EnableBroadcast,
        CastMode::Multicast(m) => SetupStep::JoinMulticast(*m),
    }
}

/// The steps that turn a fresh IPv4 UDP socket into the socket of `cfg`.
pub fn socket_setup(cfg: &IpConfigV4) -> (r: Vec<SetupStep>)
    ensures
        r@ == setup_plan(*cfg),
{
    let mut steps: Vec<SetupStep> = Vec::new();
    steps.push(SetupStep::ReuseAddress);
    steps.push(SetupStep::Nonblocking);
    steps.push(SetupStep::Bind(cfg.bind_addr));
    steps.push(setup_for_mode(&cfg.cast_mode));
    steps
}

} // verus!
