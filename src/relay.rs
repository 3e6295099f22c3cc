use vstd::prelude::*;

use crate::endpoint::Endpoint;

verus! {

/// Capacity of the buffer that datagrams are received into; longer datagrams
/// are truncated to it.
pub const SCRATCH_CAPACITY: usize = 1024;

/// Pause between two drain cycles, in milliseconds.
pub const POLL_INTERVAL_MS: u64 = 500;

/// Where the relay is within one cycle.
#[derive(Clone, Copy, Debug, PartialEq, Eq, Structural)]
pub enum Phase {
    /// Receiving from the inbound multicast socket until it has nothing left.
    DrainMulticast,
    /// Receiving from the direct socket until it has nothing left.
    DrainDirect,
    /// Waiting out the poll interval.
    Sleeping,
}

/// A socket of the relay.
#[derive(Clone, Copy, Debug, PartialEq, Eq, Structural)]
pub enum Channel {
    /// The socket joined to the multicast group (receive only).
    MulticastIn,
    /// The socket that sends to the multicast group from an ephemeral port.
    MulticastOut,
    /// The socket bound to the relay port, for unicast peers.
    Direct,
}

/// What the relay waits for next.
#[derive(Clone, Copy, Debug, PartialEq, Eq, Structural)]
pub enum Wait {
    /// Try one non-blocking receive on this socket.
    Receive(Channel),
    /// Sleep this many milliseconds.
    Sleep(u64),
}

/// What came of the last wait.
#[derive(Debug)]
pub enum Event {
    /// A datagram was received.
    Datagram { payload: Vec<u8>, sender: Endpoint },
    /// The socket had nothing to receive.
    Empty,
    /// The sleep is over.
    Woke,
}

/// The datagrams to send, then the next thing to wait for. `payload` goes to
/// each of `destinations`, in order, through `via`; no destination means that
/// nothing is sent.
#[derive(Debug)]
pub struct Step {
    pub payload: Vec<u8>,
    pub via: Channel,
    pub destinations: Vec<Endpoint>,
    pub next: Wait,
}

/// The fixed configuration of a run.
#[derive(Debug)]
pub struct RelayConfig {
    /// The multicast group and port.
    pub group: Endpoint,
    /// The unicast peers, in the order datagrams are sent to them.
    pub targets: Vec<Endpoint>,
    /// The local port of the outbound multicast socket: a multicast datagram
    /// from this port is taken to be one of ours.
    pub outbound_port: u16,
}

/// The forwarding loop's decisions: fed what each wait brought, it says what
/// to send and what to wait for next.
#[derive(Debug)]
pub struct Relay {
    pub config: RelayConfig,
    pub phase: Phase,
}

/// The phase that follows `phase` on `ev`.
pub open spec fn next_phase(phase: Phase, ev: Event) -> Phase {
    match (phase, ev) {
        (Phase::DrainMulticast, Event::Empty) => Phase::DrainDirect,
        (Phase::DrainDirect, Event::Empty) => Phase::Sleeping,
        (Phase::Sleeping, Event::Woke) => Phase::DrainMulticast,
        _ => phase,
    }
}

/// What is waited for in `phase`.
pub open spec fn wait_in(phase: Phase) -> Wait {
    match phase {
        Phase::DrainMulticast => Wait::Receive(Channel::MulticastIn),
        Phase::DrainDirect => Wait::Receive(Channel::Direct),
        Phase::Sleeping => Wait::Sleep(POLL_INTERVAL_MS),
    }
}

/// A multicast datagram from `sender` is taken to be one the relay sent itself.
pub open spec fn is_self_origin(cfg: RelayConfig, sender: Endpoint) -> bool {
    sender.port == cfg.outbound_port
}

/// Where the payload of `ev`, received in `phase`, is sent.
pub open spec fn destinations(cfg: RelayConfig, phase: Phase, ev: Event) -> Seq<Endpoint> {
    match (phase, ev) {
        (Phase::DrainMulticast, Event::Datagram { sender, .. }) => {
            if is_self_origin(cfg, sender) {
                seq![]
            } else {
                cfg.targets@
            }
        },
        (Phase::DrainDirect, Event::Datagram { .. }) => seq![cfg.group],
        _ => seq![],
    }
}

/// The socket that sends what is received in `phase`.
pub open spec fn channel_for(phase: Phase) -> Channel {
    match phase {
        Phase::DrainDirect => Channel::MulticastOut,
        _ => Channel::Direct,
    }
}

/// The bytes carried by `ev`.
pub open spec fn payload_of(ev: Event) -> Seq<u8> {
    match ev {
        Event::Datagram { payload, .. } => payload@,
        _ => seq![],
    }
}

/// A multicast datagram that is not one of ours is sent, unchanged, to every
/// target through the direct socket, in the order of the target list.
pub proof fn lemma_multicast_datagram_reaches_every_target(
    cfg: RelayConfig,
    payload: Vec<u8>,
    sender: Endpoint,
)
    requires
        cfg.targets@.len() > 0,
        sender.port != cfg.outbound_port,
    ensures
        destinations(cfg, Phase::DrainMulticast, (Event::Datagram { payload, sender }))
            == cfg.targets@,
        payload_of((Event::Datagram { payload, sender })) == payload@,
        channel_for(Phase::DrainMulticast) == Channel::Direct,
{
}

/// A multicast datagram from the outbound socket's own port is never sent on,
/// whatever it holds.
pub proof fn lemma_self_origin_suppressed(cfg: RelayConfig, payload: Vec<u8>, sender: Endpoint)
    requires
        sender.port == cfg.outbound_port,
    ensures
        destinations(cfg, Phase::DrainMulticast, (Event::Datagram { payload, sender })).len()
            == 0,
{
}

/// A datagram received on the direct socket is sent, unchanged, to the
/// multicast group exactly once, through the outbound multicast socket.
pub proof fn lemma_direct_datagram_reaches_group_once(
    cfg: RelayConfig,
    payload: Vec<u8>,
    sender: Endpoint,
)
    ensures
        destinations(cfg, Phase::DrainDirect, (Event::Datagram { payload, sender })) == seq![
            cfg.group,
        ],
        payload_of((Event::Datagram { payload, sender })) == payload@,
        channel_for(Phase::DrainDirect) == Channel::MulticastOut,
{
}

impl Relay {
    /// A relay at the start of a cycle.
    pub fn new(config: RelayConfig) -> (r: Relay)
        ensures
            r.config == config,
            r.phase == Phase::DrainMulticast,
    {
        Relay { config, phase: Phase::DrainMulticast }
    }

    /// What to wait for first.
    pub fn first_wait(&self) -> (r: Wait)
        ensures
            r == wait_in(self.phase),
    {
        wait_for(self.phase)
    }

    /// Takes in what the last wait brought: a multicast datagram goes to every
    /// target unless it is one of ours, a direct datagram goes to the group
    /// once, and an empty socket or the end of a sleep moves the cycle on.
    pub fn step(&mut self, event: Event) -> (r: Step)
        ensures
            final(self).config == old(self).config,
            final(self).phase == next_phase(old(self).phase, event),
            r.destinations@ == destinations(old(self).config, old(self).phase, event),
            r.payload@ == payload_of(event),
            r.via == channel_for(old(self).phase),
            r.next == wait_in(final(self).phase),
    {
        let phase = self.phase;
        let via = channel_for_phase(phase);
        match event {
            Event::Datagram { payload, sender } => {
                let destinations = match phase {
                    Phase::DrainMulticast => {
                        if sender.port == self.config.outbound_port {
                            Vec::new()
                        } else {
                            copy_endpoints(&self.config.targets)
                        }
                    },
                    Phase::DrainDirect => vec![self.config.group],
                    Phase::Sleeping => Vec::new(),
                };
                Step { payload, via, destinations, next: wait_for(phase) }
            },
            Event::Empty => {
                let next = match phase {
                    Phase::DrainMulticast => Phase::DrainDirect,
                    Phase::DrainDirect => Phase::Sleeping,
                    Phase::Sleeping => Phase::Sleeping,
                };
                self.phase = next;
                Step { payload: Vec::new(), via, destinations: Vec::new(), next: wait_for(next) }
            },
            Event::Woke => {
                let next = match phase {
                    Phase::Sleeping => Phase::DrainMulticast,
                    _ => phase,
                };
                self.phase = next;
                Step { payload: Vec::new(), via, destinations: Vec::new(), next: wait_for(next) }
            },
        }
    }
}

fn wait_for(phase: Phase) -> (r: Wait)
    ensures
        r == wait_in(phase),
{
    match phase {
        Phase::DrainMulticast => Wait::Receive(Channel::MulticastIn),
        Phase::DrainDirect => Wait::Receive(Channel::Direct),
        Phase::Sleeping => Wait::Sleep(POLL_INTERVAL_MS),
    }
}

fn channel_for_phase(phase: Phase) -> (r: Channel)
    ensures
        r == channel_for(phase),
{
    match phase {
        Phase::DrainDirect => Channel::MulticastOut,
        _ => Channel::Direct,
    }
}

fn copy_endpoints(v: &Vec<Endpoint>) -> (r: Vec<Endpoint>)
    ensures
        r@ == v@,
{
    let mut r: Vec<Endpoint> = Vec::new();
    let mut i: usize = 0;
    while i < v.len()
        invariant
            i <= v.len(),
            r@ == v@.subrange(0, i as int),
        decreases v.len() - i,
    {
        r.push(v[i]);
        i = i + 1;
    }
    assert(r@ =~= v@);
    r
}

} // verus!
