//! The onion bridge: the only coupling point between the two transports.
//!
//! Onion envelopes cross between the UDP and TCP transports through two
//! independent, ordered, unbounded queues: one carries request envelopes
//! TCP-ward to UDP, the other carries response envelopes back. The bridge
//! never interprets payloads. Enqueueing is total — a producer never blocks
//! and never fails — and each envelope is delivered at most once: taking the
//! front removes it. A transport with no active configuration still drains
//! its receive side and discards everything, so the peer transport's
//! producers never stall.

use crate::addr::NodeAddr;
use vstd::prelude::*;

verus! {

/// An onion envelope: an opaque routed payload and its peer address.
/// The bridge and the transports never look inside the payload.
#[derive(Clone, Debug, PartialEq, Eq)]
pub struct OnionEnvelope {
    /// The routed packet bytes, produced and consumed by the protocol
    /// collaborator.
    pub payload: Vec<u8>,
    /// The peer address the payload travels to or came from.
    pub addr: NodeAddr,
}

/// One direction of the bridge: an ordered, unbounded queue of envelopes.
/// The abstract value is the sequence of pending envelopes, oldest first.
pub struct BridgeEndpoint {
    items: Vec<OnionEnvelope>,
}

impl View for BridgeEndpoint {
    type V = Seq<OnionEnvelope>;

    closed spec fn view(&self) -> Seq<OnionEnvelope> {
        self.items@
    }
}

impl BridgeEndpoint {
    /// A fresh, empty endpoint.
    pub fn new() -> (r: BridgeEndpoint)
        ensures
            r@.len() == 0,
    {
        BridgeEndpoint { items: Vec::new() }
    }

    /// How many envelopes are pending.
    pub fn len(&self) -> (n: usize)
        ensures
            n == self@.len(),
    {
        self.items.len()
    }

    /// Enqueue one envelope behind the pending ones. Total: a producer
    /// never blocks and never fails, whatever is already pending.
    pub fn push(&mut self, envelope: OnionEnvelope)
        ensures
            final(self)@ == old(self)@.push(envelope),
    {
        self.items.push(envelope);
    }

    /// Take the oldest pending envelope, removing it: once taken, an
    /// envelope is never handed out again.
    pub fn take_front(&mut self) -> (r: Option<OnionEnvelope>)
        ensures
            match r {
                Some(envelope) => {
                    &&& old(self)@.len() > 0
                    &&& envelope == old(self)@[0]
                    &&& final(self)@ == old(self)@.subrange(1, old(self)@.len() as int)
                },
                None => old(self)@.len() == 0 && final(self)@ == old(self)@,
            },
    {
        if self.items.len() == 0 {
            None
        } else {
            Some(self.items.remove(0))
        }
    }

    /// Drain the endpoint, discarding every pending envelope. This is the
    /// whole behaviour of a stub transport: its side of the bridge keeps
    /// being consumed so the peer transport's producers never stall.
    pub fn drain_discard(&mut self)
        ensures
            final(self)@.len() == 0,
    {
        self.items.clear();
    }
}

/// The bridge: the pair of queues between the transports. Request envelopes
/// travel from the TCP transport to the UDP transport; response envelopes
/// travel the opposite way.
pub struct OnionBridge {
    /// Onion requests on their way from TCP to UDP.
    pub requests: BridgeEndpoint,
    /// Onion responses on their way from UDP to TCP.
    pub responses: BridgeEndpoint,
}

/// Create the bridge the two transports communicate through. Both
/// directions start empty; the bridge lives for the node's whole lifetime.
pub fn create_onion_streams() -> (bridge: OnionBridge)
    ensures
        bridge.requests@.len() == 0,
        bridge.responses@.len() == 0,
{
    OnionBridge { requests: BridgeEndpoint::new(), responses: BridgeEndpoint::new() }
}

/// Ordered delivery: enqueueing any sequence of envelopes on an empty
/// endpoint and then reading it dry yields exactly the same envelopes in
/// the same order, however many there are.
pub fn bridge_transfer(endpoint: &mut BridgeEndpoint, envelopes: Vec<OnionEnvelope>) -> (out: Vec<
    OnionEnvelope,
>)
    requires
        old(endpoint)@.len() == 0,
    ensures
        out@ == envelopes@,
        final(endpoint)@.len() == 0,
{
    let ghost sent = envelopes@;
    let mut pending = envelopes;
    while pending.len() > 0
        invariant
            endpoint@ + pending@ == sent,
        decreases pending@.len(),
    {
        let envelope = pending.remove(0);
        endpoint.push(envelope);
        proof {
            assert(endpoint@ + pending@ =~= sent);
        }
    }
    let mut out: Vec<OnionEnvelope> = Vec::new();
    proof {
        assert(endpoint@ =~= sent);
    }
    loop
        invariant
            out@ + endpoint@ == sent,
        ensures
            out@ == sent,
            endpoint@.len() == 0,
        decreases endpoint@.len(),
    {
        match endpoint.take_front() {
            Some(envelope) => {
                out.push(envelope);
                proof {
                    assert(out@ + endpoint@ =~= sent);
                }
            },
            None => {
                proof {
                    assert(out@ =~= sent);
                }
                break ;
            },
        }
    }
    out
}

} // verus!
