//! Per-transport loop decisions.
//!
//! Each transport runs as a loop around suspension points the runtime owns:
//! socket reads and writes, channel receives, timers. What the loop decides
//! at each event is plain logic and lives here: which events are fatal and
//! which are absorbed, how outbound addresses are normalized, what crosses
//! the bridge, and whether a transport runs at all or degenerates to a stub
//! that only drains its side of the bridge.

use crate::addr::{normalized_outbound, normalize_outbound, NodeAddr};
use crate::bridge::OnionEnvelope;
use vstd::prelude::*;

verus! {

/// How the UDP transport will run: a stub that only drains its bridge side,
/// or the full loop on the configured bind address.
#[derive(Clone, Debug, PartialEq, Eq)]
pub enum UdpPlan {
    /// No UDP address is configured: only drain the request side of the
    /// bridge, discarding every envelope.
    Stub,
    /// Run the full loop, bound to this address.
    Active(NodeAddr),
}

/// How the TCP transport will run: a stub that only drains its bridge side,
/// or one relay listener per configured address.
#[derive(Clone, Debug, PartialEq, Eq)]
pub enum TcpPlan {
    /// No TCP address is configured: only drain the response side of the
    /// bridge, discarding every envelope.
    Stub,
    /// Run one relay listener per address in this list.
    Active(Vec<NodeAddr>),
}

/// Select the UDP transport's shape, once, at node start: active exactly
/// when an address is configured.
pub fn plan_udp(udp_addr: &Option<NodeAddr>) -> (p: UdpPlan)
    ensures
        match p {
            UdpPlan::Stub => udp_addr is None,
            UdpPlan::Active(bound) => udp_addr matches Some(a) && bound == a,
        },
{
    match udp_addr {
        Some(a) => UdpPlan::Active(*a),
        None => UdpPlan::Stub,
    }
}

/// Select the TCP transport's shape, once, at node start: active exactly
/// when at least one listen address is configured.
pub fn plan_tcp(tcp_addrs: Vec<NodeAddr>) -> (p: TcpPlan)
    ensures
        match p {
            TcpPlan::Stub => tcp_addrs@.len() == 0,
            TcpPlan::Active(addrs) => tcp_addrs@.len() > 0 && addrs@ == tcp_addrs@,
        },
{
    if tcp_addrs.len() == 0 {
        TcpPlan::Stub
    } else {
        TcpPlan::Active(tcp_addrs)
    }
}

/// Options the UDP socket is opened with: broadcast always, and multicast
/// loopback exactly when the socket is bound to a v6 address.
#[derive(Clone, Copy, Debug, PartialEq, Eq)]
pub struct SocketOptions {
    /// Broadcast datagrams are allowed.
    pub broadcast: bool,
    /// Multicast loopback is enabled (v6 sockets only).
    pub multicast_loop_v6: bool,
}

/// The options for a socket bound to `bound`.
pub fn socket_options(bound: &NodeAddr) -> (r: SocketOptions)
    ensures
        r.broadcast,
        r.multicast_loop_v6 == bound.is_v6(),
{
    match bound.ip {
        crate::addr::HostIp::V6 { .. } => SocketOptions { broadcast: true, multicast_loop_v6: true },
        crate::addr::HostIp::V4 { .. } => SocketOptions {
            broadcast: true,
            multicast_loop_v6: false,
        },
    }
}

/// Whether the periodic local-network discovery broadcaster runs, or is
/// replaced by a placeholder that never completes and never fails, so the
/// loop's composition has the same shape either way.
#[derive(Clone, Copy, Debug, PartialEq, Eq)]
pub enum DiscoveryPlan {
    /// Announce presence on the local network periodically.
    Broadcast,
    /// Never complete, never fail.
    PendForever,
}

/// Gate the discovery broadcaster on its configuration flag.
pub fn plan_discovery(enabled: bool) -> (p: DiscoveryPlan)
    ensures
        (p is Broadcast) == enabled,
{
    if enabled {
        DiscoveryPlan::Broadcast
    } else {
        DiscoveryPlan::PendForever
    }
}

/// One event observed by the active UDP loop.
#[derive(Clone, Debug, PartialEq, Eq)]
pub enum UdpEvent {
    /// A datagram decoded into a protocol packet.
    Inbound { payload: Vec<u8>, from: NodeAddr },
    /// A datagram that did not decode.
    InboundDecodeError,
    /// Any other read failure on the socket.
    InboundSocketError { message: String },
    /// The protocol capability queued a packet to send.
    Outbound { payload: Vec<u8>, to: NodeAddr },
    /// An onion request envelope arrived over the bridge from TCP.
    BridgeRequest { envelope: OnionEnvelope },
    /// The protocol capability produced an onion response bound for TCP.
    OnionResponse { envelope: OnionEnvelope },
    /// The protocol handler failed on one packet or one envelope.
    HandlerError { message: String },
}

/// What the UDP loop does with one event.
#[derive(Clone, Debug, PartialEq, Eq)]
pub enum UdpAction {
    /// Hand a decoded packet to the protocol capability's handler.
    HandlePacket { payload: Vec<u8>, from: NodeAddr },
    /// Write a datagram to the socket.
    Send { payload: Vec<u8>, to: NodeAddr },
    /// Hand an onion request from the bridge to the protocol capability.
    ForwardRequest { envelope: OnionEnvelope },
    /// Enqueue an onion response on the bridge towards TCP.
    BridgeSend { envelope: OnionEnvelope },
    /// Log and discard this one item; the loop keeps running.
    DropItem,
    /// Tear the whole node down with this error.
    Fatal { message: String },
}

/// The UDP loop's decision for one event, on a socket whose bound address
/// family is `bound_v6`. Socket failures are fatal; a datagram that does not
/// decode, a per-packet handler failure, and an outbound destination of an
/// incompatible family are each absorbed by discarding that one item; an
/// outbound destination is rewritten to the socket's family; everything that
/// crosses the bridge crosses it unchanged.
pub fn udp_step(bound_v6: bool, event: UdpEvent) -> (a: UdpAction)
    ensures
        match event {
            UdpEvent::Inbound { payload, from } => a == (UdpAction::HandlePacket { payload, from }),
            UdpEvent::InboundDecodeError => a == UdpAction::DropItem,
            UdpEvent::InboundSocketError { message } => a == (UdpAction::Fatal { message }),
            UdpEvent::Outbound { payload, to } => match normalized_outbound(bound_v6, to) {
                Some(sent) => a == (UdpAction::Send { payload, to: sent }),
                None => a == UdpAction::DropItem,
            },
            UdpEvent::BridgeRequest { envelope } => a == (UdpAction::ForwardRequest { envelope }),
            UdpEvent::OnionResponse { envelope } => a == (UdpAction::BridgeSend { envelope }),
            UdpEvent::HandlerError { message } => a == UdpAction::DropItem,
        },
{
    match event {
        UdpEvent::Inbound { payload, from } => UdpAction::HandlePacket { payload, from },
        UdpEvent::InboundDecodeError => UdpAction::DropItem,
        UdpEvent::InboundSocketError { message } => UdpAction::Fatal { message },
        UdpEvent::Outbound { payload, to } => match normalize_outbound(bound_v6, to) {
            Some(sent) => UdpAction::Send { payload, to: sent },
            None => UdpAction::DropItem,
        },
        UdpEvent::BridgeRequest { envelope } => UdpAction::ForwardRequest { envelope },
        UdpEvent::OnionResponse { envelope } => UdpAction::BridgeSend { envelope },
        UdpEvent::HandlerError { message } => UdpAction::DropItem,
    }
}

/// One event observed by the active TCP aggregator.
#[derive(Clone, Debug, PartialEq, Eq)]
pub enum TcpEvent {
    /// One of the relay listener tasks failed.
    ListenerFailure { message: String },
    /// An onion response envelope arrived over the bridge from UDP.
    BridgeResponse { envelope: OnionEnvelope },
    /// An onion request originated on one of the relay connections.
    ConnectionRequest { envelope: OnionEnvelope },
    /// The relay handler failed on one envelope.
    HandlerError { message: String },
}

/// What the TCP aggregator does with one event.
#[derive(Clone, Debug, PartialEq, Eq)]
pub enum TcpAction {
    /// Hand an onion response from the bridge to the relay server.
    ForwardResponse { envelope: OnionEnvelope },
    /// Enqueue an onion request on the bridge towards UDP.
    BridgeSend { envelope: OnionEnvelope },
    /// Log and discard this one item; the aggregator keeps running.
    DropItem,
    /// Tear the whole node down with this error.
    Fatal { message: String },
}

/// The TCP aggregator's decision for one event. The aggregator lives only
/// while all its listeners do: the first listener failure is its failure.
/// A per-envelope handler failure is absorbed; everything that crosses the
/// bridge crosses it unchanged.
pub fn tcp_step(event: TcpEvent) -> (a: TcpAction)
    ensures
        match event {
            TcpEvent::ListenerFailure { message } => a == (TcpAction::Fatal { message }),
            TcpEvent::BridgeResponse { envelope } => a == (TcpAction::ForwardResponse { envelope }),
            TcpEvent::ConnectionRequest { envelope } => a == (TcpAction::BridgeSend { envelope }),
            TcpEvent::HandlerError { message } => a == TcpAction::DropItem,
        },
{
    match event {
        TcpEvent::ListenerFailure { message } => TcpAction::Fatal { message },
        TcpEvent::BridgeResponse { envelope } => TcpAction::ForwardResponse { envelope },
        TcpEvent::ConnectionRequest { envelope } => TcpAction::BridgeSend { envelope },
        TcpEvent::HandlerError { message } => TcpAction::DropItem,
    }
}

} // verus!
