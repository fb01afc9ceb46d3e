use tox_node::addr::{HostIp, NodeAddr};
use tox_node::bridge::{create_onion_streams, OnionEnvelope};
use tox_node::transport::{
    plan_discovery, plan_tcp, plan_udp, socket_options, tcp_step, udp_step, DiscoveryPlan,
    TcpAction, TcpEvent, TcpPlan, UdpAction, UdpEvent, UdpPlan,
};

fn v4(a: u8, b: u8, c: u8, d: u8, port: u16) -> NodeAddr {
    NodeAddr { ip: HostIp::V4 { a, b, c, d }, port }
}

fn envelope(payload: Vec<u8>, addr: NodeAddr) -> OnionEnvelope {
    OnionEnvelope { payload, addr }
}

#[test]
fn udp_plan_follows_configuration() {
    let bound = v4(127, 0, 0, 1, 33445);
    assert_eq!(plan_udp(&Some(bound)), UdpPlan::Active(bound));
    assert_eq!(plan_udp(&None), UdpPlan::Stub);
}

#[test]
fn tcp_plan_follows_configuration() {
    assert_eq!(plan_tcp(Vec::new()), TcpPlan::Stub);
    let addrs = vec![v4(0, 0, 0, 0, 443), v4(0, 0, 0, 0, 3389)];
    assert_eq!(plan_tcp(addrs.clone()), TcpPlan::Active(addrs));
}

#[test]
fn discovery_is_gated_on_its_flag() {
    assert_eq!(plan_discovery(true), DiscoveryPlan::Broadcast);
    assert_eq!(plan_discovery(false), DiscoveryPlan::PendForever);
}

#[test]
fn socket_gets_broadcast_and_v6_loopback() {
    let v4_bound = v4(127, 0, 0, 1, 33445);
    let opts4 = socket_options(&v4_bound);
    assert!(opts4.broadcast);
    assert!(!opts4.multicast_loop_v6);
    let v6_bound = NodeAddr { ip: HostIp::V6 { segments: [0; 8] }, port: 33445 };
    let opts6 = socket_options(&v6_bound);
    assert!(opts6.broadcast);
    assert!(opts6.multicast_loop_v6);
}

#[test]
fn udp_decode_errors_are_absorbed() {
    assert_eq!(udp_step(false, UdpEvent::InboundDecodeError), UdpAction::DropItem);
}

#[test]
fn udp_socket_errors_are_fatal() {
    let action = udp_step(false, UdpEvent::InboundSocketError { message: "read failed".into() });
    assert_eq!(action, UdpAction::Fatal { message: "read failed".into() });
}

#[test]
fn udp_handler_errors_are_absorbed() {
    let action = udp_step(true, UdpEvent::HandlerError { message: "bad packet".into() });
    assert_eq!(action, UdpAction::DropItem);
}

#[test]
fn udp_inbound_packet_reaches_the_handler() {
    let from = v4(192, 0, 2, 1, 4040);
    let action = udp_step(false, UdpEvent::Inbound { payload: vec![1, 2, 3], from });
    assert_eq!(action, UdpAction::HandlePacket { payload: vec![1, 2, 3], from });
}

#[test]
fn udp_outbound_is_normalized_or_dropped() {
    let dest = v4(127, 0, 0, 1, 33445);
    // v6-bound socket: the v4 destination is rewritten.
    let action = udp_step(true, UdpEvent::Outbound { payload: vec![9], to: dest });
    let mapped = NodeAddr {
        ip: HostIp::V6 { segments: [0, 0, 0, 0, 0, 0xffff, 0x7f00, 0x0001] },
        port: 33445,
    };
    assert_eq!(action, UdpAction::Send { payload: vec![9], to: mapped });
    // v4-bound socket: a v6 destination is dropped silently.
    let dest6 = NodeAddr { ip: HostIp::V6 { segments: [0xfe80, 0, 0, 0, 0, 0, 0, 1] }, port: 80 };
    let action = udp_step(false, UdpEvent::Outbound { payload: vec![9], to: dest6 });
    assert_eq!(action, UdpAction::DropItem);
}

#[test]
fn tcp_listener_failure_is_fatal() {
    let action = tcp_step(TcpEvent::ListenerFailure { message: "accept failed".into() });
    assert_eq!(action, TcpAction::Fatal { message: "accept failed".into() });
}

#[test]
fn tcp_handler_errors_are_absorbed() {
    let action = tcp_step(TcpEvent::HandlerError { message: "bad envelope".into() });
    assert_eq!(action, TcpAction::DropItem);
}

#[test]
fn request_crosses_bridge_unchanged_exactly_once() {
    // A TCP-originated onion request with payload P and destination A.
    let payload = vec![0xde, 0xad, 0xbe, 0xef];
    let dest = v4(198, 51, 100, 7, 33445);
    let request = envelope(payload.clone(), dest);

    // The TCP aggregator decides to send it over the bridge ...
    let action = tcp_step(TcpEvent::ConnectionRequest { envelope: request.clone() });
    let TcpAction::BridgeSend { envelope: sent } = action else {
        panic!("a connection request goes to the bridge");
    };

    // ... the bridge carries it to the UDP side ...
    let mut bridge = create_onion_streams();
    bridge.requests.push(sent);
    let received = bridge.requests.take_front().expect("the request arrives");

    // ... and the UDP loop hands it to the protocol handler, unchanged.
    let action = udp_step(false, UdpEvent::BridgeRequest { envelope: received });
    let UdpAction::ForwardRequest { envelope: forwarded } = action else {
        panic!("a bridge request goes to the handler");
    };
    assert_eq!(forwarded.payload, payload);
    assert_eq!(forwarded.addr, dest);

    // Exactly once: the bridge holds nothing more.
    assert_eq!(bridge.requests.take_front(), None);
}

#[test]
fn udp_response_goes_to_the_bridge() {
    let response = envelope(vec![7, 7, 7], v4(203, 0, 113, 2, 5000));
    let action = udp_step(true, UdpEvent::OnionResponse { envelope: response.clone() });
    assert_eq!(action, UdpAction::BridgeSend { envelope: response });
}

#[test]
fn tcp_response_from_bridge_reaches_the_relay() {
    let response = envelope(vec![1], v4(203, 0, 113, 2, 5000));
    let action = tcp_step(TcpEvent::BridgeResponse { envelope: response.clone() });
    assert_eq!(action, TcpAction::ForwardResponse { envelope: response });
}
