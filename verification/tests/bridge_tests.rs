use tox_node::addr::{HostIp, NodeAddr};
use tox_node::bridge::{bridge_transfer, create_onion_streams, BridgeEndpoint, OnionEnvelope};

fn envelope(tag: u8) -> OnionEnvelope {
    OnionEnvelope {
        payload: vec![tag, tag.wrapping_add(1), tag.wrapping_add(2)],
        addr: NodeAddr { ip: HostIp::V4 { a: 10, b: 0, c: 0, d: tag }, port: 33445 },
    }
}

#[test]
fn bridge_starts_empty() {
    let mut bridge = create_onion_streams();
    assert_eq!(bridge.requests.len(), 0);
    assert_eq!(bridge.responses.len(), 0);
    assert_eq!(bridge.requests.take_front(), None);
    assert_eq!(bridge.responses.take_front(), None);
}

#[test]
fn transfer_preserves_order_and_count() {
    let mut endpoint = BridgeEndpoint::new();
    let sent: Vec<OnionEnvelope> = (0..5).map(envelope).collect();
    let received = bridge_transfer(&mut endpoint, sent.clone());
    assert_eq!(received, sent);
    assert_eq!(endpoint.len(), 0);
}

#[test]
fn transfer_of_nothing_yields_nothing() {
    let mut endpoint = BridgeEndpoint::new();
    let received = bridge_transfer(&mut endpoint, Vec::new());
    assert!(received.is_empty());
}

#[test]
fn take_front_hands_each_envelope_out_once() {
    let mut endpoint = BridgeEndpoint::new();
    endpoint.push(envelope(1));
    endpoint.push(envelope(2));
    assert_eq!(endpoint.take_front(), Some(envelope(1)));
    assert_eq!(endpoint.take_front(), Some(envelope(2)));
    assert_eq!(endpoint.take_front(), None);
}

#[test]
fn stub_drain_discards_everything_and_producers_never_stall() {
    let mut bridge = create_onion_streams();
    // The UDP side keeps producing responses although TCP is a stub:
    // every push succeeds, and the stub drain keeps consuming.
    for round in 0..50 {
        for i in 0..20 {
            bridge.responses.push(envelope((round * 20 + i) as u8));
        }
        bridge.responses.drain_discard();
        assert_eq!(bridge.responses.len(), 0);
    }
    assert_eq!(bridge.responses.take_front(), None);
}
