use tox_node::addr::{normalize_outbound, to_ipv6_mapped, HostIp, NodeAddr};

fn v4(a: u8, b: u8, c: u8, d: u8, port: u16) -> NodeAddr {
    NodeAddr { ip: HostIp::V4 { a, b, c, d }, port }
}

fn v6(segments: [u16; 8], port: u16) -> NodeAddr {
    NodeAddr { ip: HostIp::V6 { segments }, port }
}

#[test]
fn v4_loopback_maps_to_v6_form() {
    let mapped = to_ipv6_mapped(127, 0, 0, 1);
    assert_eq!(
        mapped,
        HostIp::V6 { segments: [0, 0, 0, 0, 0, 0xffff, 0x7f00, 0x0001] }
    );
}

#[test]
fn v4_destination_rewritten_on_v6_socket() {
    let dest = v4(127, 0, 0, 1, 33445);
    let sent = normalize_outbound(true, dest).expect("a v4 destination is mapped, not dropped");
    assert_eq!(sent.port, 33445);
    assert_eq!(sent.ip, HostIp::V6 { segments: [0, 0, 0, 0, 0, 0xffff, 0x7f00, 0x0001] });
}

#[test]
fn v6_destination_dropped_on_v4_socket() {
    let dest = v6([0x2001, 0xdb8, 0, 0, 0, 0, 0, 1], 443);
    assert_eq!(normalize_outbound(false, dest), None);
}

#[test]
fn same_family_destination_passes_unchanged() {
    let dest4 = v4(10, 0, 0, 7, 1024);
    assert_eq!(normalize_outbound(false, dest4), Some(dest4));
    let dest6 = v6([0xfe80, 0, 0, 0, 0, 0, 0, 9], 80);
    assert_eq!(normalize_outbound(true, dest6), Some(dest6));
}

#[test]
fn mapping_keeps_port_for_arbitrary_addresses() {
    for (a, b, c, d, port) in [(0, 0, 0, 0, 0u16), (255, 255, 255, 255, 65535), (192, 168, 1, 2, 33445)] {
        let sent = normalize_outbound(true, v4(a, b, c, d, port)).unwrap();
        assert_eq!(sent.port, port);
        let hi = u16::from(a) << 8 | u16::from(b);
        let lo = u16::from(c) << 8 | u16::from(d);
        assert_eq!(sent.ip, HostIp::V6 { segments: [0, 0, 0, 0, 0, 0xffff, hi, lo] });
    }
}
