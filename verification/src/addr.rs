//! Transport addresses and the address-family policy of the outbound writer.
//!
//! An address is a host tagged with its family (v4 or v6) and a port. The
//! UDP writer enforces one invariant: every datagram it sends carries an
//! address of the bound socket's family. A v4 destination is rewritten to
//! its v4-mapped-v6 form when the socket is bound v6; a v6 destination on a
//! v4-bound socket cannot be mapped and is silently dropped (a deliberate
//! policy: silent loss, not an error).

use vstd::prelude::*;

verus! {

/// A host address: four v4 octets, or eight v6 segments of 16 bits.
#[derive(PartialEq, Eq, Clone, Copy, Debug)]
pub enum HostIp {
    /// A v4 address `a.b.c.d`.
    V4 { a: u8, b: u8, c: u8, d: u8 },
    /// A v6 address of eight 16-bit segments, most significant first.
    V6 { segments: [u16; 8] },
}

/// A socket address: a host and a port.
#[derive(PartialEq, Eq, Clone, Copy, Debug)]
pub struct NodeAddr {
    /// The host, tagged with its family.
    pub ip: HostIp,
    /// The port.
    pub port: u16,
}

impl HostIp {
    /// The family tag of this address.
    pub open spec fn is_v6(self) -> bool {
        self is V6
    }
}

impl NodeAddr {
    /// The family tag of this address.
    pub open spec fn is_v6(self) -> bool {
        self.ip.is_v6()
    }
}

/// The v4-mapped-v6 segments of `a.b.c.d`: `::ffff:a.b.c.d`, that is six
/// leading segments `0, 0, 0, 0, 0, 0xffff` and the four octets packed into
/// the last two segments.
pub open spec fn v4_mapped_segments(a: u8, b: u8, c: u8, d: u8) -> Seq<u16> {
    seq![0u16, 0u16, 0u16, 0u16, 0u16, 0xffffu16, (a * 256 + b) as u16, (c * 256 + d) as u16]
}

/// Rewrite a v4 host into its v4-mapped-v6 form.
pub fn to_ipv6_mapped(a: u8, b: u8, c: u8, d: u8) -> (r: HostIp)
    ensures
        r matches HostIp::V6 { segments } && segments@ == v4_mapped_segments(a, b, c, d),
{
    let hi: u16 = (a as u16) * 256 + (b as u16);
    let lo: u16 = (c as u16) * 256 + (d as u16);
    let segments: [u16; 8] = [0, 0, 0, 0, 0, 0xffff, hi, lo];
    proof {
        assert(segments@ =~= v4_mapped_segments(a, b, c, d));
    }
    HostIp::V6 { segments }
}

/// What the writer does with one outbound destination, given the family the
/// socket is bound to: send to the destination (possibly rewritten), or drop
/// the datagram silently.
pub open spec fn normalized_outbound(bound_v6: bool, dest: NodeAddr) -> Option<NodeAddr> {
    if bound_v6 {
        match dest.ip {
            HostIp::V4 { a, b, c, d } => Some(
                NodeAddr {
                    ip: HostIp::V6 { segments: [0u16, 0u16, 0u16, 0u16, 0u16, 0xffffu16, (a * 256 + b) as u16, (c * 256 + d) as u16] },
                    port: dest.port,
                },
            ),
            HostIp::V6 { .. } => Some(dest),
        }
    } else {
        if dest.is_v6() {
            None
        } else {
            Some(dest)
        }
    }
}

/// Normalize one outbound destination to the bound socket's family.
/// A v4 destination on a v6-bound socket becomes its v4-mapped-v6 form with
/// the port unchanged; a v6 destination on a v4-bound socket is dropped;
/// anything already of the socket's family passes through unchanged.
pub fn normalize_outbound(bound_v6: bool, dest: NodeAddr) -> (r: Option<NodeAddr>)
    ensures
        r == normalized_outbound(bound_v6, dest),
{
    if bound_v6 {
        match dest.ip {
            HostIp::V4 { a, b, c, d } => {
                let mapped = to_ipv6_mapped(a, b, c, d);
                proof {
                    let expected = normalized_outbound(bound_v6, dest)->0;
                    assert(mapped->segments@ =~= expected.ip->segments@);
                    assert(mapped->segments =~= expected.ip->segments);
                }
                Some(NodeAddr { ip: mapped, port: dest.port })
            },
            HostIp::V6 { .. } => Some(dest),
        }
    } else {
        match dest.ip {
            HostIp::V6 { .. } => None,
            HostIp::V4 { .. } => Some(dest),
        }
    }
}

/// Address-mapping law: on a socket bound to any v6 address, a v4-destined
/// datagram is sent to exactly the v4-mapped-v6 form of its destination,
/// with the same port.
pub proof fn lemma_v4_rewritten_on_v6_socket(dest: NodeAddr)
    requires
        !dest.is_v6(),
    ensures
        normalized_outbound(true, dest) matches Some(sent) && {
            &&& sent.port == dest.port
            &&& sent.ip matches HostIp::V6 { segments } && segments@ == v4_mapped_segments(
                dest.ip->a,
                dest.ip->b,
                dest.ip->c,
                dest.ip->d,
            )
        },
{
    let sent = normalized_outbound(true, dest)->0;
    assert(sent.ip->segments@ =~= v4_mapped_segments(
        dest.ip->a,
        dest.ip->b,
        dest.ip->c,
        dest.ip->d,
    ));
}

} // verus!
