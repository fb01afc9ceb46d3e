//! Supervision and bridging core of a bootstrap node for a peer-to-peer
//! overlay. The node exposes a UDP discovery transport and a TCP relay
//! transport; onion-routed packets cross between the two through an ordered
//! bridge. This crate holds the verified logic of that shell: the node's
//! identity key material, the advertised version integer, the onion bridge,
//! the per-transport loop decisions, and the first-failure-wins supervision.
//! The surrounding process (sockets, runtime, command line) lives outside.

pub mod addr;
pub mod bridge;
pub mod config;
pub mod hexstr;
pub mod keys;
pub mod supervisor;
pub mod transport;
pub mod version;
