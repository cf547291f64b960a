//! Replication transport layer for a small distributed SQL store.
//!
//! A cluster of nodes replicates SQL statements through a Multi-Paxos
//! style protocol with a separate ballot-leader-election sub-protocol.
//! This crate holds the verified core of the node-to-node transport: the
//! protocol message model (`message`), the wire form that travels in RPC
//! bodies (`wire`), the codec between the two (`codec`, `rpc`) with its
//! round-trip laws (`laws`), and the bounded connection pool used by the
//! outbound path (`pool`).  Network I/O itself stays outside.

pub mod message;
pub mod wire;
pub mod codec;
pub mod rpc;
pub mod laws;
pub mod pool;
