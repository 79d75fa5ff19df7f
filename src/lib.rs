//! Client model for the XML-RPC control interface of the rTorrent download
//! manager: which remote calls each operation makes, the requests that carry
//! them, and how each answer is decoded into typed values.
pub mod ipv4;
pub mod reply;
pub mod client;
pub mod wire;

pub use client::{Call, File, Query, RTorrent, Status, Torrent};
pub use ipv4::{parse_ipv4, Ipv4};
pub use reply::{Expected, Reply, RpcError};
