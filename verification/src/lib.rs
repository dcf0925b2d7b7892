//! A small proof-of-work-free blockchain node library: blocks whose hash
//! commits to their index, their predecessor's hash, their timestamp and their
//! data; a chain that only accepts blocks linked to its last block; and the
//! bookkeeping of the peers a node knows about.

pub mod encoding;
pub mod hash;
pub mod block;
pub mod blockchain;
pub mod peers_network;
pub mod service;
