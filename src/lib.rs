//! A threshold-signature common coin for asynchronous Byzantine-fault-tolerant protocols.
pub mod network;
pub mod message;
pub mod parity;
pub mod coin;
pub mod laws;
