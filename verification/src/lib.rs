//! Peer-to-peer audio streaming core: the wire formats of the two data
//! channels, the sample queue between the network and the audio callback,
//! the round-trip probe, the negotiation token and the handshake itself.

pub mod error;
pub mod endian;
pub mod frame;
pub mod control;
pub mod bridge;
pub mod stream;
pub mod token;
pub mod info;
pub mod config;
pub mod state;
pub mod connection;
pub mod receiver;
pub mod sender;
