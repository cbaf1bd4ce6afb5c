//! Peer connections and data channels over WebRTC: what they know, and what they do about what
//! happens to them.
//!
//! The status of a connection and of a data channel, the messages that two peers exchange until
//! they are connected, and every decision taken on the way are here. Waiting, sending and
//! receiving are left to whoever drives a connection: it does what a [`task::Task`] says, and
//! tells how that went.
pub mod data_channel;
pub mod error;
pub mod ice;
pub mod json;
pub mod options;
pub mod peer_connection;
pub mod signal;
pub mod status;
pub mod task;

pub use data_channel::DataChannel;
pub use error::Error;
pub use options::Options;
pub use peer_connection::PeerConnection;
