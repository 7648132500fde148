//! Signed messages, topics, and the decisions of a WebRTC peer network: how
//! peers are signalled, connected, trusted and routed to.

pub mod collections;
pub mod connection;
pub mod keys;
pub mod message;
pub mod subscriber;
pub mod text;
pub mod topic;
pub mod verify;
pub mod webrtc;

pub use message::Message;
pub use message::MessageT;
pub use message::PeerIndex;
pub use subscriber::Subscriber;
pub use topic::TopicTree;
