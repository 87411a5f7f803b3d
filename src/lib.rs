//! Client library for an audio node's control protocol: the event-stream
//! session, the decoded protocol events, and the cache that reconciles voice
//! state from the chat gateway with playback state from the node.
pub mod address;
pub mod cache;
pub mod client;
pub mod error;
pub mod http;
pub mod models;

pub use cache::RhyoliteCache;
pub use cache::RhyolitePlayer;
pub use error::Error;
pub use models::Events;
