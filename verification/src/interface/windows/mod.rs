//! The windows of the client.
pub mod friends;
