//! Windows about the friend list.
pub mod request;
