//! The interface: windows described as plain values, and the windows of the
//! client.
pub mod layout;
pub mod windows;
