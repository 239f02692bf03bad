//! The logic of the Korangar client pieces: the effect renderer's device
//! descriptions, the friend request window, and the bookkeeping of the
//! entities on the current map.
pub mod effect_renderer;
pub mod input;
pub mod interface;
pub mod network;
pub mod entity_roster;
