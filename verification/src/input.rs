//! Events that the user triggers through the interface.
use vstd::prelude::*;

use crate::network::{AccountId, CharacterId};

verus! {

/// An event raised by an interface element.
#[derive(Clone, Copy, PartialEq, Eq, Debug, Structural)]
pub enum UserEvent {
    /// Turn down the friend request of the given character.
    RejectFriendRequest { account_id: AccountId, character_id: CharacterId },
    /// Accept the friend request of the given character.
    AcceptFriendRequest { account_id: AccountId, character_id: CharacterId },
}

} // verus!
