//! Identities exchanged with the map server.
use vstd::prelude::*;

verus! {

/// The account a character belongs to.
#[derive(Clone, Copy, PartialEq, Eq, Debug, Structural)]
pub struct AccountId(pub u32);

/// A character of an account.
#[derive(Clone, Copy, PartialEq, Eq, Debug, Structural)]
pub struct CharacterId(pub u32);

/// A player on the friend list, or one asking to join it.
#[derive(Debug)]
pub struct Friend {
    pub account_id: AccountId,
    pub character_id: CharacterId,
    pub name: String,
}

/// A friend as plain values.
pub struct FriendView {
    pub account_id: AccountId,
    pub character_id: CharacterId,
    pub name: Seq<char>,
}

impl View for Friend {
    type V = FriendView;

    open spec fn view(&self) -> FriendView {
        FriendView { account_id: self.account_id, character_id: self.character_id, name: self.name@ }
    }
}

} // verus!
