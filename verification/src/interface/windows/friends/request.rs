//! The window that asks the player to answer a friend request.
use vstd::prelude::*;
use vstd::string::*;

use crate::input::UserEvent;
use crate::interface::layout::{
    Dimension, DimensionBound, Element, ElementView, PrototypeWindow, SizeBound, WindowDescription,
    WindowView,
};
use crate::network::{Friend, FriendView};

verus! {

/// A friend request that waits for an answer.
pub struct FriendRequestWindow {
    friend: Friend,
}

impl View for FriendRequestWindow {
    type V = FriendView;

    closed spec fn view(&self) -> FriendView {
        self.friend@
    }
}

/// The message of the window: the name in orange, the rest in black.
pub open spec fn friend_request_message(name: Seq<char>) -> Seq<char> {
    "^ffaa00"@ + name + "^000000 wants to be friends with you"@
}

/// Friend request windows are 250 pixels wide, neither wider nor narrower,
/// and as high as their content.
pub open spec fn friend_request_size_bound() -> SizeBound {
    SizeBound {
        width: Dimension::Absolute(250),
        minimum_width: Some(Dimension::Absolute(250)),
        maximum_width: Some(Dimension::Absolute(250)),
        height: Dimension::Flexible,
        minimum_height: None,
        maximum_height: None,
    }
}

/// The window shown for a request of `friend`: the message, then a button
/// that rejects the request on the left half, then one that accepts it in
/// the space that is left.
pub open spec fn friend_request_window(friend: FriendView) -> WindowView {
    WindowView {
        title: "Friend request"@,
        class: Some(FriendRequestWindow::WINDOW_CLASS@),
        size_bound: friend_request_size_bound(),
        elements: seq![
            ElementView::Text { text: friend_request_message(friend.name) },
            ElementView::Button {
                text: "reject"@,
                event: UserEvent::RejectFriendRequest {
                    account_id: friend.account_id,
                    character_id: friend.character_id,
                },
                width_bound: DimensionBound {
                    size: Dimension::Relative(50),
                    minimum_size: None,
                    maximum_size: None,
                },
            },
            ElementView::Button {
                text: "accept"@,
                event: UserEvent::AcceptFriendRequest {
                    account_id: friend.account_id,
                    character_id: friend.character_id,
                },
                width_bound: DimensionBound {
                    size: Dimension::Remaining,
                    minimum_size: None,
                    maximum_size: None,
                },
            },
        ],
    }
}

impl FriendRequestWindow {
    /// The class of every friend request window; all of them can be closed
    /// by it at once.
    pub const WINDOW_CLASS: &'static str = "friend_request";

    /// The window for a request of `friend`.
    pub fn new(friend: Friend) -> (window: Self)
        ensures
            window@ == friend@,
    {
        FriendRequestWindow { friend }
    }

}

impl PrototypeWindow for FriendRequestWindow {
    /// The window gets a class so that all friend request windows can be
    /// closed by it, but the prototype has none, so that several requests
    /// can be open at once.
    fn to_window(&self) -> (window: WindowDescription)
        ensures
            window@ == friend_request_window(self@),
            message_shows_name(window@.elements[0], self@.name),
    {
        proof {
            lemma_friend_request_message_shows_whole_name(self@);
        }
        let mut message = String::from_str("^ffaa00");
        message.append(self.friend.name.as_str());
        message.append("^000000 wants to be friends with you");

        let mut elements: Vec<Element> = Vec::new();
        elements.push(Element::Text { text: message });
        elements.push(
            Element::Button {
                text: String::from_str("reject"),
                event: UserEvent::RejectFriendRequest {
                    account_id: self.friend.account_id,
                    character_id: self.friend.character_id,
                },
                width_bound: DimensionBound {
                    size: Dimension::Relative(50),
                    minimum_size: None,
                    maximum_size: None,
                },
            },
        );
        elements.push(
            Element::Button {
                text: String::from_str("accept"),
                event: UserEvent::AcceptFriendRequest {
                    account_id: self.friend.account_id,
                    character_id: self.friend.character_id,
                },
                width_bound: DimensionBound {
                    size: Dimension::Remaining,
                    minimum_size: None,
                    maximum_size: None,
                },
            },
        );

        let window = WindowDescription {
            title: String::from_str("Friend request"),
            class: Some(String::from_str(FriendRequestWindow::WINDOW_CLASS)),
            size_bound: SizeBound {
                width: Dimension::Absolute(250),
                minimum_width: Some(Dimension::Absolute(250)),
                maximum_width: Some(Dimension::Absolute(250)),
                height: Dimension::Flexible,
                minimum_height: None,
                maximum_height: None,
            },
            elements,
        };
        assert(window@.elements =~= friend_request_window(self@).elements);
        window
    }
}

/// Whether `element` is the text `^ffaa00`, then all of `name`, then
/// `^000000 wants to be friends with you`.
pub open spec fn message_shows_name(element: ElementView, name: Seq<char>) -> bool {
    element matches ElementView::Text { text } && {
        &&& text.len() == 7 + name.len() + 36
        &&& text.subrange(0, 7) == "^ffaa00"@
        &&& text.subrange(7, 7 + name.len() as int) == name
        &&& text.subrange(7 + name.len() as int, text.len() as int) == "^000000 wants to be friends with you"@
    }
}

/// The message of a friend request window shows the whole name of the
/// friend who asks, whatever its length, between the color switches.
pub proof fn lemma_friend_request_message_shows_whole_name(friend: FriendView)
    ensures
        message_shows_name(friend_request_window(friend).elements[0], friend.name),
{
    reveal_strlit("^ffaa00");
    reveal_strlit("^000000 wants to be friends with you");
    let text = friend_request_message(friend.name);
    let prefix = "^ffaa00"@;
    let suffix = "^000000 wants to be friends with you"@;
    assert(text.subrange(0, 7) =~= prefix);
    assert(text.subrange(7, 7 + friend.name.len() as int) =~= friend.name);
    assert(text.subrange(7 + friend.name.len() as int, text.len() as int) =~= suffix);
}

/// Friend request windows for two friends show the same message exactly when
/// the two names are the same.
pub proof fn lemma_friend_request_messages_differ_by_name(first: FriendView, second: FriendView)
    ensures
        friend_request_window(first).elements[0] == friend_request_window(second).elements[0]
            <==> first.name == second.name,
{
    lemma_friend_request_message_shows_whole_name(first);
    lemma_friend_request_message_shows_whole_name(second);
    if friend_request_window(first).elements[0] == friend_request_window(second).elements[0] {
        let text = friend_request_message(first.name);
        assert(first.name.len() == second.name.len());
        assert(first.name =~= text.subrange(7, 7 + first.name.len() as int));
        assert(second.name =~= text.subrange(7, 7 + second.name.len() as int));
    }
}

/// Every friend request window carries the same class, whoever asks, so
/// that all of them can be closed by that class.
pub proof fn lemma_friend_request_windows_share_class(first: FriendView, second: FriendView)
    ensures
        friend_request_window(first).class == friend_request_window(second).class,
        friend_request_window(first).class == Some(FriendRequestWindow::WINDOW_CLASS@),
{
}

/// Both buttons of a friend request window answer the request of the friend
/// who asked: the first rejects it, the second accepts it.
pub proof fn lemma_friend_request_buttons_answer_friend(friend: FriendView)
    ensures
        friend_request_window(friend).elements.len() == 3,
        friend_request_window(friend).elements[1] matches ElementView::Button { event, .. }
            && event == (UserEvent::RejectFriendRequest {
            account_id: friend.account_id,
            character_id: friend.character_id,
        }),
        friend_request_window(friend).elements[2] matches ElementView::Button { event, .. }
            && event == (UserEvent::AcceptFriendRequest {
            account_id: friend.account_id,
            character_id: friend.character_id,
        }),
{
}

} // verus!
