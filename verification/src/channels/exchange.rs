//! What a channel and its surroundings say to each other.

use vstd::prelude::*;
use crate::channels::link::Link;
use crate::utils::response_write_signed::ResponseSigned;

verus! {

/// What kind of message a header announces.
#[derive(Debug, Clone, Copy, PartialEq, Eq)]
pub enum ContentType {
    Announce,
    Subscribe,
    Unsubscribe,
    Keyload,
    SignedPacket,
    TaggedPacket,
    ChangeKey,
    Other,
}

/// What is known of one fetched message before the engine has seen it.
#[derive(Debug, Clone, Copy, PartialEq, Eq)]
pub enum Header {
    /// The header could not be parsed.
    Unreadable,
    /// The header was parsed and announces this kind of content.
    Typed(ContentType),
}

/// Something worth telling the user that does not stop the operation.
#[derive(Debug, Clone, Copy, PartialEq, Eq)]
pub enum Notice {
    /// The engine refused the message at `index`, offered to it as `kind`.
    Rejected { index: usize, kind: ContentType },
    /// The message at `index` is of a kind this operation has no use for.
    Unexpected { index: usize },
    /// The channel is not connected, so nothing was fetched.
    NotConnected,
    /// No announcement was found among the fetched messages.
    NoAnnouncement,
}

/// Why an operation was given up.
#[derive(Debug, Clone, Copy, PartialEq, Eq)]
pub enum Reason {
    /// The surroundings reported that the last action failed.
    Outside,
    /// The header of the message at `index` could not be parsed.
    UnreadableHeader { index: usize },
    /// The engine refused the message at `index`, which had to be accepted.
    Refused { index: usize },
    /// The event does not answer the action that was asked for.
    OutOfTurn,
}

/// What an operation hands back when it is complete.
#[derive(Debug, Clone, PartialEq, Eq)]
pub enum Outcome {
    Opened { channel_address: String, announcement_tag: String },
    SubscriberAdded { keyload_tag: String },
    Signed(ResponseSigned),
    Tagged { tagged_message_tag: String },
    SubscriberRemoved,
    KeyChange { change_key_tag: Option<String> },
    /// The tag of the subscription in force, if there is one.
    Connected { subscription_tag: Option<String> },
    Disconnected { unsubscribe_tag: String },
    /// The number of packets that the engine accepted.
    Read { packets: usize },
    Updated,
}

/// What the surroundings report back after performing an action.
#[derive(Debug, Clone, PartialEq, Eq)]
pub enum Event {
    /// The messages found at the link, in the order of their arrival.
    Fetched(Vec<Header>),
    /// The engine accepted the message it was offered.
    Accepted,
    /// The engine refused the message it was offered.
    Rejected,
    /// The notice was delivered.
    Noted,
    /// The engine wrapped the packet; this is the link of the new message.
    Wrapped(Link),
    /// The wrapped message was sent.
    Sent,
    /// The action failed in a way the operation cannot get over.
    Failed,
}

/// What the surroundings are asked to do next.
#[derive(Debug, Clone, PartialEq, Eq)]
pub enum Action {
    /// Fetch the messages at this link.
    Fetch(Link),
    /// Offer the fetched message at `index` to the engine as a `kind`.
    Unwrap { index: usize, kind: ContentType },
    /// Tell the user.
    Note(Notice),
    /// Have the engine wrap a packet of this kind, linked to `link`; `None`
    /// stands for the address that no message has.
    Wrap { kind: ContentType, link: Option<Link> },
    /// Send the message that was wrapped last.
    Send,
    /// The operation is complete.
    Done(Outcome),
    /// The operation is given up.
    Abort(Reason),
}

impl Action {
    /// True when the operation has come to its end, one way or the other.
    pub open spec fn is_final(&self) -> bool {
        self is Done || self is Abort
    }
}

} // verus!
