//! Messages as the archive sees them: who they belong to, when they were
//! sent, what they carry, and the bytes that are stored for them.

use vstd::prelude::*;
use crate::media::Media;

verus! {

/// The conversation a message belongs to.
#[derive(Clone, Copy, Debug, PartialEq, Eq, Structural)]
pub enum Peer {
    /// A private conversation, named by the other user's id.
    User(i64),
    /// A small group, named by its chat id.
    Chat(i64),
    /// A channel or large group, named by its channel id.
    Channel(i64),
}

/// The kind of attachment a message announces, whether or not it can be fetched.
#[derive(Clone, Copy, Debug, PartialEq, Eq, Structural)]
pub enum MediaKind {
    Photo,
    Document,
    Geo,
    Contact,
    Unsupported,
    WebPage,
    Venue,
    Game,
    Invoice,
    GeoLive,
    Poll,
    Dice,
    Empty,
    Story,
    Giveaway,
    GiveawayResults,
    PaidMedia,
}

/// The attachment of a message: its announced kind, and its content where
/// the kind is one the archive understands.
#[derive(Clone, Debug, PartialEq, Eq)]
pub struct MessageMedia {
    pub kind: MediaKind,
    pub content: Option<Media>,
}

/// An ordinary message.
#[derive(Clone, Debug, PartialEq, Eq)]
pub struct MessageBody {
    pub id: i32,
    pub peer_id: Peer,
    pub date: i32,
    pub message: String,
    pub media: Option<MessageMedia>,
    /// The message in its wire form, stored verbatim with the event.
    pub serialized: Vec<u8>,
}

/// A service message (someone joined, a call took place, ...).
#[derive(Clone, Debug, PartialEq, Eq)]
pub struct MessageService {
    pub id: i32,
    pub peer_id: Peer,
    pub date: i32,
    /// A printable description of what happened.
    pub action: String,
    pub serialized: Vec<u8>,
}

/// A placeholder for a message whose content is gone.
#[derive(Clone, Debug, PartialEq, Eq)]
pub struct MessageEmpty {
    pub id: i32,
    pub peer_id: Option<Peer>,
    pub serialized: Vec<u8>,
}

/// A message of any of the three shapes.
#[derive(Clone, Debug, PartialEq, Eq)]
pub enum Message {
    Message(MessageBody),
    Service(MessageService),
    Empty(MessageEmpty),
}

/// A phone call in one of its stages.
#[derive(Clone, Copy, Debug, PartialEq, Eq, Structural)]
pub enum PhoneCall {
    Empty,
    Waiting { date: i32 },
    Requested { date: i32 },
    Accepted { date: i32 },
    Call { date: i32 },
    Discarded,
}

/// Things that belong to a conversation.
pub trait ChatIdTrait {
    /// The conversation's id as a mathematical value.
    spec fn spec_chat_id(&self) -> Option<i64>;

    /// The id of the conversation this belongs to, or whatever passes as
    /// one for the peer; `None` only where no peer is known.
    fn chat_id(&self) -> (r: Option<i64>)
        ensures
            r == self.spec_chat_id(),
    ;
}

/// Things that happened at a known time.
pub trait DateTrait {
    /// The time as a mathematical value.
    spec fn spec_date(&self) -> Option<i32>;

    /// Unix seconds of the occurrence, where one is recorded.
    fn date(&self) -> (r: Option<i32>)
        ensures
            r == self.spec_date(),
    ;
}

impl ChatIdTrait for Peer {
    open spec fn spec_chat_id(&self) -> Option<i64> {
        Some(
            match *self {
                Peer::User(user_id) => user_id,
                Peer::Chat(chat_id) => chat_id,
                Peer::Channel(channel_id) => channel_id,
            },
        )
    }

    fn chat_id(&self) -> (r: Option<i64>) {
        Some(
            match self {
                Peer::User(user_id) => *user_id,
                Peer::Chat(chat_id) => *chat_id,
                Peer::Channel(channel_id) => *channel_id,
            },
        )
    }
}

impl ChatIdTrait for MessageBody {
    open spec fn spec_chat_id(&self) -> Option<i64> {
        self.peer_id.spec_chat_id()
    }

    fn chat_id(&self) -> (r: Option<i64>) {
        self.peer_id.chat_id()
    }
}

impl ChatIdTrait for MessageService {
    open spec fn spec_chat_id(&self) -> Option<i64> {
        self.peer_id.spec_chat_id()
    }

    fn chat_id(&self) -> (r: Option<i64>) {
        self.peer_id.chat_id()
    }
}

impl ChatIdTrait for MessageEmpty {
    open spec fn spec_chat_id(&self) -> Option<i64> {
        match self.peer_id {
            Some(peer) => peer.spec_chat_id(),
            None => None,
        }
    }

    fn chat_id(&self) -> (r: Option<i64>) {
        match &self.peer_id {
            Some(peer) => peer.chat_id(),
            None => None,
        }
    }
}

impl ChatIdTrait for Message {
    open spec fn spec_chat_id(&self) -> Option<i64> {
        match *self {
            Message::Message(msg) => msg.spec_chat_id(),
            Message::Service(msg) => msg.spec_chat_id(),
            Message::Empty(msg) => msg.spec_chat_id(),
        }
    }

    fn chat_id(&self) -> (r: Option<i64>) {
        match self {
            Message::Message(msg) => msg.chat_id(),
            Message::Service(msg) => msg.chat_id(),
            Message::Empty(msg) => msg.chat_id(),
        }
    }
}

impl DateTrait for Message {
    open spec fn spec_date(&self) -> Option<i32> {
        match *self {
            Message::Message(msg) => Some(msg.date),
            Message::Service(msg) => Some(msg.date),
            Message::Empty(_) => None,
        }
    }

    fn date(&self) -> (r: Option<i32>) {
        match self {
            Message::Message(msg) => Some(msg.date),
            Message::Service(msg) => Some(msg.date),
            Message::Empty(_) => None,
        }
    }
}

impl DateTrait for PhoneCall {
    open spec fn spec_date(&self) -> Option<i32> {
        match *self {
            PhoneCall::Empty => None,
            PhoneCall::Waiting { date } => Some(date),
            PhoneCall::Requested { date } => Some(date),
            PhoneCall::Accepted { date } => Some(date),
            PhoneCall::Call { date } => Some(date),
            PhoneCall::Discarded => None,
        }
    }

    fn date(&self) -> (r: Option<i32>) {
        match self {
            PhoneCall::Empty => None,
            PhoneCall::Waiting { date } => Some(*date),
            PhoneCall::Requested { date } => Some(*date),
            PhoneCall::Accepted { date } => Some(*date),
            PhoneCall::Call { date } => Some(*date),
            PhoneCall::Discarded => None,
        }
    }
}

impl Message {
    /// The message's id as a mathematical value.
    pub open spec fn spec_id(&self) -> i32 {
        match *self {
            Message::Message(msg) => msg.id,
            Message::Service(msg) => msg.id,
            Message::Empty(msg) => msg.id,
        }
    }

    /// The stored wire form as a mathematical value.
    pub open spec fn spec_serialized(&self) -> Seq<u8> {
        match *self {
            Message::Message(msg) => msg.serialized@,
            Message::Service(msg) => msg.serialized@,
            Message::Empty(msg) => msg.serialized@,
        }
    }

    /// The message's id within its conversation.
    pub fn id(&self) -> (r: i32)
        ensures
            r == self.spec_id(),
    {
        match self {
            Message::Message(msg) => msg.id,
            Message::Service(msg) => msg.id,
            Message::Empty(msg) => msg.id,
        }
    }

    /// A copy of the message's wire form.
    pub fn to_bytes(&self) -> (r: Vec<u8>)
        ensures
            r@ == self.spec_serialized(),
    {
        match self {
            Message::Message(msg) => crate::bytes::copy_bytes(&msg.serialized),
            Message::Service(msg) => crate::bytes::copy_bytes(&msg.serialized),
            Message::Empty(msg) => crate::bytes::copy_bytes(&msg.serialized),
        }
    }
}

} // verus!
