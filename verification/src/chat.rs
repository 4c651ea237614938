//! Chat snapshots: the stored form of a chat, its framing with a leading
//! kind byte, and the name under which it is shown.

use vstd::prelude::*;
use grammers_tl_types::Deserializable;
use crate::bytes::copy_bytes;
use crate::store::{param_views, SqlValue, SqlValueView};
use crate::text::text_of;

verus! {

/// The three kinds of chat.
#[derive(Clone, Copy, Debug, PartialEq, Eq, Structural)]
pub enum ChatKind {
    User,
    Group,
    Channel,
}

impl ChatKind {
    /// The byte that leads the stored form of a chat of this kind.
    pub open spec fn spec_tag(self) -> u8 {
        match self {
            ChatKind::User => 0,
            ChatKind::Group => 1,
            ChatKind::Channel => 2,
        }
    }

    /// The kind that a leading byte stands for, if any.
    pub open spec fn spec_from_tag(tag: u8) -> Option<ChatKind> {
        if tag == 0 {
            Some(ChatKind::User)
        } else if tag == 1 {
            Some(ChatKind::Group)
        } else if tag == 2 {
            Some(ChatKind::Channel)
        } else {
            None
        }
    }

    /// Computes [`ChatKind::spec_tag`].
    pub fn tag(self) -> (r: u8)
        ensures
            r == self.spec_tag(),
    {
        match self {
            ChatKind::User => 0,
            ChatKind::Group => 1,
            ChatKind::Channel => 2,
        }
    }

    /// Computes [`ChatKind::spec_from_tag`].
    pub fn from_tag(tag: u8) -> (r: Option<ChatKind>)
        ensures
            r == Self::spec_from_tag(tag),
    {
        if tag == 0 {
            Some(ChatKind::User)
        } else if tag == 1 {
            Some(ChatKind::Group)
        } else if tag == 2 {
            Some(ChatKind::Channel)
        } else {
            None
        }
    }
}

/// One snapshot of a chat: its id, its kind, and its state in wire form.
#[derive(Clone, Debug, PartialEq, Eq)]
pub struct Chat {
    pub id: i64,
    pub kind: ChatKind,
    pub raw: Vec<u8>,
}

/// A chat snapshot as a mathematical value.
pub struct ChatView {
    pub id: i64,
    pub kind: ChatKind,
    pub raw: Seq<u8>,
}

impl View for Chat {
    type V = ChatView;

    open spec fn view(&self) -> ChatView {
        ChatView { id: self.id, kind: self.kind, raw: self.raw@ }
    }
}

/// Why stored bytes are not a chat.
#[derive(Clone, Copy, Debug, PartialEq, Eq, Structural)]
pub enum ChatError {
    /// There is not even a kind byte.
    Empty,
    /// The kind byte is none of the three known ones.
    UnknownKind(u8),
    /// The bytes after the kind byte do not decode as a chat of that kind.
    Undecodable,
}

/// The first name that a user's wire form carries (empty where it carries
/// none), or `None` where the bytes do not decode as a user.
pub uninterp spec fn user_first_name(raw: Seq<u8>) -> Option<Seq<char>>;

/// The title that a group's wire form carries (empty where it carries
/// none), or `None` where the bytes do not decode as a group.
pub uninterp spec fn group_title(raw: Seq<u8>) -> Option<Seq<char>>;

/// The title that a channel's wire form carries, or `None` where the bytes
/// do not decode as a channel.
pub uninterp spec fn channel_title(raw: Seq<u8>) -> Option<Seq<char>>;

/// Decodes a user and reads its first name.
///
/// Trusted: `grammers_tl_types::types::User::from_bytes`, then
/// `grammers_client::types::User::first_name` on the decoded value. The
/// contract only names the result: the same bytes always decode alike.
#[verifier::external_body]
fn decode_user_name(raw: &[u8]) -> (r: Option<String>)
    ensures
        text_of(r) == user_first_name(raw@),
{
    grammers_tl_types::types::User::from_bytes(raw).ok().map(
        |raw| grammers_client::types::User { raw }.first_name().to_owned(),
    )
}

/// Decodes a group and reads its title.
///
/// Trusted: `grammers_tl_types::enums::Chat::from_bytes`, then
/// `grammers_client::types::Group::title` on the decoded value. The
/// contract only names the result: the same bytes always decode alike.
#[verifier::external_body]
fn decode_group_title(raw: &[u8]) -> (r: Option<String>)
    ensures
        text_of(r) == group_title(raw@),
{
    grammers_tl_types::enums::Chat::from_bytes(raw).ok().map(
        |raw| grammers_client::types::Group { raw }.title().to_owned(),
    )
}

/// Decodes a channel and reads its title.
///
/// Trusted: `grammers_tl_types::types::Channel::from_bytes`, then
/// `grammers_client::types::Channel::title` on the decoded value. The
/// contract only names the result: the same bytes always decode alike.
#[verifier::external_body]
fn decode_channel_title(raw: &[u8]) -> (r: Option<String>)
    ensures
        text_of(r) == channel_title(raw@),
{
    grammers_tl_types::types::Channel::from_bytes(raw).ok().map(
        |raw| grammers_client::types::Channel { raw }.title().to_owned(),
    )
}

/// The name that a chat's wire form carries, by kind, or `None` where the
/// bytes do not decode as a chat of that kind.
pub open spec fn decoded_name(kind: ChatKind, raw: Seq<u8>) -> Option<Seq<char>> {
    match kind {
        ChatKind::User => user_first_name(raw),
        ChatKind::Group => group_title(raw),
        ChatKind::Channel => channel_title(raw),
    }
}

/// Computes [`decoded_name`].
pub fn decode_name(kind: ChatKind, raw: &Vec<u8>) -> (r: Option<String>)
    ensures
        text_of(r) == decoded_name(kind, raw@),
{
    match kind {
        ChatKind::User => decode_user_name(raw.as_slice()),
        ChatKind::Group => decode_group_title(raw.as_slice()),
        ChatKind::Channel => decode_channel_title(raw.as_slice()),
    }
}

/// The name to show, given what the wire form carries: an empty name
/// counts as none.
pub open spec fn shown_name(decoded: Option<Seq<char>>) -> Option<Seq<char>> {
    match decoded {
        Some(name) => if name.len() == 0 {
            None
        } else {
            Some(name)
        },
        None => None,
    }
}

/// Computes [`shown_name`].
pub fn display_name(decoded: Option<String>) -> (r: Option<String>)
    ensures
        text_of(r) == shown_name(text_of(decoded)),
{
    match decoded {
        Some(name) => if name.as_str().unicode_len() == 0 {
            None
        } else {
            Some(name)
        },
        None => None,
    }
}

/// The stored form of a chat: the kind byte, then the wire form.
pub open spec fn serialized(chat: ChatView) -> Seq<u8> {
    seq![chat.kind.spec_tag()] + chat.raw
}

/// What stored bytes are as a chat with the given id: the chat, or the
/// reason why they are none.
pub open spec fn deserialized(id: i64, bytes: Seq<u8>) -> Result<ChatView, ChatError> {
    if bytes.len() == 0 {
        Err(ChatError::Empty)
    } else {
        match ChatKind::spec_from_tag(bytes[0]) {
            None => Err(ChatError::UnknownKind(bytes[0])),
            Some(kind) => if decoded_name(kind, bytes.skip(1)) is Some {
                Ok(ChatView { id, kind, raw: bytes.skip(1) })
            } else {
                Err(ChatError::Undecodable)
            },
        }
    }
}

/// The view of a chat, or the error unchanged.
pub open spec fn view_of(r: Result<Chat, ChatError>) -> Result<ChatView, ChatError> {
    match r {
        Ok(chat) => Ok(chat@),
        Err(e) => Err(e),
    }
}

impl Chat {
    /// The name under which the chat is shown: a user's first name, a
    /// group's or channel's title; `None` where there is none.
    pub fn name(&self) -> (r: Option<String>)
        ensures
            text_of(r) == shown_name(decoded_name(self.kind, self.raw@)),
    {
        display_name(decode_name(self.kind, &self.raw))
    }

    /// A copy of the snapshot.
    pub fn duplicate(&self) -> (r: Chat)
        ensures
            r@ == self@,
    {
        Chat { id: self.id, kind: self.kind, raw: copy_bytes(&self.raw) }
    }
}

/// Puts a chat into its stored form.
pub fn serialize_chat(chat: &Chat) -> (r: Vec<u8>)
    ensures
        r@ == serialized(chat@),
{
    let mut vec: Vec<u8> = Vec::with_capacity(1024);
    vec.push(chat.kind.tag());
    let mut i: usize = 0;
    while i < chat.raw.len()
        invariant
            i <= chat.raw.len(),
            vec@ == seq![chat.kind.spec_tag()] + chat.raw@.take(i as int),
        decreases chat.raw.len() - i,
    {
        vec.push(chat.raw[i]);
        i += 1;
    }
    assert(chat.raw@.take(i as int) == chat.raw@);
    vec
}

/// The parameters of the statement that writes a chat: its id and its
/// stored form.
pub open spec fn chat_columns(chat: ChatView) -> Seq<SqlValueView> {
    seq![SqlValueView::Integer(chat.id), SqlValueView::Blob(serialized(chat))]
}

/// Builds [`chat_columns`].
pub fn chat_params(chat: &Chat) -> (r: Vec<SqlValue>)
    ensures
        param_views(r@) == chat_columns(chat@),
{
    let mut params: Vec<SqlValue> = Vec::with_capacity(2);
    params.push(SqlValue::Integer(chat.id));
    params.push(SqlValue::Blob(serialize_chat(chat)));
    assert(param_views(params@) =~= chat_columns(chat@));
    params
}

/// Reads a chat with the given id back from its stored form.
pub fn deserialize_chat(id: i64, serialized: &Vec<u8>) -> (r: Result<Chat, ChatError>)
    ensures
        view_of(r) == deserialized(id, serialized@),
{
    if serialized.len() == 0 {
        return Err(ChatError::Empty);
    }
    let chat_type = serialized[0];
    let kind = match ChatKind::from_tag(chat_type) {
        Some(kind) => kind,
        None => {
            return Err(ChatError::UnknownKind(chat_type));
        },
    };
    let mut raw: Vec<u8> = Vec::new();
    let mut i: usize = 1;
    while i < serialized.len()
        invariant
            1 <= i <= serialized.len(),
            raw@ == serialized@.subrange(1, i as int),
        decreases serialized.len() - i,
    {
        raw.push(serialized[i]);
        i += 1;
    }
    assert(raw@ == serialized@.skip(1));
    match decode_name(kind, &raw) {
        Some(_) => Ok(Chat { id, kind, raw }),
        None => Err(ChatError::Undecodable),
    }
}

/// A chat read back from its stored form goes into the very same bytes
/// again.
pub proof fn lemma_reserialize(id: i64, bytes: Seq<u8>)
    ensures
        deserialized(id, bytes) matches Ok(chat) ==> serialized(chat) == bytes,
{
    if deserialized(id, bytes) is Ok {
        let chat = deserialized(id, bytes)->Ok_0;
        assert(serialized(chat) =~= bytes);
    }
}

/// The stored form of a chat whose wire form decodes reads back as that chat.
pub proof fn lemma_deserialize_serialized(chat: ChatView)
    requires
        decoded_name(chat.kind, chat.raw) is Some,
    ensures
        deserialized(chat.id, serialized(chat)) == Ok::<ChatView, ChatError>(chat),
{
    let bytes = serialized(chat);
    assert(bytes[0] == chat.kind.spec_tag());
    assert(bytes.skip(1) =~= chat.raw);
}

/// Two chats have the same stored form exactly if they agree in kind and
/// wire form.
pub proof fn lemma_serialized_injective(a: ChatView, b: ChatView)
    ensures
        serialized(a) == serialized(b) <==> (a.kind == b.kind && a.raw == b.raw),
{
    if serialized(a) == serialized(b) {
        assert(serialized(a)[0] == a.kind.spec_tag());
        assert(serialized(b)[0] == b.kind.spec_tag());
        assert(serialized(a).skip(1) =~= a.raw);
        assert(serialized(b).skip(1) =~= b.raw);
    }
}

} // verus!
