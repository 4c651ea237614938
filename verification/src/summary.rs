//! One-line summaries of messages, for the log.

use std::collections::HashMap;
use vstd::prelude::*;
use crate::cache::{map_views, CacheView};
use crate::chat::{decoded_name, shown_name, Chat};
use crate::message::{ChatIdTrait, MediaKind, Message};
use crate::text::{
    chars_of, decimal, push_chars, push_decimal, push_text, text_of, trim_bounds, trimmed,
};

verus! {

broadcast use vstd::std_specs::hash::group_hash_axioms;

/// The length of a text's first line: the number of characters before the
/// first line feed, or all of them where there is none.
pub open spec fn first_line_len(s: Seq<char>) -> nat
    decreases s.len(),
{
    if s.len() > 0 && s[0] != '\n' {
        1 + first_line_len(s.drop_first())
    } else {
        0
    }
}

/// The headline of a text: the first line of the trimmed text, trimmed
/// again, with ` ...` after it where more lines follow; `<no message>` for
/// a text that is all white space.
pub open spec fn headline(text: Seq<char>) -> Seq<char> {
    let body = trimmed(text);
    let n = first_line_len(body) as int;
    if body.len() == 0 {
        "<no message>"@
    } else if n < body.len() {
        trimmed(body.take(n)) + " ..."@
    } else {
        trimmed(body.take(n))
    }
}

/// A text with no line feed among its first `n` characters and one right
/// after them, or none at all, has a first line of length `n`.
proof fn lemma_first_line_len(s: Seq<char>, n: int)
    requires
        0 <= n <= s.len(),
        forall|i: int| 0 <= i < n ==> s[i] != '\n',
        n < s.len() ==> s[n] == '\n',
    ensures
        first_line_len(s) == n,
    decreases n,
{
    if n > 0 {
        let rest = s.drop_first();
        assert forall|i: int| 0 <= i < n - 1 implies rest[i] != '\n' by {
            assert(rest[i] == s[i + 1]);
        }
        if n - 1 < rest.len() {
            assert(rest[n - 1] == s[n]);
        }
        lemma_first_line_len(rest, n - 1);
    }
}

/// Appends the headline of `text` to `out`.
pub fn push_headline(out: &mut String, text: &str)
    ensures
        final(out)@ == old(out)@ + headline(text@),
{
    let chars = chars_of(text);
    let (a, b) = trim_bounds(&chars, 0, chars.len());
    assert(chars@.subrange(0, chars.len() as int) == chars@);
    if a == b {
        push_text(out, "<no message>");
        return ;
    }
    let ghost body = chars@.subrange(a as int, b as int);
    let mut n: usize = a;
    while n < b && chars[n] != '\n'
        invariant
            a <= n <= b <= chars.len(),
            forall|i: int| a <= i < n ==> chars@[i] != '\n',
        decreases b - n,
    {
        n += 1;
    }
    proof {
        assert forall|i: int| 0 <= i < n - a implies body[i] != '\n' by {
            assert(body[i] == chars@[a + i]);
        }
        if n < b {
            assert(body[n - a] == chars@[n as int]);
        }
        lemma_first_line_len(body, n - a);
        assert(chars@.subrange(a as int, n as int) =~= body.take(n - a));
    }
    let (la, lb) = trim_bounds(&chars, a, n);
    push_chars(out, &chars, la, lb);
    if n < b {
        push_text(out, " ...");
    } else {
        assert(out@ =~= old(out)@ + headline(text@));
    }
}

/// The word for a kind of attachment.
pub open spec fn media_word(kind: MediaKind) -> Seq<char> {
    match kind {
        MediaKind::Photo => "photo"@,
        MediaKind::Document => "document"@,
        MediaKind::Geo => "geo"@,
        MediaKind::Contact => "contact"@,
        MediaKind::Unsupported => "unsupported"@,
        MediaKind::WebPage => "webpage"@,
        MediaKind::Venue => "venue"@,
        MediaKind::Game => "game"@,
        MediaKind::Invoice => "invoice"@,
        MediaKind::GeoLive => "geo live"@,
        MediaKind::Poll => "poll"@,
        MediaKind::Dice => "dice"@,
        MediaKind::Empty => "empty"@,
        MediaKind::Story => "story"@,
        MediaKind::Giveaway => "giveaway"@,
        MediaKind::GiveawayResults => "giveaway results"@,
        MediaKind::PaidMedia => "paid media"@,
    }
}

/// Computes [`media_word`].
pub fn describe_media(kind: MediaKind) -> (r: &'static str)
    ensures
        r@ == media_word(kind),
{
    match kind {
        MediaKind::Photo => "photo",
        MediaKind::Document => "document",
        MediaKind::Geo => "geo",
        MediaKind::Contact => "contact",
        MediaKind::Unsupported => "unsupported",
        MediaKind::WebPage => "webpage",
        MediaKind::Venue => "venue",
        MediaKind::Game => "game",
        MediaKind::Invoice => "invoice",
        MediaKind::GeoLive => "geo live",
        MediaKind::Poll => "poll",
        MediaKind::Dice => "dice",
        MediaKind::Empty => "empty",
        MediaKind::Story => "story",
        MediaKind::Giveaway => "giveaway",
        MediaKind::GiveawayResults => "giveaway results",
        MediaKind::PaidMedia => "paid media",
    }
}

/// What a message says, or a description in angle brackets where it says
/// nothing.
pub open spec fn message_text(msg: Message) -> Seq<char> {
    match msg {
        Message::Message(m) => if m.message@.len() > 0 {
            m.message@
        } else {
            match m.media {
                Some(media) => "<"@ + media_word(media.kind) + ">"@,
                None => "<empty message>"@,
            }
        },
        Message::Service(m) => "<service: "@ + m.action@ + ">"@,
        Message::Empty(_) => "<empty>"@,
    }
}

/// Computes [`message_text`].
pub fn text_of_message(msg: &Message) -> (r: String)
    ensures
        r@ == message_text(*msg),
{
    let mut out = String::new();
    match msg {
        Message::Message(m) => {
            if m.message.as_str().unicode_len() > 0 {
                push_text(&mut out, m.message.as_str());
            } else {
                match &m.media {
                    Some(media) => {
                        push_text(&mut out, "<");
                        push_text(&mut out, describe_media(media.kind));
                        push_text(&mut out, ">");
                    },
                    None => {
                        push_text(&mut out, "<empty message>");
                    },
                }
            }
        },
        Message::Service(m) => {
            push_text(&mut out, "<service: ");
            push_text(&mut out, m.action.as_str());
            push_text(&mut out, ">");
        },
        Message::Empty(_) => {
            push_text(&mut out, "<empty>");
        },
    }
    out
}

/// The name under which a chat id is shown: the chat's name where the
/// chat is known and has one, else `<no name>`.
pub open spec fn chat_label(chats: CacheView, chat_id: i64) -> Seq<char> {
    if chats.contains_key(chat_id) {
        match shown_name(decoded_name(chats[chat_id].kind, chats[chat_id].raw)) {
            Some(name) => name,
            None => "<no name>"@,
        }
    } else {
        "<no name>"@
    }
}

/// The summary of a message: `<chat> (#<chat id>): <headline>`, or a fixed
/// text for a message that names no chat.
pub open spec fn pretty_summary(msg: Message, chats: CacheView) -> Seq<char> {
    match msg.spec_chat_id() {
        Some(chat_id) => chat_label(chats, chat_id) + " (#"@ + decimal(chat_id as int) + "): "@
            + headline(message_text(msg)),
        None => "[Unknown chat]: <no message data>"@,
    }
}

/// Summarises a message in one line, naming its chat as `chat_map` knows it.
pub fn to_pretty_summary(msg: &Message, chat_map: &HashMap<i64, Chat>) -> (r: String)
    ensures
        r@ == pretty_summary(*msg, map_views(chat_map@)),
{
    let mut out = String::new();
    let chat_id = match msg.chat_id() {
        Some(id) => id,
        None => {
            push_text(&mut out, "[Unknown chat]: <no message data>");
            return out;
        },
    };
    let message_text = text_of_message(msg);
    let name = match chat_map.get(&chat_id) {
        Some(chat) => chat.name(),
        None => None,
    };
    match name {
        Some(name) => {
            push_text(&mut out, name.as_str());
        },
        None => {
            push_text(&mut out, "<no name>");
        },
    }
    push_text(&mut out, " (#");
    push_decimal(&mut out, chat_id);
    push_text(&mut out, "): ");
    push_headline(&mut out, message_text.as_str());
    out
}

} // verus!
