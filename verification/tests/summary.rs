use grammers_client::grammers_tl_types as tl;
use grammers_client::grammers_tl_types::Serializable;
use std::collections::HashMap;
use tg_keeper::chat::{Chat, ChatKind};
use tg_keeper::message::{
    MediaKind, Message, MessageBody, MessageEmpty, MessageMedia, MessageService, Peer,
};
use tg_keeper::summary::{describe_media, push_headline, text_of_message, to_pretty_summary};
use tg_keeper::text::{chars_of, is_whitespace};

fn headline(text: &str) -> String {
    let mut out = String::new();
    push_headline(&mut out, text);
    out
}

fn text(id: i64, message: &str) -> Message {
    Message::Message(MessageBody {
        id: 1,
        peer_id: Peer::Chat(id),
        date: 0,
        message: message.to_string(),
        media: None,
        serialized: vec![],
    })
}

fn chats() -> HashMap<i64, Chat> {
    let raw = tl::enums::Chat::Forbidden(tl::types::ChatForbidden {
        id: 42,
        title: "Team".to_string(),
    })
    .to_bytes();
    let unnamed = tl::enums::Chat::Empty(tl::types::ChatEmpty { id: 43 }).to_bytes();
    let mut map = HashMap::new();
    map.insert(42, Chat { id: 42, kind: ChatKind::Group, raw });
    map.insert(43, Chat { id: 43, kind: ChatKind::Group, raw: unnamed });
    map
}

#[test]
fn headline_is_the_first_line_trimmed() {
    assert_eq!(headline("hello"), "hello");
    assert_eq!(headline("  hello  "), "hello");
    assert_eq!(headline("\n\n hello \t\n"), "hello");
    assert_eq!(headline("a b  c"), "a b  c");
}

#[test]
fn headline_marks_further_lines() {
    assert_eq!(headline("first\nsecond"), "first ...");
    assert_eq!(headline("first \r\nsecond\nthird"), "first ...");
    assert_eq!(headline("  first\n\nsecond  "), "first ...");
    assert_eq!(headline("first\rsame line"), "first\rsame line");
}

#[test]
fn headline_of_white_space_is_a_placeholder() {
    assert_eq!(headline(""), "<no message>");
    assert_eq!(headline(" \n\t\r\n "), "<no message>");
    assert_eq!(headline("\u{2003}\u{00a0}"), "<no message>");
}

#[test]
fn headline_is_appended() {
    let mut out = "x: ".to_string();
    push_headline(&mut out, " a\nb");
    assert_eq!(out, "x: a ...");
}

#[test]
fn characters_are_listed_in_order() {
    assert_eq!(chars_of("aé\n"), vec!['a', 'é', '\n']);
    assert_eq!(chars_of(""), Vec::<char>::new());
}

#[test]
fn media_kinds_have_their_words() {
    let words = [
        (MediaKind::Photo, "photo"),
        (MediaKind::Document, "document"),
        (MediaKind::Geo, "geo"),
        (MediaKind::Contact, "contact"),
        (MediaKind::Unsupported, "unsupported"),
        (MediaKind::WebPage, "webpage"),
        (MediaKind::Venue, "venue"),
        (MediaKind::Game, "game"),
        (MediaKind::Invoice, "invoice"),
        (MediaKind::GeoLive, "geo live"),
        (MediaKind::Poll, "poll"),
        (MediaKind::Dice, "dice"),
        (MediaKind::Empty, "empty"),
        (MediaKind::Story, "story"),
        (MediaKind::Giveaway, "giveaway"),
        (MediaKind::GiveawayResults, "giveaway results"),
        (MediaKind::PaidMedia, "paid media"),
    ];
    for (kind, word) in words {
        assert_eq!(describe_media(kind), word);
    }
}

#[test]
fn message_text_by_kind() {
    assert_eq!(text_of_message(&text(1, "hello\nthere")), "hello\nthere");
    assert_eq!(text_of_message(&text(1, "")), "<empty message>");
    let with_media = Message::Message(MessageBody {
        id: 1,
        peer_id: Peer::Chat(1),
        date: 0,
        message: String::new(),
        media: Some(MessageMedia { kind: MediaKind::GeoLive, content: None }),
        serialized: vec![],
    });
    assert_eq!(text_of_message(&with_media), "<geo live>");
    let service = Message::Service(MessageService {
        id: 1,
        peer_id: Peer::Chat(1),
        date: 0,
        action: "PinMessage".to_string(),
        serialized: vec![],
    });
    assert_eq!(text_of_message(&service), "<service: PinMessage>");
    let empty = Message::Empty(MessageEmpty { id: 1, peer_id: None, serialized: vec![] });
    assert_eq!(text_of_message(&empty), "<empty>");
}

#[test]
fn summary_names_the_chat() {
    let chats = chats();
    assert_eq!(to_pretty_summary(&text(42, " hi \nmore"), &chats), "Team (#42): hi ...");
    assert_eq!(to_pretty_summary(&text(42, "hi"), &chats), "Team (#42): hi");
    assert_eq!(to_pretty_summary(&text(42, "  "), &chats), "Team (#42): <no message>");
    assert_eq!(to_pretty_summary(&text(42, ""), &chats), "Team (#42): <empty message>");
}

#[test]
fn summary_of_unknown_or_unnamed_chat() {
    let chats = chats();
    assert_eq!(to_pretty_summary(&text(43, "hi"), &chats), "<no name> (#43): hi");
    assert_eq!(to_pretty_summary(&text(-7, "hi"), &chats), "<no name> (#-7): hi");
    assert_eq!(to_pretty_summary(&text(1, "hi"), &HashMap::new()), "<no name> (#1): hi");
}

#[test]
fn summary_of_message_without_chat() {
    let empty = Message::Empty(MessageEmpty { id: 1, peer_id: None, serialized: vec![] });
    assert_eq!(to_pretty_summary(&empty, &chats()), "[Unknown chat]: <no message data>");
    let empty = Message::Empty(MessageEmpty {
        id: 1,
        peer_id: Some(Peer::Chat(42)),
        serialized: vec![],
    });
    assert_eq!(to_pretty_summary(&empty, &chats()), "Team (#42): <empty>");
}

#[test]
fn white_space_is_what_the_standard_library_calls_so() {
    for n in 0u32..=0x10FFFF {
        if let Some(c) = char::from_u32(n) {
            assert_eq!(is_whitespace(c), c.is_whitespace(), "U+{:04X}", n);
        }
    }
}

#[test]
fn headline_agrees_with_trim_and_lines() {
    let texts = [
        "",
        " ",
        "a",
        " a ",
        "a\nb",
        "a\r\nb",
        "\r\n a \r\n b \r\n",
        "a\r",
        "a\rb",
        "\u{3000}a\u{2028}b\u{85}",
        "x \n",
        "\n\nx",
        "a\u{b}b\n c",
    ];
    for text in texts {
        let mut lines = text.trim().lines();
        let mut expected =
            lines.next().map(|s| s.trim().to_owned()).unwrap_or("<no message>".to_owned());
        if lines.next().is_some() {
            expected.push_str(" ...");
        }
        assert_eq!(headline(text), expected, "{:?}", text);
    }
}
