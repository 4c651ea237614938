use grammers_client::grammers_tl_types as tl;
use grammers_client::grammers_tl_types::Serializable;
use tg_keeper::cache::ChatCache;
use tg_keeper::chat::{
    chat_params, decode_name, deserialize_chat, display_name, serialize_chat, Chat, ChatError,
    ChatKind,
};
use tg_keeper::store::SqlValue;

fn user_bytes(id: i64, first_name: Option<&str>) -> Vec<u8> {
    let mut user = grammers_client::types::User::from_raw(tl::enums::User::Empty(
        tl::types::UserEmpty { id },
    ));
    user.raw.first_name = first_name.map(|s| s.to_string());
    user.raw.to_bytes()
}

fn group_bytes(id: i64, title: &str) -> Vec<u8> {
    tl::enums::Chat::Forbidden(tl::types::ChatForbidden { id, title: title.to_string() })
        .to_bytes()
}

fn channel_bytes(id: i64, title: &str) -> Vec<u8> {
    let channel = grammers_client::types::Channel::from_raw(tl::enums::Chat::ChannelForbidden(
        tl::types::ChannelForbidden {
            id,
            broadcast: true,
            megagroup: false,
            access_hash: 0,
            title: title.to_string(),
            until_date: None,
        },
    ));
    channel.raw.to_bytes()
}

#[test]
fn kind_bytes_are_zero_one_two() {
    assert_eq!(ChatKind::User.tag(), 0);
    assert_eq!(ChatKind::Group.tag(), 1);
    assert_eq!(ChatKind::Channel.tag(), 2);
    assert_eq!(ChatKind::from_tag(0), Some(ChatKind::User));
    assert_eq!(ChatKind::from_tag(1), Some(ChatKind::Group));
    assert_eq!(ChatKind::from_tag(2), Some(ChatKind::Channel));
    assert_eq!(ChatKind::from_tag(3), None);
    assert_eq!(ChatKind::from_tag(255), None);
}

#[test]
fn stored_form_leads_with_the_kind_byte() {
    let chat = Chat { id: 5, kind: ChatKind::Group, raw: vec![9, 8, 7] };
    assert_eq!(serialize_chat(&chat), vec![1, 9, 8, 7]);
    let chat = Chat { id: 5, kind: ChatKind::User, raw: vec![] };
    assert_eq!(serialize_chat(&chat), vec![0]);
    let chat = Chat { id: 5, kind: ChatKind::Channel, raw: vec![0] };
    assert_eq!(serialize_chat(&chat), vec![2, 0]);
}

#[test]
fn user_snapshot_round_trips() {
    let chat = Chat { id: 7, kind: ChatKind::User, raw: user_bytes(7, Some("Ann")) };
    let stored = serialize_chat(&chat);
    let back = deserialize_chat(7, &stored).expect("a stored user reads back");
    assert_eq!(back, chat);
    assert_eq!(serialize_chat(&back), stored);
    assert_eq!(back.name(), Some("Ann".to_string()));
}

#[test]
fn group_snapshot_round_trips() {
    let chat = Chat { id: 5, kind: ChatKind::Group, raw: group_bytes(5, "Team") };
    let stored = serialize_chat(&chat);
    let back = deserialize_chat(5, &stored).expect("a stored group reads back");
    assert_eq!(back, chat);
    assert_eq!(serialize_chat(&back), stored);
    assert_eq!(back.name(), Some("Team".to_string()));
}

#[test]
fn channel_snapshot_round_trips() {
    let chat = Chat { id: 11, kind: ChatKind::Channel, raw: channel_bytes(11, "News") };
    let stored = serialize_chat(&chat);
    let back = deserialize_chat(11, &stored).expect("a stored channel reads back");
    assert_eq!(back, chat);
    assert_eq!(serialize_chat(&back), stored);
    assert_eq!(back.name(), Some("News".to_string()));
}

#[test]
fn names_are_decoded_by_kind() {
    assert_eq!(decode_name(ChatKind::User, &user_bytes(1, Some("Bob"))), Some("Bob".to_string()));
    assert_eq!(decode_name(ChatKind::User, &user_bytes(1, None)), Some(String::new()));
    assert_eq!(decode_name(ChatKind::Group, &group_bytes(2, "G")), Some("G".to_string()));
    assert_eq!(decode_name(ChatKind::Channel, &channel_bytes(3, "C")), Some("C".to_string()));
    assert_eq!(decode_name(ChatKind::Group, &vec![1, 2, 3, 4]), None);
    assert_eq!(decode_name(ChatKind::Group, &vec![]), None);
    assert_eq!(decode_name(ChatKind::User, &vec![]), None);
    assert_eq!(decode_name(ChatKind::Channel, &vec![0, 0]), None);
}

#[test]
fn an_empty_name_is_no_name() {
    let chat = Chat { id: 1, kind: ChatKind::User, raw: user_bytes(1, None) };
    assert_eq!(chat.name(), None);
    let chat = Chat { id: 1, kind: ChatKind::Group, raw: group_bytes(1, "") };
    assert_eq!(chat.name(), None);
    let chat = Chat { id: 1, kind: ChatKind::Group, raw: vec![0xde, 0xad] };
    assert_eq!(chat.name(), None);
    assert_eq!(display_name(Some(String::new())), None);
    assert_eq!(display_name(Some("x".to_string())), Some("x".to_string()));
    assert_eq!(display_name(None), None);
}

#[test]
fn bytes_that_are_no_chat_are_refused() {
    assert_eq!(deserialize_chat(1, &vec![]), Err(ChatError::Empty));
    assert_eq!(deserialize_chat(1, &vec![3, 1, 2]), Err(ChatError::UnknownKind(3)));
    assert_eq!(deserialize_chat(1, &vec![255]), Err(ChatError::UnknownKind(255)));
    assert_eq!(deserialize_chat(1, &vec![1]), Err(ChatError::Undecodable));
    assert_eq!(deserialize_chat(1, &vec![1, 1, 2, 3, 4]), Err(ChatError::Undecodable));
    assert_eq!(deserialize_chat(1, &vec![0]), Err(ChatError::Undecodable));
}

#[test]
fn a_copy_equals_what_it_copies() {
    let chat = Chat { id: 5, kind: ChatKind::Group, raw: group_bytes(5, "Team") };
    assert_eq!(chat.duplicate(), chat);
}

#[test]
fn cache_writes_a_snapshot_once() {
    let mut cache = ChatCache::new();
    assert_eq!(cache.len(), 0);
    let first = Chat { id: 5, kind: ChatKind::Group, raw: group_bytes(5, "Team") };
    assert!(cache.observe(&first));
    assert!(!cache.observe(&first));
    assert_eq!(cache.len(), 1);
    assert_eq!(cache.get(5), Some(&first));
    assert_eq!(cache.get(6), None);
    let renamed = Chat { id: 5, kind: ChatKind::Group, raw: group_bytes(5, "Crew") };
    assert!(cache.observe(&renamed));
    assert_eq!(cache.get(5), Some(&renamed));
    assert!(cache.observe(&first));
    assert_eq!(cache.get(5), Some(&first));
    assert_eq!(cache.len(), 1);
}

#[test]
fn cache_tells_kinds_apart() {
    let mut cache = ChatCache::new();
    let raw = vec![1, 2, 3];
    assert!(cache.observe(&Chat { id: 1, kind: ChatKind::User, raw: raw.clone() }));
    assert!(cache.observe(&Chat { id: 1, kind: ChatKind::Group, raw: raw.clone() }));
    assert!(!cache.observe(&Chat { id: 1, kind: ChatKind::Group, raw: raw.clone() }));
    assert!(cache.observe(&Chat { id: 2, kind: ChatKind::Group, raw }));
    assert_eq!(cache.len(), 2);
    assert_eq!(cache.chats().len(), 2);
}

#[test]
fn cache_loads_stored_rows() {
    let team = Chat { id: 5, kind: ChatKind::Group, raw: group_bytes(5, "Team") };
    let ann = Chat { id: 7, kind: ChatKind::User, raw: user_bytes(7, Some("Ann")) };
    let rows = vec![(5, serialize_chat(&team)), (7, serialize_chat(&ann))];
    let cache = ChatCache::load(&rows).expect("both rows are chats");
    assert_eq!(cache.len(), 2);
    assert_eq!(cache.get(5), Some(&team));
    assert_eq!(cache.get(7), Some(&ann));
    let cache = ChatCache::load(&Vec::new()).expect("no rows, no trouble");
    assert_eq!(cache.len(), 0);
}

#[test]
fn cache_refuses_the_first_row_that_is_no_chat() {
    let team = Chat { id: 5, kind: ChatKind::Group, raw: group_bytes(5, "Team") };
    let rows = vec![(5, serialize_chat(&team)), (6, vec![9]), (7, vec![])];
    assert_eq!(ChatCache::load(&rows).err(), Some((6, ChatError::UnknownKind(9))));
    let rows = vec![(8, vec![]), (6, vec![9])];
    assert_eq!(ChatCache::load(&rows).err(), Some((8, ChatError::Empty)));
    let rows = vec![(8, vec![2, 1])];
    assert_eq!(ChatCache::load(&rows).err(), Some((8, ChatError::Undecodable)));
}

#[test]
fn chat_parameters_are_id_and_stored_form() {
    let chat = Chat { id: -5, kind: ChatKind::Channel, raw: vec![9, 8] };
    assert_eq!(chat_params(&chat), vec![SqlValue::Integer(-5), SqlValue::Blob(vec![2, 9, 8])]);
}
