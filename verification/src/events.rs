//! Rows of the append-only event log: one for each new, edited or deleted
//! message.

use vstd::prelude::*;
use crate::bytes::copy_bytes;
use crate::message::{ChatIdTrait, DateTrait, Message};
use crate::store::{param_views, SqlValue, SqlValueView};
use crate::text::text_of;

verus! {

/// What happened to a message.
#[derive(Clone, Copy, Debug, PartialEq, Eq, Structural)]
pub enum EventType {
    New,
    Edited,
    Deleted,
}

impl EventType {
    /// The text under which the event type is stored.
    pub open spec fn spec_name(self) -> Seq<char> {
        match self {
            EventType::New => "message_new"@,
            EventType::Edited => "message_edited"@,
            EventType::Deleted => "message_deleted"@,
        }
    }

    /// Computes [`EventType::spec_name`].
    pub fn name(self) -> (r: &'static str)
        ensures
            r@ == self.spec_name(),
    {
        match self {
            EventType::New => "message_new",
            EventType::Edited => "message_edited",
            EventType::Deleted => "message_deleted",
        }
    }
}

/// One row of the event log, before the store numbers it.
#[derive(Clone, Debug, PartialEq, Eq)]
pub struct EventRow {
    pub chat_id: Option<i64>,
    pub message_id: i32,
    pub date: Option<i32>,
    pub event_type: EventType,
    pub serialized: Option<Vec<u8>>,
    pub media_rel_path: Option<String>,
}

/// An event row as a mathematical value.
pub struct EventRowView {
    pub chat_id: Option<i64>,
    pub message_id: i32,
    pub date: Option<i32>,
    pub event_type: EventType,
    pub serialized: Option<Seq<u8>>,
    pub media_rel_path: Option<Seq<char>>,
}

impl View for EventRow {
    type V = EventRowView;

    open spec fn view(&self) -> EventRowView {
        EventRowView {
            chat_id: self.chat_id,
            message_id: self.message_id,
            date: self.date,
            event_type: self.event_type,
            serialized: match self.serialized {
                Some(bytes) => Some(bytes@),
                None => None,
            },
            media_rel_path: text_of(self.media_rel_path),
        }
    }
}

/// The row that records a new or edited message, or `None` where the
/// message names no chat.
pub open spec fn message_row(
    msg: Message,
    is_edited: bool,
    media_rel_path: Option<Seq<char>>,
) -> Option<EventRowView> {
    match msg.spec_chat_id() {
        Some(chat_id) => Some(
            EventRowView {
                chat_id: Some(chat_id),
                message_id: msg.spec_id(),
                date: msg.spec_date(),
                event_type: if is_edited {
                    EventType::Edited
                } else {
                    EventType::New
                },
                serialized: Some(msg.spec_serialized()),
                media_rel_path,
            },
        ),
        None => None,
    }
}

/// The row that records the deletion of one message: nothing is known of
/// it but its id.
pub open spec fn deletion_row(message_id: i32) -> EventRowView {
    EventRowView {
        chat_id: None,
        message_id,
        date: None,
        event_type: EventType::Deleted,
        serialized: None,
        media_rel_path: None,
    }
}

/// The rows that record the deletion of some messages: one per id, in order.
pub open spec fn deletion_rows(message_ids: Seq<i32>) -> Seq<EventRowView> {
    Seq::new(message_ids.len(), |i: int| deletion_row(message_ids[i]))
}

/// The views of some rows.
pub open spec fn row_views(rows: Seq<EventRow>) -> Seq<EventRowView> {
    Seq::new(rows.len(), |i: int| rows[i]@)
}

/// The view of an optional row.
pub open spec fn row_view_of(row: Option<EventRow>) -> Option<EventRowView> {
    match row {
        Some(row) => Some(row@),
        None => None,
    }
}

/// Builds the row for a new or edited message.
pub fn event_row(raw_message: &Message, is_edited: bool, media_rel_path: Option<String>) -> (r:
    Option<EventRow>)
    ensures
        row_view_of(r) == message_row(*raw_message, is_edited, text_of(media_rel_path)),
{
    let chat_id = match raw_message.chat_id() {
        Some(chat_id) => chat_id,
        None => {
            return None;
        },
    };
    let event_type = if is_edited {
        EventType::Edited
    } else {
        EventType::New
    };
    Some(
        EventRow {
            chat_id: Some(chat_id),
            message_id: raw_message.id(),
            date: raw_message.date(),
            event_type,
            serialized: Some(raw_message.to_bytes()),
            media_rel_path,
        },
    )
}

/// Builds the row for one deleted message.
pub fn deleted_row(message_id: i32) -> (r: EventRow)
    ensures
        r@ == deletion_row(message_id),
{
    EventRow {
        chat_id: None,
        message_id,
        date: None,
        event_type: EventType::Deleted,
        serialized: None,
        media_rel_path: None,
    }
}

/// Builds the rows for a batch of deleted messages.
pub fn deleted_rows(message_id: &[i32]) -> (r: Vec<EventRow>)
    ensures
        row_views(r@) == deletion_rows(message_id@),
{
    let mut rows: Vec<EventRow> = Vec::new();
    let mut i: usize = 0;
    while i < message_id.len()
        invariant
            i <= message_id.len(),
            rows.len() == i,
            row_views(rows@) == deletion_rows(message_id@.take(i as int)),
        decreases message_id.len() - i,
    {
        let ghost before = rows@;
        rows.push(deleted_row(message_id[i]));
        i += 1;
        assert(row_views(rows@) =~= deletion_rows(message_id@.take(i as int))) by {
            assert forall|j: int| 0 <= j < i implies row_views(rows@)[j] == deletion_rows(
                message_id@.take(i as int),
            )[j] by {
                if j < i - 1 {
                    assert(rows@[j] == before[j]);
                    assert(row_views(before)[j] == deletion_rows(
                        message_id@.take(i - 1),
                    )[j]);
                }
            }
        }
    }
    assert(message_id@.take(i as int) == message_id@);
    rows
}

/// The parameters of the statement that appends a row to the event log:
/// chat id, message id, date, type, payload and media path, in this order,
/// with `NULL` for what the row lacks.
pub open spec fn event_columns(row: EventRowView) -> Seq<SqlValueView> {
    seq![
        match row.chat_id {
            Some(n) => SqlValueView::Integer(n),
            None => SqlValueView::Null,
        },
        SqlValueView::Integer(row.message_id as i64),
        match row.date {
            Some(n) => SqlValueView::Integer(n as i64),
            None => SqlValueView::Null,
        },
        SqlValueView::Text(row.event_type.spec_name()),
        match row.serialized {
            Some(bytes) => SqlValueView::Blob(bytes),
            None => SqlValueView::Null,
        },
        match row.media_rel_path {
            Some(path) => SqlValueView::Text(path),
            None => SqlValueView::Null,
        },
    ]
}

/// Builds [`event_columns`].
pub fn event_params(row: &EventRow) -> (r: Vec<SqlValue>)
    ensures
        param_views(r@) == event_columns(row@),
{
    let mut params: Vec<SqlValue> = Vec::with_capacity(6);
    params.push(
        match row.chat_id {
            Some(n) => SqlValue::Integer(n),
            None => SqlValue::Null,
        },
    );
    params.push(SqlValue::Integer(row.message_id as i64));
    params.push(
        match row.date {
            Some(n) => SqlValue::Integer(n as i64),
            None => SqlValue::Null,
        },
    );
    params.push(SqlValue::Text(row.event_type.name().to_owned()));
    params.push(
        match &row.serialized {
            Some(bytes) => SqlValue::Blob(copy_bytes(bytes)),
            None => SqlValue::Null,
        },
    );
    params.push(
        match &row.media_rel_path {
            Some(path) => SqlValue::Text(path.clone()),
            None => SqlValue::Null,
        },
    );
    assert(param_views(params@) =~= event_columns(row@));
    params
}

/// A batch of deletions is recorded by exactly one row per id, each of
/// type `message_deleted` and with no chat, date, payload or media path.
pub proof fn lemma_deletion_rows(message_ids: Seq<i32>)
    ensures
        deletion_rows(message_ids).len() == message_ids.len(),
        forall|i: int|
            0 <= i < message_ids.len() ==> {
                let row = #[trigger] deletion_rows(message_ids)[i];
                &&& row.message_id == message_ids[i]
                &&& row.event_type == EventType::Deleted
                &&& row.event_type.spec_name() == "message_deleted"@
                &&& row.chat_id is None
                &&& row.date is None
                &&& row.serialized is None
                &&& row.media_rel_path is None
            },
{
}

} // verus!
