//! The database: the event log and the chats table in one SQLite file,
//! with the chat cache kept in step with the chats table.

use std::collections::HashMap;
use vstd::prelude::*;
use crate::cache::{
    chat_views, differs, keyed, lemma_store_mirrors_cache, loaded, map_views, merged, persisted,
    stored, writes, CacheView, ChatCache, Store,
};
use crate::chat::{chat_params, serialized, Chat, ChatError};
use crate::events::{
    deleted_rows, deletion_rows, event_params, event_row, message_row, row_views, EventRowView,
};
use crate::text::text_of;
use crate::message::{ChatIdTrait, Message};
use crate::store::{
    begin_transaction, commit_transaction, connection_of, execute, open_connection, query_rows,
    SQL_CREATE_CHATS, SQL_CREATE_EVENTS, SQL_INSERT, SQL_LOAD_CHATS, SQL_UPSERT_CHAT,
};

verus! {

/// The step at which the store failed.
#[derive(Clone, Copy, Debug, PartialEq, Eq, Structural)]
pub enum Step {
    OpenConnection,
    CreateEventsTable,
    CreateChatsTable,
    LoadChats,
    SaveMessage,
    BeginDeletions,
    SaveMessageDeleted,
    CommitDeletions,
    UpdateChat,
}

/// Why an operation on the database failed.
#[derive(Debug)]
pub enum DbError {
    /// The store refused or failed a statement.
    Storage { step: Step, source: rusqlite::Error },
    /// A row of the chats table is no chat.
    CorruptChat { chat_id: i64, cause: ChatError },
    /// A new or edited message names no chat.
    MissingChatId,
}

/// The event log and the chats table, with the chat cache.
///
/// Besides the connection and the cache, a database keeps a record, for
/// proofs only, of what the store has acknowledged through it: the rows
/// appended to the event log since it was opened, and the chats table as
/// the acknowledged writes leave it. That the store holds what it has
/// acknowledged is SQLite's promise and is not proved here.
pub struct Database {
    conn: rusqlite::Connection,
    chats: ChatCache,
    updated: usize,
    journal: Ghost<Seq<EventRowView>>,
    table: Ghost<Store>,
}

impl Database {
    /// The chat cache as a mathematical value.
    pub closed spec fn cache(&self) -> CacheView {
        self.chats@
    }

    /// The rows that the store has acknowledged for the event log since the
    /// database was opened, in order. Rows of a transaction count once the
    /// commit is acknowledged.
    pub closed spec fn appended(&self) -> Seq<EventRowView> {
        self.journal@
    }

    /// The chats table as the rows loaded at startup and the writes
    /// acknowledged since leave it.
    pub closed spec fn chats_table(&self) -> Store {
        self.table@
    }

    /// Whether the chats table holds, for every chat, the stored form of
    /// what the cache holds.
    pub open spec fn mirrored(&self) -> bool {
        self.chats_table() == stored(self.cache())
    }

    /// How many snapshots the last batch of chat snapshots wrote to the
    /// chats table, as a mathematical value.
    pub closed spec fn spec_updated(&self) -> nat {
        self.updated as nat
    }

    /// How many snapshots the last batch of chat snapshots wrote to the
    /// chats table.
    pub fn updated_chats(&self) -> (r: usize)
        ensures
            r == self.spec_updated(),
    {
        self.updated
    }

    /// Builds the cache from the rows that the chats table held at startup.
    pub fn load_chats(rows: &Vec<(i64, Vec<u8>)>) -> (r: Result<ChatCache, DbError>)
        ensures
            match r {
                Ok(cache) => loaded(rows@) == Ok::<CacheView, (i64, ChatError)>(cache@),
                Err(DbError::CorruptChat { chat_id, cause }) => loaded(rows@) == Err::<
                    CacheView,
                    (i64, ChatError),
                >((chat_id, cause)),
                Err(_) => false,
            },
    {
        match ChatCache::load(rows) {
            Ok(cache) => Ok(cache),
            Err((chat_id, cause)) => Err(DbError::CorruptChat { chat_id, cause }),
        }
    }

    /// Opens the database at `db_file`, creates the two tables unless they
    /// exist, and loads every stored chat into the cache.
    pub fn new(db_file: &str) -> (r: Result<Database, DbError>)
        ensures
            match r {
                Ok(db) => {
                    &&& db.spec_updated() == 0
                    &&& db.appended() == Seq::<EventRowView>::empty()
                    &&& db.mirrored()
                    &&& exists|rows: Seq<(i64, Vec<u8>)>|
                        loaded(rows) == Ok::<CacheView, (i64, ChatError)>(db.cache())
                },
                Err(DbError::Storage { step, .. }) => step == Step::OpenConnection || step
                    == Step::CreateEventsTable || step == Step::CreateChatsTable || step
                    == Step::LoadChats,
                Err(DbError::CorruptChat { chat_id, cause }) => exists|rows: Seq<(i64, Vec<u8>)>|
                    loaded(rows) == Err::<CacheView, (i64, ChatError)>((chat_id, cause)),
                Err(DbError::MissingChatId) => false,
            },
    {
        let conn = match open_connection(db_file) {
            Ok(conn) => conn,
            Err(source) => {
                return Err(DbError::Storage { step: Step::OpenConnection, source });
            },
        };
        let none = Vec::new();
        match execute(&conn, SQL_CREATE_EVENTS, &none) {
            Ok(_) => {},
            Err(source) => {
                return Err(DbError::Storage { step: Step::CreateEventsTable, source });
            },
        }
        match execute(&conn, SQL_CREATE_CHATS, &none) {
            Ok(_) => {},
            Err(source) => {
                return Err(DbError::Storage { step: Step::CreateChatsTable, source });
            },
        }
        let rows = match query_rows(&conn, SQL_LOAD_CHATS) {
            Ok(rows) => rows,
            Err(source) => {
                return Err(DbError::Storage { step: Step::LoadChats, source });
            },
        };
        match Self::load_chats(&rows) {
            Ok(chats) => {
                let ghost table = stored(chats@);
                Ok(
                    Database {
                        conn,
                        chats,
                        updated: 0,
                        journal: Ghost(Seq::empty()),
                        table: Ghost(table),
                    },
                )
            },
            Err(e) => Err(e),
        }
    }

    /// Records a new or edited message in the event log, with the path of
    /// its media if it has any. A message that names no chat is refused
    /// before the store is touched.
    pub fn save_message(
        &mut self,
        raw_message: &Message,
        is_edited: bool,
        media_rel_path: Option<String>,
    ) -> (r: Result<(), DbError>)
        ensures
            final(self).cache() == old(self).cache(),
            final(self).chats_table() == old(self).chats_table(),
            final(self).spec_updated() == old(self).spec_updated(),
            match r {
                Ok(_) => message_row(*raw_message, is_edited, text_of(media_rel_path)) matches Some(
                    row,
                ) && final(self).appended() == old(self).appended().push(row),
                Err(DbError::MissingChatId) => raw_message.spec_chat_id() is None
                    && final(self).appended() == old(self).appended(),
                Err(DbError::Storage { step, .. }) => raw_message.spec_chat_id() is Some && step
                    == Step::SaveMessage && final(self).appended() == old(self).appended(),
                Err(DbError::CorruptChat { .. }) => false,
            },
    {
        let row = match event_row(raw_message, is_edited, media_rel_path) {
            Some(row) => row,
            None => {
                return Err(DbError::MissingChatId);
            },
        };
        match execute(&self.conn, SQL_INSERT, &event_params(&row)) {
            Ok(_) => {
                self.journal = Ghost(self.journal@.push(row@));
                Ok(())
            },
            Err(source) => Err(DbError::Storage { step: Step::SaveMessage, source }),
        }
    }

    /// Records the deletion of some messages: one row per id, all within
    /// one transaction that is committed after the last row and rolled back
    /// if any step fails. So either every id gets its row or none does.
    #[verifier::loop_isolation(false)]
    pub fn save_messages_deleted(&mut self, message_id: &[i32]) -> (r: Result<(), DbError>)
        ensures
            final(self).cache() == old(self).cache(),
            final(self).chats_table() == old(self).chats_table(),
            final(self).spec_updated() == old(self).spec_updated(),
            match r {
                Ok(_) => final(self).appended() == old(self).appended() + deletion_rows(
                    message_id@,
                ),
                Err(DbError::Storage { step, .. }) => (step == Step::BeginDeletions || step
                    == Step::SaveMessageDeleted || step == Step::CommitDeletions)
                    && final(self).appended() == old(self).appended(),
                Err(_) => false,
            },
    {
        let rows = deleted_rows(message_id);
        let tx = match begin_transaction(&mut self.conn) {
            Ok(tx) => tx,
            Err(source) => {
                return Err(DbError::Storage { step: Step::BeginDeletions, source });
            },
        };
        let mut i: usize = 0;
        while i < rows.len()
            invariant
                i <= rows.len(),
            decreases rows.len() - i,
        {
            match execute(connection_of(&tx), SQL_INSERT, &event_params(&rows[i])) {
                Ok(_) => {},
                Err(source) => {
                    return Err(DbError::Storage { step: Step::SaveMessageDeleted, source });
                },
            }
            i += 1;
        }
        match commit_transaction(tx) {
            Ok(_) => {
                self.journal = Ghost(self.journal@ + row_views(rows@));
                Ok(())
            },
            Err(source) => Err(DbError::Storage { step: Step::CommitDeletions, source }),
        }
    }

    /// Takes note of a batch of chat snapshots, in order: each one that is
    /// news replaces what the cache held and is written to the chats table,
    /// and the writes that the store took are counted. Returns the whole
    /// mapping of chat id to snapshot. Stops at the first write that the
    /// store fails; the cache then holds that snapshot and those before it.
    pub fn update_chats(&mut self, chats: &Vec<Chat>) -> (r: Result<HashMap<i64, Chat>, DbError>)
        ensures
            match r {
                Ok(map) => {
                    &&& final(self).cache() == merged(old(self).cache(), chat_views(chats@))
                    &&& final(self).chats_table() == persisted(
                        old(self).chats_table(),
                        writes(old(self).cache(), chat_views(chats@)),
                    )
                    &&& old(self).mirrored() ==> final(self).mirrored()
                    &&& final(self).spec_updated() == writes(
                        old(self).cache(),
                        chat_views(chats@),
                    ).len()
                    &&& map_views(map@) == final(self).cache()
                    &&& keyed(map_views(map@))
                },
                Err(DbError::Storage { step, .. }) => {
                    &&& step == Step::UpdateChat
                    &&& exists|k: int|
                        0 <= k < chats.len() && differs(
                            merged(old(self).cache(), #[trigger] chat_views(chats@).take(k)),
                            chats@[k]@,
                        ) && final(self).cache() == merged(
                            old(self).cache(),
                            chat_views(chats@).take(k + 1),
                        ) && final(self).chats_table() == persisted(
                            old(self).chats_table(),
                            writes(old(self).cache(), chat_views(chats@).take(k)),
                        ) && final(self).spec_updated() == writes(
                            old(self).cache(),
                            chat_views(chats@).take(k),
                        ).len()
                },
                Err(_) => false,
            },
            final(self).appended() == old(self).appended(),
    {
        let ghost views = chat_views(chats@);
        self.updated = 0;
        let mut i: usize = 0;
        while i < chats.len()
            invariant
                i <= chats.len(),
                views == chat_views(chats@),
                self.cache() == merged(old(self).cache(), views.take(i as int)),
                self.updated == writes(old(self).cache(), views.take(i as int)).len(),
                self.updated <= i,
                self.journal == old(self).journal,
                self.table@ == persisted(
                    old(self).table@,
                    writes(old(self).cache(), views.take(i as int)),
                ),
            decreases chats.len() - i,
        {
            let chat = &chats[i];
            assert(views.take(i + 1).drop_last() == views.take(i as int));
            assert(views.take(i + 1).last() == chat@);
            if self.chats.observe(chat) {
                match execute(&self.conn, SQL_UPSERT_CHAT, &chat_params(chat)) {
                    Ok(_) => {
                        self.updated += 1;
                        self.table = Ghost(self.table@.insert(chat.id, serialized(chat@)));
                        assert(writes(old(self).cache(), views.take(i + 1)).drop_last()
                            == writes(old(self).cache(), views.take(i as int)));
                    },
                    Err(source) => {
                        return Err(DbError::Storage { step: Step::UpdateChat, source });
                    },
                }
            }
            i += 1;
        }
        assert(views.take(i as int) == views);
        proof {
            if old(self).mirrored() {
                lemma_store_mirrors_cache(old(self).cache(), views);
            }
        }
        Ok(self.chats.chats())
    }

    /// How many chats the cache holds.
    pub fn chat_count(&self) -> (r: usize)
        ensures
            r == self.cache().len(),
    {
        self.chats.len()
    }

    /// The snapshot held for a chat id, if any.
    pub fn chat(&self, chat_id: i64) -> (r: Option<&Chat>)
        ensures
            match r {
                Some(chat) => self.cache().contains_key(chat_id) && self.cache()[chat_id]
                    == chat@ && chat.id == chat_id,
                None => !self.cache().contains_key(chat_id),
            },
    {
        self.chats.get(chat_id)
    }
}

} // verus!
