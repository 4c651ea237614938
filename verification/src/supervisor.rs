//! The update loop's decisions: what one update does to the database and
//! which downloads it calls for, when the session is checkpointed, and how
//! the loop stops.

use vstd::prelude::*;
use crate::cache::{chat_views, differs, merged, persisted, writes, CacheView};
use crate::chat::Chat;
use crate::db::{Database, DbError, Step};
use crate::events::{deletion_rows, message_row, EventRowView};
use crate::media::{download_media_raw, download_owed, MediaDownload};
use crate::message::{ChatIdTrait, Message};
use crate::summary::{pretty_summary, to_pretty_summary};
use crate::text::text_of;

verus! {

/// Seconds that must have gone by since the last checkpoint for the next
/// one to be due.
pub const CHECKPOINT_INTERVAL_SECS: u64 = 30;

/// Milliseconds between two looks at whether the loop has finished.
pub const JOIN_POLL_MILLIS: u64 = 100;

/// One update from the remote side.
#[derive(Clone, Debug, PartialEq, Eq)]
pub enum Update {
    NewMessage(Message),
    EditMessage(Message),
    DeleteMessages(Vec<i32>),
    /// Any other kind of update; it is ignored.
    Other,
}

impl Update {
    /// The message that the update brings, new or edited.
    pub open spec fn spec_message(&self) -> Option<Message> {
        match *self {
            Update::NewMessage(msg) => Some(msg),
            Update::EditMessage(msg) => Some(msg),
            _ => None,
        }
    }
}

/// What handling one update left for the caller to do.
#[derive(Clone, Debug, PartialEq, Eq)]
pub struct Ingested {
    /// How many chat snapshots were news and went to the chats table.
    pub updated_chats: usize,
    /// The line to log for a new or edited message.
    pub summary: Option<String>,
    /// The downloads to start, if the message has media to store.
    pub download: Option<MediaDownload>,
}

/// The path under which a planned download records a message's media.
pub open spec fn planned(download: Option<MediaDownload>) -> Option<Seq<char>> {
    match download {
        Some(d) => Some(d.paths.media_rel_path@),
        None => None,
    }
}

/// The rows that an update adds to the event log, given the path under
/// which its message's media is recorded: one for a new or edited message,
/// one per id for a batch of deletions, none for any other update.
pub open spec fn event_rows(update: Update, media_rel_path: Option<Seq<char>>) -> Seq<
    EventRowView,
> {
    match update {
        Update::NewMessage(msg) => match message_row(msg, false, media_rel_path) {
            Some(row) => seq![row],
            None => Seq::empty(),
        },
        Update::EditMessage(msg) => match message_row(msg, true, media_rel_path) {
            Some(row) => seq![row],
            None => Seq::empty(),
        },
        Update::DeleteMessages(ids) => deletion_rows(ids@),
        Update::Other => Seq::empty(),
    }
}

/// Whether `r` is what handling `update` leaves to do, with the chats
/// known as in `cache`.
pub open spec fn ingested_matches(update: Update, cache: CacheView, r: Ingested) -> bool {
    match update.spec_message() {
        Some(msg) => {
            &&& msg.spec_chat_id() is Some
            &&& text_of(r.summary) == Some(pretty_summary(msg, cache))
            &&& download_owed(msg, r.download)
        },
        None => r.summary is None && r.download is None,
    }
}

/// Handles one update with the chat snapshots that came with it.
///
/// The snapshots are merged into the chat cache first. A new or edited
/// message is then recorded in the event log together with the path that
/// its media will have; a batch of deletions is recorded as a whole; any
/// other update is ignored. The downloads are left to the caller, who
/// starts them without waiting for them.
pub fn handle_update(db: &mut Database, update: &Update, chats: &Vec<Chat>) -> (r: Result<
    Ingested,
    DbError,
>)
    ensures
        match r {
            Ok(done) => {
                &&& final(db).cache() == merged(old(db).cache(), chat_views(chats@))
                &&& final(db).chats_table() == persisted(
                    old(db).chats_table(),
                    writes(old(db).cache(), chat_views(chats@)),
                )
                &&& old(db).mirrored() ==> final(db).mirrored()
                &&& final(db).appended() == old(db).appended() + event_rows(
                    *update,
                    planned(done.download),
                )
                &&& done.updated_chats == writes(old(db).cache(), chat_views(chats@)).len()
                &&& ingested_matches(*update, final(db).cache(), done)
            },
            Err(DbError::Storage { step, .. }) => if step == Step::UpdateChat {
                exists|k: int|
                    0 <= k < chats.len() && differs(
                        merged(old(db).cache(), #[trigger] chat_views(chats@).take(k)),
                        chats@[k]@,
                    ) && final(db).cache() == merged(
                        old(db).cache(),
                        chat_views(chats@).take(k + 1),
                    ) && final(db).chats_table() == persisted(
                        old(db).chats_table(),
                        writes(old(db).cache(), chat_views(chats@).take(k)),
                    )
            } else {
                &&& final(db).cache() == merged(old(db).cache(), chat_views(chats@))
                &&& final(db).chats_table() == persisted(
                    old(db).chats_table(),
                    writes(old(db).cache(), chat_views(chats@)),
                )
                &&& match *update {
                    Update::NewMessage(msg) => step == Step::SaveMessage && msg.spec_chat_id()
                        is Some,
                    Update::EditMessage(msg) => step == Step::SaveMessage && msg.spec_chat_id()
                        is Some,
                    Update::DeleteMessages(_) => step == Step::BeginDeletions || step
                        == Step::SaveMessageDeleted || step == Step::CommitDeletions,
                    Update::Other => false,
                }
            },
            Err(DbError::MissingChatId) => {
                &&& final(db).cache() == merged(old(db).cache(), chat_views(chats@))
                &&& final(db).chats_table() == persisted(
                    old(db).chats_table(),
                    writes(old(db).cache(), chat_views(chats@)),
                )
                &&& update.spec_message() matches Some(msg) && msg.spec_chat_id() is None
            },
            Err(DbError::CorruptChat { .. }) => false,
        },
        r is Err ==> final(db).appended() == old(db).appended(),
{
    let chat_map = match db.update_chats(chats) {
        Ok(chat_map) => chat_map,
        Err(e) => {
            return Err(e);
        },
    };
    let updated_chats = db.updated_chats();
    match update {
        Update::NewMessage(msg) => {
            let summary = to_pretty_summary(msg, &chat_map);
            let download = download_media_raw(msg);
            let path = planned_path(&download);
            match db.save_message(msg, false, path) {
                Ok(_) => Ok(Ingested { updated_chats, summary: Some(summary), download }),
                Err(e) => Err(e),
            }
        },
        Update::EditMessage(msg) => {
            let summary = to_pretty_summary(msg, &chat_map);
            let download = download_media_raw(msg);
            let path = planned_path(&download);
            match db.save_message(msg, true, path) {
                Ok(_) => Ok(Ingested { updated_chats, summary: Some(summary), download }),
                Err(e) => Err(e),
            }
        },
        Update::DeleteMessages(ids) => {
            match db.save_messages_deleted(ids.as_slice()) {
                Ok(_) => Ok(Ingested { updated_chats, summary: None, download: None }),
                Err(e) => Err(e),
            }
        },
        Update::Other => Ok(Ingested { updated_chats, summary: None, download: None }),
    }
}

/// The path under which a message's media is recorded: that of its main
/// file, known as soon as the download is planned.
pub fn planned_path(download: &Option<MediaDownload>) -> (r: Option<String>)
    ensures
        text_of(r) == planned(*download),
{
    match download {
        Some(d) => Some(d.paths.media_rel_path.clone()),
        None => None,
    }
}

/// Whether the session is due to be checkpointed, given the whole seconds
/// that have gone by since the last checkpoint: once more than the interval
/// has passed, whether or not anything happened in it.
pub fn checkpoint_due(elapsed_secs: u64) -> (r: bool)
    ensures
        r == (elapsed_secs > CHECKPOINT_INTERVAL_SECS),
{
    elapsed_secs > CHECKPOINT_INTERVAL_SECS
}

/// Where the update loop stands.
#[derive(Clone, Copy, Debug, PartialEq, Eq, Structural)]
pub enum LoopState {
    /// Updates are being pulled and handled.
    Running,
    /// An interruption was signalled; the loop has yet to finish.
    Stopping,
    /// The loop's unit of work has finished.
    Stopped,
}

/// How the loop's unit of work ended.
#[derive(Clone, Copy, Debug, PartialEq, Eq, Structural)]
pub enum Outcome {
    /// The loop saw the interruption and left on its own.
    Completed,
    /// The loop was aborted from outside while it waited.
    Cancelled,
    /// An error came up from inside the loop.
    Failed,
}

/// What reaches the supervisor from outside.
#[derive(Clone, Copy, Debug, PartialEq, Eq, Structural)]
pub enum Event {
    /// The interrupt signal arrived.
    Interrupt,
    /// The loop's unit of work was seen to have finished.
    LoopEnded(Outcome),
}

/// What the supervisor asks of its caller in answer to an event.
#[derive(Clone, Copy, Debug, PartialEq, Eq, Structural)]
pub enum Action {
    /// Nothing.
    Nothing,
    /// Abort the loop's unit of work, which may be waiting for an update.
    AbortLoop,
    /// Write the final session checkpoint.
    FinalCheckpoint,
}

/// The supervisor of the update loop: its state, whether an interruption
/// was signalled, and how the loop ended.
#[derive(Clone, Copy, Debug, PartialEq, Eq, Structural)]
pub struct Supervisor {
    pub state: LoopState,
    pub interrupted: bool,
    pub outcome: Option<Outcome>,
}

/// The supervisor of a loop that has just been started.
pub open spec fn started() -> Supervisor {
    Supervisor { state: LoopState::Running, interrupted: false, outcome: None }
}

/// The supervisor after an event.
pub open spec fn next(s: Supervisor, event: Event) -> Supervisor {
    match s.state {
        LoopState::Stopped => s,
        _ => match event {
            Event::Interrupt => Supervisor {
                state: LoopState::Stopping,
                interrupted: true,
                outcome: s.outcome,
            },
            Event::LoopEnded(outcome) => Supervisor {
                state: LoopState::Stopped,
                interrupted: s.interrupted,
                outcome: Some(outcome),
            },
        },
    }
}

/// What the supervisor asks for in answer to an event.
pub open spec fn answer(s: Supervisor, event: Event) -> Action {
    match s.state {
        LoopState::Stopped => Action::Nothing,
        _ => match event {
            Event::Interrupt => Action::AbortLoop,
            Event::LoopEnded(_) => Action::FinalCheckpoint,
        },
    }
}

/// The supervisor after a sequence of events, from a given start.
pub open spec fn after(s: Supervisor, events: Seq<Event>) -> Supervisor
    decreases events.len(),
{
    if events.len() == 0 {
        s
    } else {
        next(after(s, events.drop_last()), events.last())
    }
}

/// How many final checkpoints a sequence of events asks for, from a given
/// start.
pub open spec fn final_checkpoints(s: Supervisor, events: Seq<Event>) -> nat
    decreases events.len(),
{
    if events.len() == 0 {
        0
    } else {
        let before = final_checkpoints(s, events.drop_last());
        if answer(after(s, events.drop_last()), events.last()) == Action::FinalCheckpoint {
            before + 1
        } else {
            before
        }
    }
}

/// Whether the process reports success once the loop has ended: an abort
/// from outside is no failure.
pub open spec fn succeeded(outcome: Outcome) -> bool {
    outcome != Outcome::Failed
}

impl Supervisor {
    /// The supervisor of a loop that has just been started.
    pub fn new() -> (r: Supervisor)
        ensures
            r == started(),
    {
        Supervisor { state: LoopState::Running, interrupted: false, outcome: None }
    }

    /// Takes an event and says what to do about it.
    pub fn on_event(&mut self, event: Event) -> (r: Action)
        ensures
            *final(self) == next(*old(self), event),
            r == answer(*old(self), event),
    {
        match self.state {
            LoopState::Stopped => Action::Nothing,
            _ => match event {
                Event::Interrupt => {
                    self.state = LoopState::Stopping;
                    self.interrupted = true;
                    Action::AbortLoop
                },
                Event::LoopEnded(outcome) => {
                    self.state = LoopState::Stopped;
                    self.outcome = Some(outcome);
                    Action::FinalCheckpoint
                },
            },
        }
    }

    /// Whether the loop goes into another iteration: looked at once per
    /// iteration, before the next update is waited for.
    pub fn should_continue(&self) -> (r: bool)
        ensures
            r == !self.interrupted,
    {
        !self.interrupted
    }

    /// Whether the process reports success; `None` while the loop has not
    /// ended.
    pub fn exit_ok(&self) -> (r: Option<bool>)
        ensures
            r == match self.outcome {
                Some(outcome) => Some(succeeded(outcome)),
                None => None,
            },
    {
        match self.outcome {
            Some(Outcome::Failed) => Some(false),
            Some(_) => Some(true),
            None => None,
        }
    }
}

/// From its start on, the supervisor is stopped exactly if it knows how the
/// loop ended, and has been interrupted whenever it is stopping.
pub proof fn lemma_supervisor_states(events: Seq<Event>)
    ensures
        (after(started(), events).state == LoopState::Stopped) == (after(
            started(),
            events,
        ).outcome is Some),
        after(started(), events).state == LoopState::Stopping ==> after(
            started(),
            events,
        ).interrupted,
        after(started(), events).state == LoopState::Running ==> !after(
            started(),
            events,
        ).interrupted,
    decreases events.len(),
{
    if events.len() > 0 {
        lemma_supervisor_states(events.drop_last());
    }
}

/// Whatever events arrive in whatever order, the final checkpoint is asked
/// for exactly once if the loop is ever seen to end, and never before.
pub proof fn lemma_final_checkpoint_once(events: Seq<Event>)
    ensures
        final_checkpoints(started(), events) == if after(started(), events).state
            == LoopState::Stopped {
            1nat
        } else {
            0nat
        },
        (after(started(), events).state == LoopState::Stopped) == (exists|i: int|
            0 <= i < events.len() && #[trigger] events[i] is LoopEnded),
    decreases events.len(),
{
    if events.len() > 0 {
        let init = events.drop_last();
        lemma_final_checkpoint_once(init);
        if after(started(), init).state == LoopState::Stopped {
            let i = choose|i: int| 0 <= i < init.len() && #[trigger] init[i] is LoopEnded;
            assert(events[i] is LoopEnded);
        } else if events.last() is LoopEnded {
            assert(events[events.len() - 1] is LoopEnded);
        } else {
            assert forall|i: int| 0 <= i < events.len() implies !(#[trigger] events[i]
                is LoopEnded) by {
                if i < init.len() {
                    assert(init[i] == events[i]);
                }
            }
        }
    }
}

} // verus!
