//! The chat cache: the last snapshot seen of every chat, and the rule that
//! decides which snapshots are worth writing to the store.

use std::collections::HashMap;
use vstd::prelude::*;
use crate::bytes::same_bytes;
use crate::chat::{
    deserialize_chat, deserialized, lemma_serialized_injective, serialized, Chat, ChatError,
    ChatView,
};

verus! {

broadcast use vstd::std_specs::hash::group_hash_axioms;

/// The cache as a mathematical value: chat id to last snapshot.
pub type CacheView = Map<i64, ChatView>;

/// The chats table as a mathematical value: chat id to stored bytes.
pub type Store = Map<i64, Seq<u8>>;

/// Whether a snapshot is news to the cache: the chat is unknown, or its
/// stored form is not byte for byte what the cache holds.
pub open spec fn differs(cache: CacheView, chat: ChatView) -> bool {
    !cache.contains_key(chat.id) || serialized(cache[chat.id]) != serialized(chat)
}

/// The cache after one snapshot was seen.
pub open spec fn observed(cache: CacheView, chat: ChatView) -> CacheView {
    if differs(cache, chat) {
        cache.insert(chat.id, chat)
    } else {
        cache
    }
}

/// The cache after a sequence of snapshots was seen, in order.
pub open spec fn merged(cache: CacheView, snapshots: Seq<ChatView>) -> CacheView
    decreases snapshots.len(),
{
    if snapshots.len() == 0 {
        cache
    } else {
        observed(merged(cache, snapshots.drop_last()), snapshots.last())
    }
}

/// The snapshots of a sequence that are written to the store: each one that
/// was news to the cache when its turn came, in order.
pub open spec fn writes(cache: CacheView, snapshots: Seq<ChatView>) -> Seq<ChatView>
    decreases snapshots.len(),
{
    if snapshots.len() == 0 {
        Seq::empty()
    } else if differs(merged(cache, snapshots.drop_last()), snapshots.last()) {
        writes(cache, snapshots.drop_last()).push(snapshots.last())
    } else {
        writes(cache, snapshots.drop_last())
    }
}

/// What the chats table holds when it mirrors a cache.
pub open spec fn stored(cache: CacheView) -> Store {
    Map::new(|id: i64| cache.contains_key(id), |id: i64| serialized(cache[id]))
}

/// The chats table after some snapshots were written to it, each replacing
/// whatever its chat id held before.
pub open spec fn persisted(store: Store, written: Seq<ChatView>) -> Store
    decreases written.len(),
{
    if written.len() == 0 {
        store
    } else {
        persisted(store, written.drop_last()).insert(
            written.last().id,
            serialized(written.last()),
        )
    }
}

/// The views of some snapshots.
pub open spec fn chat_views(chats: Seq<Chat>) -> Seq<ChatView> {
    Seq::new(chats.len(), |i: int| chats[i]@)
}

/// The views of the snapshots in a map.
pub open spec fn map_views(chats: Map<i64, Chat>) -> CacheView {
    Map::new(|id: i64| chats.contains_key(id), |id: i64| chats[id]@)
}

/// The cache that a sequence of stored rows loads into, or the first row
/// that is no chat, with the reason.
pub open spec fn loaded(rows: Seq<(i64, Vec<u8>)>) -> Result<CacheView, (i64, ChatError)>
    decreases rows.len(),
{
    if rows.len() == 0 {
        Ok(Map::empty())
    } else {
        match loaded(rows.drop_last()) {
            Err(e) => Err(e),
            Ok(cache) => match deserialized(rows.last().0, rows.last().1@) {
                Ok(chat) => Ok(cache.insert(chat.id, chat)),
                Err(e) => Err((rows.last().0, e)),
            },
        }
    }
}

/// Whether every snapshot of a cache sits under its own chat id.
pub open spec fn keyed(cache: CacheView) -> bool {
    forall|id: i64| cache.contains_key(id) ==> (#[trigger] cache[id]).id == id
}

/// The last snapshot seen of every chat, each under its own chat id.
pub struct ChatCache {
    chats: HashMap<i64, Chat>,
}

impl View for ChatCache {
    type V = CacheView;

    closed spec fn view(&self) -> CacheView {
        map_views(self.chats@)
    }
}

/// The view of a loaded cache, or the error unchanged.
pub open spec fn loaded_view(r: Result<ChatCache, (i64, ChatError)>) -> Result<
    CacheView,
    (i64, ChatError),
> {
    match r {
        Ok(cache) => Ok(cache@),
        Err(e) => Err(e),
    }
}

impl ChatCache {
    #[verifier::type_invariant]
    spec fn well_formed(&self) -> bool {
        keyed(map_views(self.chats@))
    }

    /// A cache that knows no chat.
    pub fn new() -> (r: ChatCache)
        ensures
            r@ == Map::<i64, ChatView>::empty(),
    {
        let r = ChatCache { chats: HashMap::new() };
        assert(r@ =~= Map::<i64, ChatView>::empty());
        r
    }

    /// Loads a cache from stored rows of chat id and stored bytes; fails on
    /// the first row that is no chat.
    pub fn load(rows: &Vec<(i64, Vec<u8>)>) -> (r: Result<ChatCache, (i64, ChatError)>)
        ensures
            loaded_view(r) == loaded(rows@),
    {
        let mut chats: HashMap<i64, Chat> = HashMap::new();
        assert(map_views(chats@) =~= Map::<i64, ChatView>::empty());
        let mut i: usize = 0;
        while i < rows.len()
            invariant
                i <= rows.len(),
                keyed(map_views(chats@)),
                loaded(rows@.take(i as int)) == Ok::<CacheView, (i64, ChatError)>(
                    map_views(chats@),
                ),
            decreases rows.len() - i,
        {
            assert(rows@.take(i + 1).drop_last() == rows@.take(i as int));
            assert(rows@.take(i + 1).last() == rows@[i as int]);
            let chat_id = rows[i].0;
            match deserialize_chat(chat_id, &rows[i].1) {
                Ok(chat) => {
                    let ghost before = map_views(chats@);
                    chats.insert(chat_id, chat);
                    assert(map_views(chats@) =~= before.insert(chat_id, chat@));
                },
                Err(e) => {
                    proof {
                        lemma_loaded_fails(rows@, i + 1);
                    }
                    return Err((chat_id, e));
                },
            }
            i += 1;
        }
        assert(rows@.take(i as int) == rows@);
        Ok(ChatCache { chats })
    }

    /// Takes note of one snapshot. Returns whether it was news, in which
    /// case the cache now holds it and it is due to be written to the store.
    pub fn observe(&mut self, chat: &Chat) -> (r: bool)
        ensures
            r == differs(old(self)@, chat@),
            final(self)@ == observed(old(self)@, chat@),
    {
        proof {
            use_type_invariant(&*self);
        }
        let should_update = match self.chats.get(&chat.id) {
            Some(existing) => {
                proof {
                    lemma_serialized_injective(existing@, chat@);
                }
                !(existing.kind == chat.kind && same_bytes(&existing.raw, &chat.raw))
            },
            None => true,
        };
        if should_update {
            let ghost before = self@;
            let mut chats: HashMap<i64, Chat> = HashMap::new();
            std::mem::swap(&mut self.chats, &mut chats);
            chats.insert(chat.id, chat.duplicate());
            assert(map_views(chats@) =~= before.insert(chat.id, chat@));
            std::mem::swap(&mut self.chats, &mut chats);
        }
        should_update
    }

    /// The snapshot held for a chat id, if any.
    pub fn get(&self, chat_id: i64) -> (r: Option<&Chat>)
        ensures
            match r {
                Some(chat) => self@.contains_key(chat_id) && self@[chat_id] == chat@ && chat.id
                    == chat_id,
                None => !self@.contains_key(chat_id),
            },
    {
        proof {
            use_type_invariant(self);
        }
        let r = self.chats.get(&chat_id);
        proof {
            if r is Some {
                assert(map_views(self.chats@)[chat_id].id == chat_id);
            }
        }
        r
    }

    /// How many chats are known.
    pub fn len(&self) -> (r: usize)
        ensures
            r == self@.len(),
    {
        assert(self@.dom() =~= self.chats@.dom());
        self.chats.len()
    }

    /// A copy of the whole mapping of chat id to snapshot.
    pub fn chats(&self) -> (r: HashMap<i64, Chat>)
        ensures
            map_views(r@) == self@,
            keyed(map_views(r@)),
    {
        proof {
            use_type_invariant(self);
        }
        self.chats.clone()
    }
}

/// Once a prefix of the rows fails to load, the whole sequence fails with
/// the same error.
pub proof fn lemma_loaded_fails(rows: Seq<(i64, Vec<u8>)>, n: int)
    requires
        0 <= n <= rows.len(),
        loaded(rows.take(n)) is Err,
    ensures
        loaded(rows) == loaded(rows.take(n)),
    decreases rows.len() - n,
{
    if n == rows.len() {
        assert(rows.take(n) == rows);
    } else {
        assert(rows.take(n + 1).drop_last() == rows.take(n));
        lemma_loaded_fails(rows, n + 1);
    }
}

/// After any sequence of snapshots, a store that mirrored the cache before
/// and received exactly the writes mirrors the cache again: for every chat
/// id it holds the bytes of the last snapshot that was news.
pub proof fn lemma_store_mirrors_cache(cache: CacheView, snapshots: Seq<ChatView>)
    ensures
        persisted(stored(cache), writes(cache, snapshots)) == stored(merged(cache, snapshots)),
    decreases snapshots.len(),
{
    if snapshots.len() > 0 {
        let before = merged(cache, snapshots.drop_last());
        let last = snapshots.last();
        lemma_store_mirrors_cache(cache, snapshots.drop_last());
        if differs(before, last) {
            let w = writes(cache, snapshots.drop_last()).push(last);
            assert(w.drop_last() == writes(cache, snapshots.drop_last()));
            assert(w.last() == last);
            assert(stored(before).insert(last.id, serialized(last)) =~= stored(
                before.insert(last.id, last),
            ));
        }
    }
}

/// A store that received some writes holds for a chat the bytes of the last
/// write for that chat.
pub proof fn lemma_last_write_stays(store: Store, written: Seq<ChatView>, k: int)
    requires
        0 <= k < written.len(),
        forall|j: int| k < j < written.len() ==> written[j].id != written[k].id,
    ensures
        persisted(store, written).contains_key(written[k].id),
        persisted(store, written)[written[k].id] == serialized(written[k]),
    decreases written.len(),
{
    if k < written.len() - 1 {
        lemma_last_write_stays(store, written.drop_last(), k);
    }
}

/// A store that received some writes holds for a chat that none of them
/// was for what it held before.
pub proof fn lemma_unwritten_chat(store: Store, written: Seq<ChatView>, id: i64)
    requires
        forall|j: int| 0 <= j < written.len() ==> written[j].id != id,
    ensures
        persisted(store, written).contains_key(id) == store.contains_key(id),
        store.contains_key(id) ==> persisted(store, written)[id] == store[id],
    decreases written.len(),
{
    if written.len() > 0 {
        lemma_unwritten_chat(store, written.drop_last(), id);
    }
}

/// After any sequence of snapshots, the cache holds for a chat the bytes of
/// the last snapshot of that chat in the sequence.
pub proof fn lemma_last_snapshot_wins(cache: CacheView, snapshots: Seq<ChatView>, k: int)
    requires
        0 <= k < snapshots.len(),
        forall|j: int| k < j < snapshots.len() ==> snapshots[j].id != snapshots[k].id,
    ensures
        merged(cache, snapshots).contains_key(snapshots[k].id),
        serialized(merged(cache, snapshots)[snapshots[k].id]) == serialized(snapshots[k]),
    decreases snapshots.len(),
{
    if k < snapshots.len() - 1 {
        lemma_last_snapshot_wins(cache, snapshots.drop_last(), k);
    }
}

/// A chat of which the sequence holds no snapshot stays as it was.
pub proof fn lemma_untouched_chat(cache: CacheView, snapshots: Seq<ChatView>, id: i64)
    requires
        forall|j: int| 0 <= j < snapshots.len() ==> snapshots[j].id != id,
    ensures
        merged(cache, snapshots).contains_key(id) == cache.contains_key(id),
        cache.contains_key(id) ==> merged(cache, snapshots)[id] == cache[id],
    decreases snapshots.len(),
{
    if snapshots.len() > 0 {
        lemma_untouched_chat(cache, snapshots.drop_last(), id);
    }
}

/// Seeing the same snapshot twice writes it at most once: the second
/// sighting is never news, whether it follows at once or in a later batch.
pub proof fn lemma_same_snapshot_twice(cache: CacheView, chat: ChatView)
    ensures
        !differs(observed(cache, chat), chat),
        observed(observed(cache, chat), chat) == observed(cache, chat),
        writes(merged(cache, seq![chat]), seq![chat]) == Seq::<ChatView>::empty(),
        writes(cache, seq![chat, chat]) == writes(cache, seq![chat]),
        writes(cache, seq![chat]) == if differs(cache, chat) {
            seq![chat]
        } else {
            Seq::<ChatView>::empty()
        },
{
    let one = seq![chat];
    let two = seq![chat, chat];
    assert(one.drop_last() =~= Seq::<ChatView>::empty());
    assert(two.drop_last() =~= one);
    assert(merged(cache, one.drop_last()) == cache);
    assert(merged(cache, one) == observed(cache, chat));
    assert(writes(cache, one.drop_last()) == Seq::<ChatView>::empty());
    assert(writes(cache, one) =~= if differs(cache, chat) {
        seq![chat]
    } else {
        Seq::<ChatView>::empty()
    });
    let seen = merged(cache, one);
    assert(!differs(seen, chat));
    assert(merged(seen, one.drop_last()) == seen);
    assert(writes(seen, one.drop_last()) == Seq::<ChatView>::empty());
    assert(writes(seen, one) == Seq::<ChatView>::empty());
    assert(two.last() == chat);
    assert(writes(cache, two) == writes(cache, one));
}

/// A sequence of snapshots splits at any point: what the whole does to the
/// cache and the store is what its first part does, then its second.
pub proof fn lemma_merge_in_parts(cache: CacheView, first: Seq<ChatView>, second: Seq<ChatView>)
    ensures
        merged(cache, first + second) == merged(merged(cache, first), second),
        writes(cache, first + second) == writes(cache, first) + writes(
            merged(cache, first),
            second,
        ),
    decreases second.len(),
{
    if second.len() == 0 {
        assert(first + second == first);
    } else {
        assert((first + second).drop_last() == first + second.drop_last());
        lemma_merge_in_parts(cache, first, second.drop_last());
    }
}

} // verus!
