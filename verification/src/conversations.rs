//! The per-session conversation store: a keyed, in-memory map from session
//! identifier to its append-only dialogue, serialized behind one owner so
//! concurrent requests for the same session cannot lose updates.

use vstd::prelude::*;

use crate::mistral::{persona_prompt, persona_prompt_text, Conversation};
use crate::text::str_eq;

verus! {

/// The model of one conversation: its (role, content) pairs in order.
pub type ConversationModel = Seq<(Seq<char>, Seq<char>)>;

/// The model of the store: a map from session identifier to conversation.
pub type StoreModel = Map<Seq<char>, ConversationModel>;

/// One stored session: its identifier and its dialogue.
#[derive(Debug, Clone)]
struct StoreEntry {
    key: String,
    conv: Conversation,
}

/// Maintains one conversation per session identifier for the life of the
/// process; sessions are never evicted.
#[derive(Debug)]
pub struct ConversationStore {
    entries: Vec<StoreEntry>,
}

/// Whether some entry of `s` carries the key `k`.
spec fn has_key(s: Seq<StoreEntry>, k: Seq<char>) -> bool {
    exists|i: int| 0 <= i < s.len() && (#[trigger] s[i]).key@ == k
}

/// No two entries of `s` carry the same key.
spec fn keys_unique(s: Seq<StoreEntry>) -> bool {
    forall|i: int, j: int|
        0 <= i < j < s.len() ==> (#[trigger] s[i]).key@ != (#[trigger] s[j]).key@
}

/// The map an entry sequence denotes; a later entry would shadow an earlier
/// one with the same key, but well-formed stores have unique keys.
spec fn entries_map(s: Seq<StoreEntry>) -> StoreModel
    decreases s.len(),
{
    if s.len() == 0 {
        Map::empty()
    } else {
        entries_map(s.drop_last()).insert(s.last().key@, s.last().conv@)
    }
}

/// The domain of the denoted map is exactly the set of stored keys.
proof fn lemma_map_domain(s: Seq<StoreEntry>)
    ensures
        forall|k: Seq<char>| #[trigger] entries_map(s).contains_key(k) <==> has_key(s, k),
    decreases s.len(),
{
    if s.len() == 0 {
        assert forall|k: Seq<char>| #[trigger]
            entries_map(s).contains_key(k) <==> has_key(s, k) by {
            assert(!entries_map(s).contains_key(k));
        }
    } else {
        lemma_map_domain(s.drop_last());
        assert forall|k: Seq<char>| #[trigger]
            entries_map(s).contains_key(k) <==> has_key(s, k) by {
            if entries_map(s).contains_key(k) {
                if k == s.last().key@ {
                    assert((s[s.len() - 1]).key@ == k);
                } else {
                    assert(entries_map(s.drop_last()).contains_key(k));
                    assert(has_key(s.drop_last(), k));
                    let i = choose|i: int|
                        0 <= i < s.drop_last().len() && (#[trigger] s.drop_last()[i]).key@ == k;
                    assert(s.drop_last()[i] == s[i]);
                    assert((s[i]).key@ == k);
                }
            }
            if has_key(s, k) {
                let i = choose|i: int| 0 <= i < s.len() && (#[trigger] s[i]).key@ == k;
                if i < s.len() - 1 {
                    assert(s.drop_last()[i] == s[i]);
                    assert((s.drop_last()[i]).key@ == k);
                    assert(has_key(s.drop_last(), k));
                    assert(entries_map(s.drop_last()).contains_key(k));
                    assert(entries_map(s).contains_key(k));
                } else {
                    assert(k == s.last().key@);
                    assert(entries_map(s).contains_key(k));
                }
            }
        }
    }
}

/// In a store with unique keys, the denoted map sends each stored key to
/// the conversation of its entry.
proof fn lemma_map_at(s: Seq<StoreEntry>, i: int)
    requires
        keys_unique(s),
        0 <= i < s.len(),
    ensures
        entries_map(s).contains_key(s[i].key@),
        entries_map(s)[s[i].key@] == s[i].conv@,
    decreases s.len(),
{
    if i == s.len() - 1 {
    } else {
        assert(keys_unique(s.drop_last())) by {
            assert forall|a: int, b: int|
                0 <= a < b < s.drop_last().len() implies (#[trigger] s.drop_last()[a]).key@ != (
            #[trigger] s.drop_last()[b]).key@ by {
                assert((s[a]).key@ != (s[b]).key@);
            }
        }
        assert(s.drop_last()[i] == s[i]);
        lemma_map_at(s.drop_last(), i);
        assert((s[i]).key@ != (s[s.len() - 1]).key@);
    }
}

/// Appending an entry denotes inserting its key.
proof fn lemma_map_push(s: Seq<StoreEntry>, e: StoreEntry)
    ensures
        entries_map(s.push(e)) == entries_map(s).insert(e.key@, e.conv@),
{
    assert(s.push(e).drop_last() =~= s);
    assert(s.push(e).last() == e);
}

/// Replacing the entry at `i` by one with the same key denotes inserting
/// that key with the new conversation.
proof fn lemma_map_update(s: Seq<StoreEntry>, i: int, e: StoreEntry)
    requires
        keys_unique(s),
        0 <= i < s.len(),
        e.key@ == s[i].key@,
    ensures
        entries_map(s.update(i, e)) == entries_map(s).insert(e.key@, e.conv@),
    decreases s.len(),
{
    let t = s.update(i, e);
    if i == s.len() - 1 {
        assert(t.drop_last() =~= s.drop_last());
        assert(t.last() == e);
        assert(entries_map(s.drop_last()).insert(e.key@, e.conv@) =~= entries_map(s).insert(
            e.key@,
            e.conv@,
        ));
    } else {
        assert(keys_unique(s.drop_last())) by {
            assert forall|a: int, b: int|
                0 <= a < b < s.drop_last().len() implies (#[trigger] s.drop_last()[a]).key@ != (
            #[trigger] s.drop_last()[b]).key@ by {
                assert((s[a]).key@ != (s[b]).key@);
            }
        }
        assert(s.drop_last()[i] == s[i]);
        lemma_map_update(s.drop_last(), i, e);
        assert(t.drop_last() =~= s.drop_last().update(i, e));
        assert(t.last() == s.last());
        assert((s[i]).key@ != (s[s.len() - 1]).key@);
        assert(entries_map(s.drop_last()).insert(e.key@, e.conv@).insert(
            s.last().key@,
            s.last().conv@,
        ) =~= entries_map(s.drop_last()).insert(s.last().key@, s.last().conv@).insert(
            e.key@,
            e.conv@,
        ));
    }
}

/// The conversation a fresh session is seeded with: the fixed system
/// persona message alone.
pub open spec fn seeded_conversation() -> ConversationModel {
    seq![("system"@, persona_prompt_text())]
}

/// The store after looking a session up, creating it if absent.
pub open spec fn store_after_get(m: StoreModel, sid: Seq<char>) -> StoreModel {
    if m.contains_key(sid) {
        m
    } else {
        m.insert(sid, seeded_conversation())
    }
}

/// The conversation that looking a session up returns.
pub open spec fn conversation_got(m: StoreModel, sid: Seq<char>) -> ConversationModel {
    if m.contains_key(sid) {
        m[sid]
    } else {
        seeded_conversation()
    }
}

/// The two messages one completed exchange appends.
pub open spec fn exchange_suffix(user_text: Seq<char>, assistant_text: Seq<char>)
    -> ConversationModel {
    seq![("user"@, user_text), ("assistant"@, assistant_text)]
}

impl View for ConversationStore {
    type V = StoreModel;

    /// The store is modelled as the map it denotes.
    closed spec fn view(&self) -> StoreModel {
        entries_map(self.entries@)
    }
}

impl ConversationStore {
    /// A well-formed store holds at most one entry per session identifier.
    pub closed spec fn wf(&self) -> bool {
        keys_unique(self.entries@)
    }

    /// Creates an empty store.
    pub fn new() -> (store: ConversationStore)
        ensures
            store.wf(),
            store@ == Map::<Seq<char>, ConversationModel>::empty(),
    {
        ConversationStore { entries: Vec::new() }
    }

    /// The index of the session's entry, if it is stored.
    fn find_index(&self, session_id: &str) -> (r: Option<usize>)
        ensures
            match r {
                Some(i) => i < self.entries@.len() && self.entries@[i as int].key@ == session_id@,
                None => forall|i: int|
                    0 <= i < self.entries@.len() ==> (#[trigger] self.entries@[i]).key@
                        != session_id@,
            },
    {
        let mut i: usize = 0;
        while i < self.entries.len()
            invariant
                i <= self.entries@.len(),
                forall|j: int|
                    0 <= j < i ==> (#[trigger] self.entries@[j]).key@ != session_id@,
            decreases self.entries@.len() - i,
        {
            if str_eq(self.entries[i].key.as_str(), session_id) {
                return Some(i);
            }
            i = i + 1;
        }
        None
    }

    /// Whether the session is stored.
    pub fn contains(&self, session_id: &str) -> (r: bool)
        requires
            self.wf(),
        ensures
            r == self@.contains_key(session_id@),
    {
        proof {
            lemma_map_domain(self.entries@);
        }
        self.find_index(session_id).is_some()
    }

    /// Returns the session's conversation; an absent session is first
    /// created, seeded with the fixed system persona message, and stored.
    pub fn get_or_create(&mut self, session_id: &str) -> (c: Conversation)
        requires
            old(self).wf(),
        ensures
            final(self).wf(),
            final(self)@ == store_after_get(old(self)@, session_id@),
            c@ == conversation_got(old(self)@, session_id@),
    {
        proof {
            lemma_map_domain(self.entries@);
        }
        match self.find_index(session_id) {
            Some(i) => {
                proof {
                    lemma_map_at(self.entries@, i as int);
                }
                self.entries[i].conv.duplicate()
            },
            None => {
                let mut conv = Conversation::new();
                let persona = persona_prompt();
                conv.add_system_message(persona.as_str());
                proof {
                    assert(conv@ =~= seeded_conversation());
                }
                let result = conv.duplicate();
                let ghost entries0 = self.entries@;
                let entry = StoreEntry { key: session_id.to_owned(), conv };
                let ghost entry_g = entry;
                self.entries.push(entry);
                proof {
                    lemma_map_push(entries0, entry_g);
                    assert forall|a: int, b: int|
                        0 <= a < b < self.entries@.len() implies (#[trigger] self.entries@[a]).key@
                        != (#[trigger] self.entries@[b]).key@ by {
                        if b < self.entries@.len() - 1 {
                            assert((entries0[a]).key@ != (entries0[b]).key@);
                        } else {
                            assert((entries0[a]).key@ != session_id@);
                        }
                    }
                }
                result
            },
        }
    }

    /// Appends the user's message and the assistant's reply to the
    /// session's conversation; if the session is absent, the store is left
    /// unchanged.
    pub fn append_exchange(&mut self, session_id: &str, user_text: &str, assistant_text: &str)
        requires
            old(self).wf(),
        ensures
            final(self).wf(),
            old(self)@.contains_key(session_id@) ==> final(self)@ == old(self)@.insert(
                session_id@,
                old(self)@[session_id@] + exchange_suffix(user_text@, assistant_text@),
            ),
            !old(self)@.contains_key(session_id@) ==> final(self)@ == old(self)@,
    {
        proof {
            lemma_map_domain(self.entries@);
        }
        match self.find_index(session_id) {
            Some(i) => {
                proof {
                    lemma_map_at(self.entries@, i as int);
                }
                let ghost entries0 = self.entries@;
                let mut conv = self.entries[i].conv.duplicate();
                conv.add_user_message(user_text);
                conv.add_assistant_message(assistant_text);
                proof {
                    assert(conv@ =~= entries0[i as int].conv@ + exchange_suffix(
                        user_text@,
                        assistant_text@,
                    ));
                }
                let key = self.entries[i].key.clone();
                let entry = StoreEntry { key, conv };
                let ghost entry_g = entry;
                proof {
                    lemma_map_update(entries0, i as int, entry_g);
                }
                self.entries[i] = entry;
                proof {
                    assert(self.entries@ == entries0.update(i as int, entry_g));
                    assert forall|a: int, b: int|
                        0 <= a < b < self.entries@.len() implies (#[trigger] self.entries@[a]).key@
                        != (#[trigger] self.entries@[b]).key@ by {
                        assert((entries0[a]).key@ != (entries0[b]).key@);
                    }
                }
            },
            None => {},
        }
    }

    /// Returns the session's conversation extended with the user's new
    /// message: the exact prompt history an exchange sends to the model.
    /// The stored conversation itself is not yet altered beyond creation.
    pub fn begin_exchange(&mut self, session_id: &str, user_text: &str) -> (c: Conversation)
        requires
            old(self).wf(),
        ensures
            final(self).wf(),
            final(self)@ == store_after_get(old(self)@, session_id@),
            c@ == conversation_got(old(self)@, session_id@).push(("user"@, user_text@)),
    {
        let mut c = self.get_or_create(session_id);
        c.add_user_message(user_text);
        c
    }
}

/// Reading a session twice without an intervening exchange returns the
/// identical conversation, and the second read leaves the store exactly as
/// the first left it: lookup is idempotent.
pub proof fn lemma_get_or_create_idempotent(m: StoreModel, sid: Seq<char>)
    ensures
        conversation_got(store_after_get(m, sid), sid) == conversation_got(m, sid),
        store_after_get(store_after_get(m, sid), sid) == store_after_get(m, sid),
{
}

} // verus!
