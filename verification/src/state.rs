//! The per-day cache that fronts the language-model gateway, and the shared
//! state that the request handlers work on.
//!
//! Each cached kind holds a value and the UTC day it was stored on, always
//! together: an entry is stale when it has never been filled or when the
//! calendar day has advanced, and only a stale entry warrants a gateway
//! call. The gateway call itself is made outside the library; callers ask
//! `lookup` whether a fresh value exists and hand the fetched value back to
//! `store`.

use vstd::prelude::*;

use chrono::Datelike;

use crate::conversations::ConversationStore;
use crate::quantum::QuantumWisdom;
use crate::quantum_field::QuantumField;

verus! {

/// One cached artifact: a value and the UTC day number it was stored on,
/// present or absent together.
#[derive(Debug, Clone)]
pub struct CacheEntry<T> {
    pub value: Option<T>,
    pub last_updated_day: Option<i32>,
}

/// Relies on chrono's `Utc::now` and `Datelike::num_days_from_ce`: the
/// current UTC date as a day count; the outcome depends on the system
/// clock, so nothing further is promised of it.
#[verifier::external_body]
fn current_day_number() -> i32 {
    chrono::Utc::now().date_naive().num_days_from_ce()
}

impl<T> CacheEntry<T> {
    /// A well-formed entry holds a value exactly when it holds a timestamp:
    /// no reader can see one without the other.
    pub open spec fn wf(&self) -> bool {
        self.value is Some <==> self.last_updated_day is Some
    }

    /// Whether the entry was filled on the given day; on any other day, or
    /// never filled, it is stale.
    pub open spec fn is_fresh_on(&self, today: i32) -> bool {
        self.last_updated_day matches Some(d) && d == today
    }

    /// Creates an empty entry: nothing cached, no timestamp.
    pub fn new() -> (e: CacheEntry<T>)
        ensures
            e.wf(),
            e.value is None,
            e.last_updated_day is None,
    {
        CacheEntry { value: None, last_updated_day: None }
    }

    /// Whether the entry must be refetched as of the given day.
    pub fn is_stale(&self, today: i32) -> (r: bool)
        ensures
            r == !self.is_fresh_on(today),
    {
        match &self.last_updated_day {
            Some(d) => *d != today,
            None => true,
        }
    }

    /// Stores a freshly fetched value together with the day it was fetched
    /// on, atomically replacing both halves of the entry.
    pub fn store(&mut self, value: T, today: i32)
        ensures
            final(self).wf(),
            final(self).value == Some(value),
            final(self).last_updated_day == Some(today),
    {
        self.value = Some(value);
        self.last_updated_day = Some(today);
    }

    /// Returns the cached value exactly when the entry is fresh on the
    /// given day; a stale or empty entry yields nothing, and the caller
    /// must then fetch and `store`.
    pub fn lookup(&self, today: i32) -> (r: Option<&T>)
        requires
            self.wf(),
        ensures
            match r {
                Some(v) => self.is_fresh_on(today) && self.value == Some(*v),
                None => !self.is_fresh_on(today),
            },
    {
        if self.is_stale(today) {
            None
        } else {
            match &self.value {
                Some(v) => Some(v),
                None => None,
            }
        }
    }

    /// Returns the cached value if the entry is fresh as of the clock's
    /// current UTC day; whatever day the clock reports, a returned value is
    /// the cached one and an empty entry returns nothing.
    pub fn lookup_today(&self) -> (r: Option<&T>)
        requires
            self.wf(),
        ensures
            r matches Some(v) ==> self.value == Some(*v),
            self.value is None ==> r is None,
    {
        let today = current_day_number();
        self.lookup(today)
    }

    /// Stores a freshly fetched value under the clock's current UTC day.
    pub fn store_today(&mut self, value: T)
        ensures
            final(self).wf(),
            final(self).value == Some(value),
            final(self).last_updated_day is Some,
    {
        let today = current_day_number();
        self.store(value, today);
    }
}

/// The state shared by all request handlers: the per-day caches of each
/// wisdom kind and the per-session conversation store. Callers serialize
/// access to it; the library itself never blocks.
#[derive(Debug)]
pub struct SharedState {
    pub daily_wisdom: CacheEntry<String>,
    pub quantum_wisdom: CacheEntry<QuantumWisdom>,
    pub quantum_field: CacheEntry<QuantumField>,
    pub conversations: ConversationStore,
}

impl SharedState {
    /// A well-formed state has well-formed entries, and every cached wisdom
    /// value satisfies its own invariant.
    pub open spec fn wf(&self) -> bool {
        &&& self.daily_wisdom.wf()
        &&& self.quantum_wisdom.wf()
        &&& self.quantum_field.wf()
        &&& self.conversations.wf()
        &&& (self.quantum_wisdom.value matches Some(v) ==> v.wf())
        &&& (self.quantum_field.value matches Some(f) ==> f.wf())
    }

    /// Creates the startup state: empty caches, no sessions.
    pub fn new() -> (s: SharedState)
        ensures
            s.wf(),
            s.daily_wisdom.value is None,
            s.quantum_wisdom.value is None,
            s.quantum_field.value is None,
            s.conversations@ == Map::<Seq<char>, crate::conversations::ConversationModel>::empty(),
    {
        SharedState {
            daily_wisdom: CacheEntry::new(),
            quantum_wisdom: CacheEntry::new(),
            quantum_field: CacheEntry::new(),
            conversations: ConversationStore::new(),
        }
    }
}

/// The per-day refresh cycle: a never-filled entry is stale on every day,
/// so the first read of a fresh process must call the gateway; once a value
/// is stored, the entry stays fresh for the rest of that UTC day, so no
/// further gateway call is made; and on any later day the entry is stale
/// again, so exactly the next read refetches.
pub proof fn lemma_refresh_cycle<T>(value: T, d1: i32, d2: i32)
    ensures
        !(CacheEntry::<T> { value: None, last_updated_day: None }).is_fresh_on(d1),
        (CacheEntry { value: Some(value), last_updated_day: Some(d1) }).is_fresh_on(d1),
        d2 != d1 ==> !(CacheEntry { value: Some(value), last_updated_day: Some(d1) }).is_fresh_on(
            d2,
        ),
{
}

} // verus!
