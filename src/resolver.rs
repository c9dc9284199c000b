//! The cache-aside steps of resolving a short key: consult the cache, on a
//! miss ask the store, refill the cache with what the store returned, and
//! answer with a redirect.
//!
//! Each step is a decision on what came back from the previous one; the
//! caller performs the step it is told to (a store query, taking the write
//! handle of the cache) and hands the outcome to the next decision.
use vstd::prelude::*;

use crate::cache::{insert_into, lookup_in, slot_of, Cache};
use crate::models::Link;

verus! {

/// What the store answered to a lookup by key.
#[derive(Debug, PartialEq, Eq, Structural, Clone, Copy)]
pub enum StoreError {
    /// No record has the key.
    NotFound,
    /// The store could not be reached or the query failed.
    Unavailable,
}

/// Why a resolution failed.
#[derive(Debug, PartialEq, Eq, Structural, Clone, Copy)]
pub enum ResolveError {
    NotFound,
    StoreUnavailable,
}

/// The next thing a resolution must do.
#[derive(Debug)]
pub enum Next {
    /// Answer with a permanent redirect to this destination.
    Redirect(String),
    /// Release the read handle and look the key up in the store.
    QueryStore,
    /// Take the write handle and put this record into the cache.
    RefillCache(Link),
    /// Answer with this error.
    Fail(ResolveError),
}

/// The step after consulting the cache for `key`.
pub open spec fn after_lookup(entries: Seq<Link>, key: Seq<char>) -> Next {
    match lookup_in(entries, key) {
        Some(e) => Next::Redirect(e.dest_url),
        None => Next::QueryStore,
    }
}

/// The step after the store answered.
pub open spec fn after_store(reply: Result<Link, StoreError>) -> Next {
    match reply {
        Ok(record) => Next::RefillCache(record),
        Err(StoreError::NotFound) => Next::Fail(ResolveError::NotFound),
        Err(StoreError::Unavailable) => Next::Fail(ResolveError::StoreUnavailable),
    }
}

/// Consults the cache: a hit redirects at once, a miss goes to the store.
pub fn check_cache(cache: &Cache, key: &str) -> (n: Next)
    requires
        cache.wf(),
    ensures
        n == after_lookup(cache@, key@),
{
    match cache.get(key) {
        Some(e) => Next::Redirect(e.dest_url.clone()),
        None => Next::QueryStore,
    }
}

/// Decides on the store's answer: a found record goes into the cache, an
/// error ends the resolution and is passed on unmasked.
pub fn on_store_reply(reply: Result<Link, StoreError>) -> (n: Next)
    ensures
        n == after_store(reply),
{
    match reply {
        Ok(record) => Next::RefillCache(record),
        Err(StoreError::NotFound) => Next::Fail(ResolveError::NotFound),
        Err(StoreError::Unavailable) => Next::Fail(ResolveError::StoreUnavailable),
    }
}

/// Puts the fetched record into the cache, overwriting its slot, and
/// redirects to the record's destination.
pub fn refill_cache(cache: &mut Cache, record: Link) -> (n: Next)
    requires
        old(cache).wf(),
    ensures
        final(cache).wf(),
        final(cache)@ == insert_into(old(cache)@, record),
        n == Next::Redirect(record.dest_url),
{
    let dest = record.dest_url.clone();
    cache.insert(record);
    Next::Redirect(dest)
}

/// Cache-aside: a key that the cache lacks and the store holds goes to the
/// store, is redirected to the store's destination, and is a hit afterwards.
pub proof fn miss_then_store_fills_cache(entries: Seq<Link>, record: Link)
    requires
        entries.len() > 0,
        record.id@.len() > 0,
        lookup_in(entries, record.id@).is_none(),
    ensures
        after_lookup(entries, record.id@) == Next::QueryStore,
        after_store(Ok(record)) == Next::RefillCache(record),
        lookup_in(insert_into(entries, record), record.id@) == Some(record),
        after_lookup(insert_into(entries, record), record.id@) == Next::Redirect(record.dest_url),
{
}

/// The cache agrees with the store: every slot holds either an entry with the
/// empty key or the store's record for the slot's key.
pub open spec fn agrees_with(entries: Seq<Link>, store: Map<Seq<char>, Link>) -> bool {
    forall|i: int|
        0 <= i < entries.len() && (#[trigger] entries[i]).id@.len() > 0 ==> {
            &&& store.contains_key(entries[i].id@)
            &&& store[entries[i].id@] == entries[i]
        }
}

/// Whether the cache hits or misses, resolving a key that the store holds
/// redirects to the store's destination for that key, as long as the cache
/// agrees with the store; refilling with the store's record keeps the
/// agreement.
pub proof fn resolution_follows_store(
    entries: Seq<Link>,
    store: Map<Seq<char>, Link>,
    key: Seq<char>,
)
    requires
        entries.len() > 0,
        agrees_with(entries, store),
        store.contains_key(key),
        store[key].id@ == key,
    ensures
        match after_lookup(entries, key) {
            Next::Redirect(dest) => dest == store[key].dest_url,
            Next::QueryStore => {
                &&& after_store(Ok(store[key])) == Next::RefillCache(store[key])
                &&& agrees_with(insert_into(entries, store[key]), store)
            },
            _ => false,
        },
{
    let s = slot_of(key, entries.len());
    if lookup_in(entries, key).is_none() {
        let after = insert_into(entries, store[key]);
        assert forall|i: int|
            0 <= i < after.len() && (#[trigger] after[i]).id@.len() > 0 implies {
            &&& store.contains_key(after[i].id@)
            &&& store[after[i].id@] == after[i]
        } by {
            if i != s {
                assert(after[i] == entries[i]);
            }
        }
    } else {
        assert(entries[s].id@.len() > 0);
    }
}

/// A key that neither the cache nor the store holds fails with `NotFound`,
/// and the cache is not touched on that path.
pub proof fn unknown_key_fails(entries: Seq<Link>, key: Seq<char>)
    requires
        entries.len() > 0,
        lookup_in(entries, key).is_none(),
    ensures
        after_lookup(entries, key) == Next::QueryStore,
        after_store(Err(StoreError::NotFound)) == Next::Fail(ResolveError::NotFound),
{
}

} // verus!
