//! A fixed-capacity cache with one entry per slot and overwrite on collision.
use std::collections::hash_map::DefaultHasher;
use std::hash::Hasher;
use vstd::prelude::*;
use vstd::std_specs::hash::DefaultHasherAdditionalSpecFns;
use vstd::string::StringSliceAdditionalSpecFns;
use vstd::utf8::{encode_utf8, encode_utf8_decode_utf8};

use crate::models::Link;

verus! {

/// Number of slots of a cache made by `Cache::new`.
pub const CACHE_SIZE: usize = 1024;

/// The 64-bit hash of a key: `DefaultHasher` fed the key's UTF-8 bytes.
pub open spec fn key_hash(k: Seq<char>) -> u64 {
    DefaultHasher::spec_finish(seq![encode_utf8(k)])
}

/// The slot of key `k` in a table of `capacity` slots.
pub open spec fn slot_of(k: Seq<char>, capacity: nat) -> int {
    (key_hash(k) as nat % capacity) as int
}

/// What a lookup of `k` finds in `entries`: the entry of its slot, if `k` is
/// a real (non-empty) key and that entry carries it. The empty key is never
/// found, so the empty entry that fills unused slots is never a hit.
pub open spec fn lookup_in(entries: Seq<Link>, k: Seq<char>) -> Option<Link> {
    let e = entries[slot_of(k, entries.len())];
    if k.len() > 0 && e.id@ == k {
        Some(e)
    } else {
        None
    }
}

/// `entries` after `e` was written into the slot of its key.
pub open spec fn insert_into(entries: Seq<Link>, e: Link) -> Seq<Link> {
    entries.update(slot_of(e.id@, entries.len()), e)
}

/// Whether two keys are the same string, compared byte by byte.
fn same_key(a: &str, b: &str) -> (r: bool)
    ensures
        r == (a@ == b@),
{
    let x = a.as_bytes();
    let y = b.as_bytes();
    proof {
        encode_utf8_decode_utf8(a@);
        encode_utf8_decode_utf8(b@);
    }
    if x.len() != y.len() {
        return false;
    }
    let mut i: usize = 0;
    while i < x.len()
        invariant
            x@ == encode_utf8(a@),
            y@ == encode_utf8(b@),
            x@.len() == y@.len(),
            i <= x@.len(),
            forall|j: int| 0 <= j < i ==> x@[j] == y@[j],
        decreases x@.len() - i,
    {
        if x[i] != y[i] {
            return false;
        }
        i = i + 1;
    }
    assert(x@ =~= y@);
    true
}

/// A table of slots, each holding the most recent entry whose key hashed to it.
pub struct Cache {
    data: Vec<Link>,
}

impl View for Cache {
    type V = Seq<Link>;

    closed spec fn view(&self) -> Seq<Link> {
        self.data@
    }
}

impl Cache {
    /// Every cache has at least one slot.
    pub open spec fn wf(&self) -> bool {
        self@.len() > 0
    }

    /// A cache of `CACHE_SIZE` slots, each holding the empty entry.
    pub fn new() -> (c: Cache)
        ensures
            c.wf(),
            c@.len() == CACHE_SIZE,
            forall|i: int| 0 <= i < c@.len() ==> (#[trigger] c@[i]).is_empty_entry(),
    {
        Cache::with_capacity(CACHE_SIZE)
    }

    /// A cache of `capacity` slots, each holding the empty entry.
    pub fn with_capacity(capacity: usize) -> (c: Cache)
        requires
            capacity > 0,
        ensures
            c.wf(),
            c@.len() == capacity,
            forall|i: int| 0 <= i < c@.len() ==> (#[trigger] c@[i]).is_empty_entry(),
    {
        let mut data: Vec<Link> = Vec::new();
        while data.len() < capacity
            invariant
                data@.len() <= capacity,
                forall|i: int| 0 <= i < data@.len() ==> (#[trigger] data@[i]).is_empty_entry(),
            decreases capacity - data@.len(),
        {
            data.push(Link::default());
        }
        Cache { data }
    }

    /// Number of slots.
    pub fn capacity(&self) -> (n: usize)
        requires
            self.wf(),
        ensures
            n == self@.len(),
            n > 0,
    {
        self.data.len()
    }

    /// The slot that key `k` maps to; the same key always gives the same slot.
    pub fn slot_for(&self, k: &str) -> (r: usize)
        requires
            self.wf(),
        ensures
            r == slot_of(k@, self@.len()),
            r < self@.len(),
    {
        let mut hasher = DefaultHasher::new();
        hasher.write(k.as_bytes());
        let h: u64 = hasher.finish();
        assert(hasher@ =~= seq![encode_utf8(k@)]);
        let n: u64 = self.data.len() as u64;
        (h % n) as usize
    }

    /// The entry cached under `k`, if `k` is non-empty and the slot of `k`
    /// holds an entry with that key; absent otherwise, also for an empty slot
    /// and where another key took the slot.
    pub fn get<'a>(&'a self, k: &str) -> (r: Option<&'a Link>)
        requires
            self.wf(),
        ensures
            match r {
                Some(e) => lookup_in(self@, k@) == Some(*e),
                None => lookup_in(self@, k@).is_none(),
            },
    {
        if k.is_empty() {
            return None;
        }
        let slot = self.slot_for(k);
        let v = &self.data[slot];
        if same_key(v.id.as_str(), k) {
            Some(v)
        } else {
            None
        }
    }

    /// Writes `data` into the slot of its key, replacing whatever was there.
    pub fn insert(&mut self, data: Link)
        requires
            old(self).wf(),
        ensures
            final(self).wf(),
            final(self)@ == insert_into(old(self)@, data),
    {
        let slot = self.slot_for(data.id.as_str());
        self.data.set(slot, data);
    }
}

} // verus!

verus! {

/// Slot selection is deterministic: equal keys always land in the same slot,
/// and every key lands inside the table.
pub proof fn slot_is_deterministic(a: Seq<char>, b: Seq<char>, capacity: nat)
    requires
        a == b,
        capacity > 0,
    ensures
        slot_of(a, capacity) == slot_of(b, capacity),
        0 <= slot_of(a, capacity) < capacity,
{
}

/// A lookup never answers with an entry of another key, nor with anything
/// for the empty key: whatever it finds carries the key that was asked for.
pub proof fn lookup_has_no_false_positive(entries: Seq<Link>, k: Seq<char>)
    requires
        entries.len() > 0,
    ensures
        match lookup_in(entries, k) {
            Some(e) => e.id@ == k && k.len() > 0,
            None => true,
        },
{
}

/// After an entry with a real key is inserted, a lookup of its key finds
/// exactly that entry.
pub proof fn insert_then_lookup(entries: Seq<Link>, e: Link)
    requires
        entries.len() > 0,
        e.id@.len() > 0,
    ensures
        lookup_in(insert_into(entries, e), e.id@) == Some(e),
{
}

/// Inserting an entry whose key maps to another slot leaves the lookup of
/// `k` as it was, so an inserted entry stays visible until a key of the same
/// slot is inserted.
pub proof fn insert_keeps_other_slots(entries: Seq<Link>, e: Link, k: Seq<char>)
    requires
        entries.len() > 0,
        slot_of(e.id@, entries.len()) != slot_of(k, entries.len()),
    ensures
        lookup_in(insert_into(entries, e), k) == lookup_in(entries, k),
{
}

/// Two distinct real keys that share a slot: inserting `a` and then `b`
/// leaves `a` absent and `b` present with the entry that was inserted.
pub proof fn collision_overwrites(entries: Seq<Link>, a: Link, b: Link)
    requires
        entries.len() > 0,
        a.id@.len() > 0,
        b.id@.len() > 0,
        a.id@ != b.id@,
        slot_of(a.id@, entries.len()) == slot_of(b.id@, entries.len()),
    ensures
        lookup_in(insert_into(insert_into(entries, a), b), a.id@).is_none(),
        lookup_in(insert_into(insert_into(entries, a), b), b.id@) == Some(b),
{
}

} // verus!
