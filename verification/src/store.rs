//! The credential store: keys, values and lifetimes.
//!
//! [`StoreView`] says what a store with per-key expiration is: a clock and a
//! map from keys to entries, each with the time it was written and, where it
//! has one, its lifetime. [`MemoryStore`] keeps such a store in memory, with a
//! clock that its owner moves.

use vstd::prelude::*;
use crate::credential::{StoredValue, StoredValueView};

verus! {

/// One entry of a store as a mathematical value.
pub struct EntryView {
    pub value: StoredValueView,
    /// The clock's reading when the entry was written.
    pub written_at: nat,
    /// The lifetime in seconds; `None` for an entry that never expires.
    pub ttl: Option<nat>,
}

impl EntryView {
    /// Whether the entry can still be read when the clock reads `now`.
    pub open spec fn live_at(self, now: nat) -> bool {
        match self.ttl {
            None => true,
            Some(ttl) => now < self.written_at + ttl,
        }
    }
}

/// A store as a mathematical value: a clock and the entries written so far.
pub struct StoreView {
    /// Seconds elapsed on the store's clock.
    pub now: nat,
    pub entries: Map<Seq<char>, EntryView>,
}

impl StoreView {
    /// The store without entries, its clock reading `now`.
    pub open spec fn empty(now: nat) -> StoreView {
        StoreView { now, entries: Map::empty() }
    }

    /// What a read of `key` returns: the value last written, unless it has expired.
    pub open spec fn get(self, key: Seq<char>) -> Option<StoredValueView> {
        if self.entries.contains_key(key) && self.entries[key].live_at(self.now) {
            Some(self.entries[key].value)
        } else {
            None
        }
    }

    /// The store after a write of `value` under `key` with lifetime `ttl`.
    pub open spec fn put(self, key: Seq<char>, value: StoredValueView, ttl: Option<nat>) -> StoreView {
        StoreView {
            now: self.now,
            entries: self.entries.insert(key, EntryView { value, written_at: self.now, ttl }),
        }
    }

    /// The store after a write that never expires.
    pub open spec fn set(self, key: Seq<char>, value: StoredValueView) -> StoreView {
        self.put(key, value, None)
    }

    /// The store after a write that expires `ttl` seconds from now.
    pub open spec fn set_with_ttl(self, key: Seq<char>, value: StoredValueView, ttl: nat) -> StoreView {
        self.put(key, value, Some(ttl))
    }

    /// The store after `seconds` more seconds have passed.
    pub open spec fn advance(self, seconds: nat) -> StoreView {
        StoreView { now: self.now + seconds, entries: self.entries }
    }
}

/// A write can be read back at once, unless it was made with a lifetime of zero.
pub proof fn lemma_read_after_write(
    store: StoreView,
    key: Seq<char>,
    value: StoredValueView,
    ttl: Option<nat>,
)
    ensures
        store.put(key, value, ttl).get(key) == (if ttl == Some(0nat) {
            None
        } else {
            Some(value)
        }),
{
}

/// A write with a lifetime can be read for that many seconds and no longer:
/// once `ttl` seconds have passed, the key holds nothing.
pub proof fn lemma_ttl_honoured(
    store: StoreView,
    key: Seq<char>,
    value: StoredValueView,
    ttl: nat,
    elapsed: nat,
)
    ensures
        store.set_with_ttl(key, value, ttl).advance(elapsed).get(key) == (if elapsed < ttl {
            Some(value)
        } else {
            None
        }),
{
}

/// A write without a lifetime can be read however much time passes.
pub proof fn lemma_set_never_expires(
    store: StoreView,
    key: Seq<char>,
    value: StoredValueView,
    elapsed: nat,
)
    ensures
        store.set(key, value).advance(elapsed).get(key) == Some(value),
{
}

/// A write under one key changes nothing that is read under another.
pub proof fn lemma_write_keeps_other_keys(
    store: StoreView,
    written: Seq<char>,
    value: StoredValueView,
    ttl: Option<nat>,
    other: Seq<char>,
)
    requires
        written != other,
    ensures
        store.put(written, value, ttl).get(other) == store.get(other),
{
}

/// The last write wins: a second write under a key leaves the store as if
/// the first had never been made, whatever its value and lifetime were and
/// however much time passed in between.
pub proof fn lemma_last_write_wins(
    store: StoreView,
    key: Seq<char>,
    first: StoredValueView,
    first_ttl: Option<nat>,
    elapsed: nat,
    second: StoredValueView,
    second_ttl: Option<nat>,
)
    ensures
        store.put(key, first, first_ttl).advance(elapsed).put(key, second, second_ttl)
            == store.advance(elapsed).put(key, second, second_ttl),
{
    let left = store.put(key, first, first_ttl).advance(elapsed).put(key, second, second_ttl);
    let right = store.advance(elapsed).put(key, second, second_ttl);
    assert(left.entries =~= right.entries);
}

struct Entry {
    key: String,
    value: StoredValue,
    written_at: u64,
    ttl: Option<u64>,
}

impl Entry {
    spec fn view(&self) -> EntryView {
        EntryView {
            value: self.value@,
            written_at: self.written_at as nat,
            ttl: match self.ttl {
                None => None,
                Some(ttl) => Some(ttl as nat),
            },
        }
    }
}

spec fn keys_distinct(entries: Seq<Entry>) -> bool {
    forall|i: int, j: int|
        0 <= i < j < entries.len() ==> (#[trigger] entries[i]).key@ != (#[trigger] entries[j]).key@
}

spec fn absent(entries: Seq<Entry>, key: Seq<char>) -> bool {
    forall|i: int| 0 <= i < entries.len() ==> (#[trigger] entries[i]).key@ != key
}

spec fn map_of(entries: Seq<Entry>) -> Map<Seq<char>, EntryView>
    decreases entries.len(),
{
    if entries.len() == 0 {
        Map::empty()
    } else {
        map_of(entries.drop_last()).insert(entries.last().key@, entries.last()@)
    }
}

proof fn lemma_map_of_absent(entries: Seq<Entry>, key: Seq<char>)
    requires
        absent(entries, key),
    ensures
        !map_of(entries).contains_key(key),
    decreases entries.len(),
{
    if entries.len() > 0 {
        let init = entries.drop_last();
        assert forall|i: int| 0 <= i < init.len() implies (#[trigger] init[i]).key@ != key by {
            assert(init[i] == entries[i]);
        }
        lemma_map_of_absent(init, key);
        assert(entries[entries.len() - 1].key@ != key);
    }
}

proof fn lemma_map_of_entry(entries: Seq<Entry>, i: int)
    requires
        keys_distinct(entries),
        0 <= i < entries.len(),
    ensures
        map_of(entries).contains_key(entries[i].key@),
        map_of(entries)[entries[i].key@] == entries[i]@,
    decreases entries.len(),
{
    let init = entries.drop_last();
    if i < entries.len() - 1 {
        assert forall|a: int, b: int| 0 <= a < b < init.len() implies (#[trigger] init[a]).key@ != (
        #[trigger] init[b]).key@ by {
            assert(init[a] == entries[a]);
            assert(init[b] == entries[b]);
        }
        assert(init[i] == entries[i]);
        lemma_map_of_entry(init, i);
        assert(entries[i].key@ != entries[entries.len() - 1].key@);
    }
}

proof fn lemma_map_of_replace(entries: Seq<Entry>, i: int, entry: Entry)
    requires
        keys_distinct(entries),
        0 <= i < entries.len(),
        entry.key@ == entries[i].key@,
    ensures
        keys_distinct(entries.update(i, entry)),
        map_of(entries.update(i, entry)) == map_of(entries).insert(entry.key@, entry@),
{
    let after = entries.update(i, entry);
    assert(keys_distinct(after)) by {
        assert forall|a: int, b: int| 0 <= a < b < after.len() implies (#[trigger] after[a]).key@ != (
        #[trigger] after[b]).key@ by {
            assert(after[a].key@ == entries[a].key@);
            assert(after[b].key@ == entries[b].key@);
        }
    }
    let left = map_of(after);
    let right = map_of(entries).insert(entry.key@, entry@);
    assert forall|k: Seq<char>| left.contains_key(k) <==> right.contains_key(k) by {
        if left.contains_key(k) && !right.contains_key(k) {
            assert(absent(entries, k)) by {
                assert forall|j: int| 0 <= j < entries.len() implies (#[trigger] entries[j]).key@
                    != k by {
                    if entries[j].key@ == k {
                        lemma_map_of_entry(entries, j);
                    }
                }
            }
            assert(absent(after, k)) by {
                assert forall|j: int| 0 <= j < after.len() implies (#[trigger] after[j]).key@
                    != k by {
                    assert(after[j].key@ == entries[j].key@);
                }
            }
            lemma_map_of_absent(after, k);
        }
        if right.contains_key(k) && !left.contains_key(k) {
            assert(absent(after, k)) by {
                assert forall|j: int| 0 <= j < after.len() implies (#[trigger] after[j]).key@
                    != k by {
                    if after[j].key@ == k {
                        lemma_map_of_entry(after, j);
                    }
                }
            }
            lemma_map_of_entry(after, i);
            assert(absent(entries, k)) by {
                assert forall|j: int| 0 <= j < entries.len() implies (#[trigger] entries[j]).key@
                    != k by {
                    assert(after[j].key@ == entries[j].key@);
                }
            }
            lemma_map_of_absent(entries, k);
        }
    }
    assert forall|k: Seq<char>| left.contains_key(k) implies left[k] == right[k] by {
        if k == entry.key@ {
            lemma_map_of_entry(after, i);
        } else {
            if absent(entries, k) {
                assert(absent(after, k)) by {
                    assert forall|j: int| 0 <= j < after.len() implies (#[trigger] after[j]).key@
                        != k by {
                        assert(after[j].key@ == entries[j].key@);
                    }
                }
                lemma_map_of_absent(after, k);
            } else {
                let j = choose|j: int| 0 <= j < entries.len() && (#[trigger] entries[j]).key@ == k;
                assert(j != i);
                assert(after[j] == entries[j]);
                lemma_map_of_entry(entries, j);
                lemma_map_of_entry(after, j);
            }
        }
    }
    assert(left =~= right);
}

/// A credential store held in memory, with a clock that its owner moves.
pub struct MemoryStore {
    entries: Vec<Entry>,
    now: u64,
}

impl MemoryStore {
    #[verifier::type_invariant]
    spec fn well_formed(self) -> bool {
        &&& keys_distinct(self.entries@)
        &&& forall|i: int|
            0 <= i < self.entries@.len() ==> (#[trigger] self.entries@[i]).written_at <= self.now
    }

    /// The store as a mathematical value.
    pub closed spec fn view(&self) -> StoreView {
        StoreView { now: self.now as nat, entries: map_of(self.entries@) }
    }

    /// An empty store whose clock reads zero.
    pub fn new() -> (store: MemoryStore)
        ensures
            store@ == StoreView::empty(0),
    {
        MemoryStore { entries: Vec::new(), now: 0 }
    }

    /// An empty store whose clock reads `now`.
    pub fn with_clock(now: u64) -> (store: MemoryStore)
        ensures
            store@ == StoreView::empty(now as nat),
    {
        MemoryStore { entries: Vec::new(), now }
    }

    /// The clock's reading, in seconds.
    pub fn now(&self) -> (now: u64)
        ensures
            now as nat == self@.now,
    {
        self.now
    }

    fn position(&self, key: &str) -> (found: Option<usize>)
        ensures
            match found {
                Some(i) => i < self.entries@.len() && self.entries@[i as int].key@ == key@,
                None => absent(self.entries@, key@),
            },
    {
        let wanted = String::from_str(key);
        let mut i: usize = 0;
        while i < self.entries.len()
            invariant
                i <= self.entries@.len(),
                wanted@ == key@,
                forall|j: int| 0 <= j < i ==> (#[trigger] self.entries@[j]).key@ != key@,
            decreases self.entries@.len() - i,
        {
            if self.entries[i].key == wanted {
                return Some(i);
            }
            i += 1;
        }
        None
    }

    /// Reads the value under `key`: the one last written, unless it has expired.
    pub fn get(&self, key: &str) -> (value: Option<StoredValue>)
        ensures
            match value {
                Some(v) => self@.get(key@) == Some(v@),
                None => self@.get(key@) is None,
            },
    {
        proof {
            use_type_invariant(self);
        }
        match self.position(key) {
            None => {
                proof {
                    lemma_map_of_absent(self.entries@, key@);
                }
                None
            },
            Some(i) => {
                proof {
                    lemma_map_of_entry(self.entries@, i as int);
                }
                let entry = &self.entries[i];
                let live = match entry.ttl {
                    None => true,
                    Some(ttl) => self.now - entry.written_at < ttl,
                };
                if live {
                    Some(entry.value.clone())
                } else {
                    None
                }
            },
        }
    }

    fn put(&mut self, key: &str, value: StoredValue, ttl: Option<u64>)
        ensures
            final(self)@ == old(self)@.put(
                key@,
                value@,
                match ttl {
                    None => None,
                    Some(t) => Some(t as nat),
                },
            ),
    {
        proof {
            use_type_invariant(&*self);
        }
        let entry = Entry { key: String::from_str(key), value, written_at: self.now, ttl };
        let found = self.position(key);
        let ghost before = self.entries@;
        let mut entries: Vec<Entry> = Vec::new();
        std::mem::swap(&mut self.entries, &mut entries);
        match found {
            None => {
                proof {
                    assert(before.push(entry).drop_last() =~= before);
                }
                entries.push(entry);
            },
            Some(i) => {
                proof {
                    lemma_map_of_replace(before, i as int, entry);
                }
                entries.set(i, entry);
            },
        }
        self.entries = entries;
    }

    /// Writes `value` under `key` with no expiration, replacing what was there.
    pub fn set(&mut self, key: &str, value: StoredValue)
        ensures
            final(self)@ == old(self)@.set(key@, value@),
    {
        self.put(key, value, None)
    }

    /// Writes `value` under `key`, to expire `ttl_seconds` from now, replacing
    /// what was there and its expiration.
    pub fn set_with_ttl(&mut self, key: &str, value: StoredValue, ttl_seconds: u64)
        ensures
            final(self)@ == old(self)@.set_with_ttl(key@, value@, ttl_seconds as nat),
    {
        self.put(key, value, Some(ttl_seconds))
    }

    /// Moves the clock forward by `seconds`. The clock stops at `u64::MAX`.
    pub fn advance(&mut self, seconds: u64)
        ensures
            final(self)@ == old(self)@.advance(
                if old(self)@.now + seconds <= u64::MAX {
                    seconds as nat
                } else {
                    (u64::MAX - old(self)@.now) as nat
                },
            ),
    {
        proof {
            use_type_invariant(&*self);
        }
        self.now = self.now.saturating_add(seconds);
    }
}

} // verus!
