//! The session store: outstanding challenges, each with the account that
//! asked for it and the time of asking.

use vstd::prelude::*;
use crate::types::{SessionRecord, Timestamp};

verus! {

/// What a store holds, as a map from session keys to records.
pub type Sessions = Map<Seq<char>, SessionRecord>;

/// Whether a session stamped `issued_at` is older than `expiry` seconds at
/// `now`. A stamp that lies after `now` has no age yet.
pub open spec fn is_expired(issued_at: Timestamp, now: Timestamp, expiry: u64) -> bool {
    now - issued_at > expiry
}

/// What is left of `sessions` when every expired one is dropped.
pub open spec fn swept(sessions: Sessions, now: Timestamp, expiry: u64) -> Sessions {
    Map::new(
        |k: Seq<char>| sessions.contains_key(k) && !is_expired(sessions[k].issued_at, now, expiry),
        |k: Seq<char>| sessions[k],
    )
}

/// One session: its key and its record.
struct SessionEntry {
    key: String,
    record: SessionRecord,
}

/// The mapping from challenges, as lowercase base-16 text, to session
/// records. Callers that share a store give every operation exclusive access
/// for its whole duration.
///
/// The sessions are kept in a list in which no key occurs twice; their order
/// has no meaning.
pub struct SessionStore {
    entries: Vec<SessionEntry>,
}

/// Whether entry `i` is the session of `k`.
spec fn holds_key(entries: Seq<SessionEntry>, k: Seq<char>, i: int) -> bool {
    0 <= i < entries.len() && entries[i].key@ == k
}

/// Whether no key occurs twice.
spec fn keys_distinct(entries: Seq<SessionEntry>) -> bool {
    forall|i: int, j: int| 0 <= i < j < entries.len() ==> entries[i].key@ != entries[j].key@
}

/// The map that a list of entries stands for.
spec fn model(entries: Seq<SessionEntry>) -> Sessions {
    Map::new(
        |k: Seq<char>| exists|i: int| holds_key(entries, k, i),
        |k: Seq<char>| entries[choose|i: int| holds_key(entries, k, i)].record,
    )
}

/// Every entry of a list without repeated keys is in the map, under its key.
proof fn lemma_model_at(entries: Seq<SessionEntry>, i: int)
    requires
        keys_distinct(entries),
        0 <= i < entries.len(),
    ensures
        model(entries).contains_key(entries[i].key@),
        model(entries)[entries[i].key@] == entries[i].record,
{
    let k = entries[i].key@;
    assert(holds_key(entries, k, i));
    let j = choose|j: int| holds_key(entries, k, j);
    assert(holds_key(entries, k, j));
    if j < i {
        assert(entries[j].key@ != entries[i].key@);
    } else if i < j {
        assert(entries[i].key@ != entries[j].key@);
    }
}

/// A key that no entry has is not in the map.
proof fn lemma_model_absent(entries: Seq<SessionEntry>, k: Seq<char>)
    requires
        forall|i: int| 0 <= i < entries.len() ==> entries[i].key@ != k,
    ensures
        !model(entries).contains_key(k),
{
    if model(entries).contains_key(k) {
        let i = choose|i: int| holds_key(entries, k, i);
        assert(holds_key(entries, k, i));
    }
}

/// A map that holds every entry and nothing else is the map of the list.
proof fn lemma_model_is(entries: Seq<SessionEntry>, sessions: Sessions)
    requires
        keys_distinct(entries),
        forall|i: int|
            0 <= i < entries.len() ==> sessions.contains_key(#[trigger] entries[i].key@)
                && sessions[entries[i].key@] == entries[i].record,
        forall|k: Seq<char>| #[trigger]
            sessions.contains_key(k) ==> exists|i: int| holds_key(entries, k, i),
    ensures
        model(entries) == sessions,
{
    assert forall|k: Seq<char>| model(entries).contains_key(k) implies sessions.contains_key(
        k,
    ) && sessions[k] == model(entries)[k] by {
        let i = choose|i: int| holds_key(entries, k, i);
        assert(holds_key(entries, k, i));
        assert(sessions.contains_key(entries[i].key@));
        lemma_model_at(entries, i);
    }
    assert forall|k: Seq<char>| sessions.contains_key(k) implies model(entries).contains_key(
        k,
    ) by {
        let i = choose|i: int| holds_key(entries, k, i);
        assert(holds_key(entries, k, i));
    }
    assert(model(entries) =~= sessions);
}

/// An entry for a key of the map.
proof fn lemma_model_index(entries: Seq<SessionEntry>, k: Seq<char>) -> (i: int)
    requires
        model(entries).contains_key(k),
    ensures
        holds_key(entries, k, i),
{
    choose|i: int| holds_key(entries, k, i)
}

/// The map of a list without repeated keys has as many sessions as the list
/// has entries.
proof fn lemma_model_finite(entries: Seq<SessionEntry>)
    requires
        keys_distinct(entries),
    ensures
        model(entries).dom().finite(),
        model(entries).dom().len() == entries.len(),
    decreases entries.len(),
{
    if entries.len() == 0 {
        assert(model(entries).dom() =~= Set::<Seq<char>>::empty()) by {
            assert forall|k: Seq<char>| !model(entries).contains_key(k) by {
                lemma_model_absent(entries, k);
            }
        }
    } else {
        let front = entries.drop_last();
        let last = entries.last();
        lemma_model_finite(front);
        assert(!model(front).contains_key(last.key@)) by {
            lemma_model_absent(front, last.key@);
        }
        let grown = model(front).insert(last.key@, last.record);
        assert forall|i: int| 0 <= i < entries.len() implies grown.contains_key(
            #[trigger] entries[i].key@,
        ) && grown[entries[i].key@] == entries[i].record by {
            if i < front.len() {
                assert(front[i] == entries[i]);
                lemma_model_at(front, i);
            }
        }
        assert forall|k: Seq<char>| #[trigger] grown.contains_key(k) implies exists|i: int|
            holds_key(entries, k, i) by {
            if k == last.key@ {
                assert(holds_key(entries, k, entries.len() - 1));
            } else {
                let i = lemma_model_index(front, k);
                assert(front[i] == entries[i]);
                assert(holds_key(entries, k, i));
            }
        }
        lemma_model_is(entries, grown);
        assert(model(entries).dom() =~= model(front).dom().insert(last.key@));
    }
}

/// The list with entry `i` taken out: the last entry takes its place.
spec fn without(entries: Seq<SessionEntry>, i: int) -> Seq<SessionEntry> {
    entries.update(i, entries.last()).drop_last()
}

/// Taking an entry out removes its key from the map and nothing else.
proof fn lemma_without(entries: Seq<SessionEntry>, i: int)
    requires
        keys_distinct(entries),
        0 <= i < entries.len(),
    ensures
        keys_distinct(without(entries, i)),
        model(without(entries, i)) == model(entries).remove(entries[i].key@),
{
    let rest = without(entries, i);
    let last = entries.len() - 1;
    let target = model(entries).remove(entries[i].key@);
    assert forall|j: int| 0 <= j < rest.len() implies rest[j] == entries[if j == i {
        last
    } else {
        j
    }] by {}
    assert(keys_distinct(rest)) by {
        assert forall|a: int, b: int| 0 <= a < b < rest.len() implies rest[a].key@
            != rest[b].key@ by {
            let fa = if a == i { last } else { a };
            let fb = if b == i { last } else { b };
            assert(rest[a] == entries[fa] && rest[b] == entries[fb]);
            if fa < fb {
                assert(entries[fa].key@ != entries[fb].key@);
            } else {
                assert(entries[fb].key@ != entries[fa].key@);
            }
        }
    }
    assert forall|j: int| 0 <= j < rest.len() implies target.contains_key(
        #[trigger] rest[j].key@,
    ) && target[rest[j].key@] == rest[j].record by {
        let f = if j == i { last } else { j };
        assert(rest[j] == entries[f]);
        lemma_model_at(entries, f);
        if f < i {
            assert(entries[f].key@ != entries[i].key@);
        } else {
            assert(entries[i].key@ != entries[f].key@);
        }
    }
    assert forall|k: Seq<char>| #[trigger] target.contains_key(k) implies exists|j: int|
        holds_key(rest, k, j) by {
        let f = lemma_model_index(entries, k);
        let j = if f == last { i } else { f };
        assert(rest[j] == entries[f]);
        assert(holds_key(rest, k, j));
    }
    lemma_model_is(rest, target);
}

/// Replacing the record of entry `i`, or appending an entry with a new key,
/// inserts into the map.
proof fn lemma_with(entries: Seq<SessionEntry>, grown: Seq<SessionEntry>, i: int)
    requires
        keys_distinct(entries),
        0 <= i <= entries.len(),
        i < grown.len(),
        i < entries.len() ==> grown == entries.update(i, grown[i]) && grown[i].key@
            == entries[i].key@,
        i == entries.len() ==> grown == entries.push(grown[i]) && !model(entries).contains_key(
            grown[i].key@,
        ),
    ensures
        keys_distinct(grown),
        model(grown) == model(entries).insert(grown[i].key@, grown[i].record),
{
    let target = model(entries).insert(grown[i].key@, grown[i].record);
    assert forall|j: int| 0 <= j < grown.len() && j != i implies grown[j] == entries[j]
        && grown[j].key@ != grown[i].key@ by {
        lemma_model_at(entries, j);
        if i < entries.len() {
            if j < i {
                assert(entries[j].key@ != entries[i].key@);
            } else {
                assert(entries[i].key@ != entries[j].key@);
            }
        }
    }
    assert(keys_distinct(grown)) by {
        assert forall|a: int, b: int| 0 <= a < b < grown.len() implies grown[a].key@
            != grown[b].key@ by {
            if a != i && b != i {
                assert(entries[a].key@ != entries[b].key@);
            }
        }
    }
    assert forall|j: int| 0 <= j < grown.len() implies target.contains_key(
        #[trigger] grown[j].key@,
    ) && target[grown[j].key@] == grown[j].record by {
        if j != i {
            lemma_model_at(entries, j);
        }
    }
    assert forall|k: Seq<char>| #[trigger] target.contains_key(k) implies exists|j: int|
        holds_key(grown, k, j) by {
        if k == grown[i].key@ {
            assert(holds_key(grown, k, i));
        } else {
            let j = lemma_model_index(entries, k);
            assert(holds_key(grown, k, j));
        }
    }
    lemma_model_is(grown, target);
}

impl View for SessionStore {
    type V = Sessions;

    closed spec fn view(&self) -> Sessions {
        model(self.entries@)
    }
}

impl SessionStore {
    /// No key occurs twice.
    #[verifier::type_invariant]
    spec fn well_formed(self) -> bool {
        keys_distinct(self.entries@)
    }

    /// A store without sessions.
    pub fn new() -> (store: Self)
        ensures
            store@ == Sessions::empty(),
    {
        let store = SessionStore { entries: Vec::new() };
        proof {
            assert(store@ =~= Sessions::empty()) by {
                assert forall|k: Seq<char>| !model(store.entries@).contains_key(k) by {
                    lemma_model_absent(store.entries@, k);
                }
            }
        }
        store
    }

    /// The index of the entry with `key`, if there is one.
    fn position(&self, key: &String) -> (found: Option<usize>)
        ensures
            match found {
                Some(i) => holds_key(self.entries@, key@, i as int),
                None => forall|i: int| 0 <= i < self.entries@.len() ==> self.entries@[i].key@ != key@,
            },
    {
        let mut i: usize = 0;
        while i < self.entries.len()
            invariant
                i <= self.entries@.len(),
                forall|j: int| 0 <= j < i ==> self.entries@[j].key@ != key@,
            decreases self.entries@.len() - i,
        {
            if self.entries[i].key == *key {
                return Some(i);
            }
            i = i + 1;
        }
        None
    }

    /// The record stored under `key`, as a copy.
    pub fn lookup(&self, key: &String) -> (found: Option<SessionRecord>)
        ensures
            found == if self@.contains_key(key@) {
                Some(self@[key@])
            } else {
                None
            },
    {
        proof {
            use_type_invariant(self);
        }
        match self.position(key) {
            Some(i) => {
                proof {
                    lemma_model_at(self.entries@, i as int);
                }
                Some(self.entries[i].record)
            },
            None => {
                proof {
                    lemma_model_absent(self.entries@, key@);
                }
                None
            },
        }
    }
    /// Binds `key` to `record`. A record already stored under `key` is
    /// overwritten.
    pub fn insert(&mut self, key: String, record: SessionRecord)
        ensures
            final(self)@ == old(self)@.insert(key@, record),
    {
        proof {
            use_type_invariant(&*self);
        }
        let found = self.position(&key);
        let mut entries: Vec<SessionEntry> = Vec::new();
        core::mem::swap(&mut self.entries, &mut entries);
        let ghost before = entries@;
        let ghost k = key@;
        match found {
            Some(i) => {
                entries.set(i, SessionEntry { key, record });
                proof {
                    lemma_with(before, entries@, i as int);
                }
            },
            None => {
                entries.push(SessionEntry { key, record });
                proof {
                    lemma_model_absent(before, k);
                    lemma_with(before, entries@, before.len() as int);
                }
            },
        }
        core::mem::swap(&mut self.entries, &mut entries);
    }

    /// Deletes the record stored under `key`, if there is one.
    pub fn remove(&mut self, key: &String)
        ensures
            final(self)@ == old(self)@.remove(key@),
    {
        proof {
            use_type_invariant(&*self);
        }
        let found = self.position(key);
        let mut entries: Vec<SessionEntry> = Vec::new();
        core::mem::swap(&mut self.entries, &mut entries);
        let ghost before = entries@;
        match found {
            Some(i) => {
                entries.swap_remove(i);
                proof {
                    lemma_without(before, i as int);
                }
            },
            None => {
                proof {
                    lemma_model_absent(before, key@);
                    assert(model(before) =~= model(before).remove(key@));
                }
            },
        }
        core::mem::swap(&mut self.entries, &mut entries);
    }

    /// The number of sessions.
    pub fn len(&self) -> (n: usize)
        ensures
            self@.dom().finite(),
            n == self@.len(),
    {
        proof {
            use_type_invariant(self);
            lemma_model_finite(self.entries@);
        }
        self.entries.len()
    }

    /// Whether the store holds no session.
    pub fn is_empty(&self) -> (r: bool)
        ensures
            r == (self@ == Sessions::empty()),
    {
        proof {
            use_type_invariant(self);
            lemma_model_finite(self.entries@);
            if self.entries@.len() == 0 {
                assert(self@ =~= Sessions::empty()) by {
                    assert forall|k: Seq<char>| !model(self.entries@).contains_key(k) by {
                        lemma_model_absent(self.entries@, k);
                    }
                }
            }
        }
        self.entries.len() == 0
    }

    /// Discards every session that is older than `expiry` seconds at `now`,
    /// and returns how many were discarded.
    pub fn sweep(&mut self, now: Timestamp, expiry: u64) -> (removed: usize)
        ensures
            final(self)@ == swept(old(self)@, now, expiry),
            old(self)@.dom().finite(),
            final(self)@.dom().finite(),
            removed == old(self)@.len() - final(self)@.len(),
    {
        proof {
            use_type_invariant(&*self);
            lemma_model_finite(self.entries@);
        }
        let mut entries: Vec<SessionEntry> = Vec::new();
        core::mem::swap(&mut self.entries, &mut entries);
        let ghost before = entries@;
        let total: usize = entries.len();
        let mut removed: usize = 0;
        let mut i: usize = 0;
        while i < entries.len()
            invariant
                keys_distinct(entries@),
                i <= entries@.len(),
                forall|j: int|
                    0 <= j < i ==> !is_expired(
                        (#[trigger] entries@[j]).record.issued_at,
                        now,
                        expiry,
                    ),
                swept(model(entries@), now, expiry) == swept(model(before), now, expiry),
                removed + entries@.len() == before.len(),
                before.len() == total,
            decreases entries@.len() - i,
        {
            let issued_at = entries[i].record.issued_at;
            if now > issued_at && now - issued_at > expiry {
                let ghost current = entries@;
                entries.swap_remove(i);
                removed = removed + 1;
                proof {
                    lemma_without(current, i as int);
                    lemma_model_at(current, i as int);
                    assert(swept(model(entries@), now, expiry) =~= swept(
                        model(current),
                        now,
                        expiry,
                    ));
                }
            } else {
                i = i + 1;
            }
        }
        proof {
            lemma_model_finite(entries@);
            assert(swept(model(entries@), now, expiry) =~= model(entries@)) by {
                assert forall|k: Seq<char>|
                    model(entries@).contains_key(k) implies !is_expired(
                    model(entries@)[k].issued_at,
                    now,
                    expiry,
                ) by {
                    let j = lemma_model_index(entries@, k);
                    lemma_model_at(entries@, j);
                }
            }
        }
        core::mem::swap(&mut self.entries, &mut entries);
        removed
    }
}

} // verus!
