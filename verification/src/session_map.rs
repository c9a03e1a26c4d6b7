//! A table with one place for each session.

use crate::ids::BackendId;
use vstd::prelude::*;

verus! {

/// The map `entered` with `value` in the place of what it holds for
/// `session`, or without the session where there is no value.
pub open spec fn replaced<V>(entered: Map<BackendId, V>, session: BackendId, value: Option<V>)
    -> Map<BackendId, V> {
    match value {
        Some(v) => entered.insert(session, v),
        None => entered.remove(session),
    }
}

#[derive(Debug)]
struct Entry<V> {
    id: BackendId,
    value: V,
}

spec fn distinct_ids<V>(entries: Seq<Entry<V>>) -> bool {
    forall|i: int, j: int|
        0 <= i < entries.len() && 0 <= j < entries.len() && #[trigger] entries[i].id
            == #[trigger] entries[j].id ==> i == j
}

/// What a process holds for each of its live sessions: a map from the
/// identity of a session to a value, with at most one value for a session.
///
/// A process has few sessions at a time, so the table is a plain list, and a
/// lookup walks it.
#[derive(Debug)]
pub struct SessionMap<V> {
    entries: Vec<Entry<V>>,
}

impl<V> SessionMap<V> {
    spec fn holds_at(&self, id: BackendId, i: int) -> bool {
        0 <= i < self.entries@.len() && self.entries@[i].id == id
    }

    spec fn index_of(&self, id: BackendId) -> int {
        choose|i: int| self.holds_at(id, i)
    }

    #[verifier::type_invariant]
    spec fn distinct(&self) -> bool {
        distinct_ids(self.entries@)
    }

    /// What is held for every session that is entered.
    pub closed spec fn view(&self) -> Map<BackendId, V> {
        Map::new(
            |id: BackendId| exists|i: int| self.holds_at(id, i),
            |id: BackendId| self.entries@[self.index_of(id)].value,
        )
    }

    proof fn lemma_entry(&self, i: int)
        requires
            self.distinct(),
            0 <= i < self.entries@.len(),
        ensures
            self@.contains_key(self.entries@[i].id),
            self@[self.entries@[i].id] == self.entries@[i].value,
    {
        let id = self.entries@[i].id;
        assert(self.holds_at(id, i));
        assert(self.holds_at(id, self.index_of(id)));
    }

    /// A table without sessions.
    pub fn new() -> (table: SessionMap<V>)
        ensures
            table@ == Map::<BackendId, V>::empty(),
    {
        let table = SessionMap { entries: Vec::new() };
        assert(table@ =~= Map::<BackendId, V>::empty());
        table
    }

    fn position(&self, id: BackendId) -> (found: Option<usize>)
        ensures
            found is Some <==> self@.contains_key(id),
            found matches Some(i) ==> self.holds_at(id, i as int) && self@[id]
                == self.entries@[i as int].value,
    {
        proof {
            use_type_invariant(self);
        }
        let mut i: usize = 0;
        while i < self.entries.len()
            invariant
                i <= self.entries@.len(),
                self.distinct(),
                forall|j: int| 0 <= j < i ==> !self.holds_at(id, j),
            decreases self.entries@.len() - i,
        {
            if self.entries[i].id == id {
                proof {
                    self.lemma_entry(i as int);
                }
                return Some(i);
            }
            i += 1;
        }
        assert(!self@.contains_key(id)) by {
            if self@.contains_key(id) {
                let j = choose|j: int| self.holds_at(id, j);
                assert(self.holds_at(id, j));
            }
        }
        None
    }

    /// Whether `session` is entered.
    pub fn contains(&self, session: BackendId) -> (entered: bool)
        ensures
            entered == self@.contains_key(session),
    {
        self.position(session).is_some()
    }

    /// How many sessions are entered.
    pub fn len(&self) -> (len: usize)
        ensures
            len == self@.dom().len(),
            self@.dom().finite(),
    {
        proof {
            use_type_invariant(self);
            self.lemma_domain_size();
        }
        self.entries.len()
    }

    proof fn lemma_domain_size(&self)
        requires
            self.distinct(),
        ensures
            self@.dom().finite(),
            self@.dom().len() == self.entries@.len(),
    {
        let ids = self.entries@.map_values(|e: Entry<V>| e.id);
        assert(ids.no_duplicates());
        assert(ids.to_set() =~= self@.dom()) by {
            assert forall|id: BackendId| ids.to_set().contains(id) implies self@.dom().contains(
                id,
            ) by {
                let i = choose|i: int| 0 <= i < ids.len() && ids[i] == id;
                assert(self.holds_at(id, i));
            }
            assert forall|id: BackendId| self@.dom().contains(id) implies ids.to_set().contains(
                id,
            ) by {
                let i = choose|i: int| self.holds_at(id, i);
                assert(ids[i] == id);
            }
        }
        ids.unique_seq_to_set();
    }

    /// What is held for `session`, where it is entered.
    pub fn get(&self, session: BackendId) -> (value: Option<&V>)
        ensures
            value is Some <==> self@.contains_key(session),
            value matches Some(v) ==> self@[session] == *v,
    {
        match self.position(session) {
            Some(i) => Some(&self.entries[i].value),
            None => None,
        }
    }

    /// Puts `value` in the place of what is held for `session`, or strikes
    /// the session out where there is no value, and hands back what was held.
    pub fn replace(&mut self, session: BackendId, value: Option<V>) -> (previous: Option<V>)
        ensures
            final(self)@ == replaced(old(self)@, session, value),
            previous == (if old(self)@.contains_key(session) {
                Some(old(self)@[session])
            } else {
                None::<V>
            }),
    {
        proof {
            use_type_invariant(&*self);
        }
        let found = self.position(session);
        let ghost before = self.entries@;
        let ghost old_view = self@;
        let ghost expected = replaced(old_view, session, value);
        let mut entries: Vec<Entry<V>> = Vec::new();
        core::mem::swap(&mut self.entries, &mut entries);
        let previous = match found {
            Some(i) => {
                let entry = entries.remove(i);
                Some(entry.value)
            },
            None => None,
        };
        let ghost without = entries@;
        proof {
            assert forall|j: int| 0 <= j < without.len() implies without[j].id != session
                && exists|k: int| 0 <= k < before.len() && before[k] == #[trigger] without[j] by {
                match found {
                    Some(i) => {
                        if j < i {
                            assert(before[j] == without[j]);
                        } else {
                            assert(before[j + 1] == without[j]);
                        }
                    },
                    None => {
                        assert(before[j] == without[j]);
                        assert(!old(self).holds_at(session, j));
                    },
                }
            }
        }
        match value {
            Some(v) => {
                entries.push(Entry { id: session, value: v });
            },
            None => {},
        }
        let ghost after = entries@;
        proof {
            assert(distinct_ids(after)) by {
                assert forall|a: int, b: int|
                    0 <= a < after.len() && 0 <= b < after.len() && #[trigger] after[a].id
                        == #[trigger] after[b].id implies a == b by {
                    if a < without.len() && b < without.len() {
                        match found {
                            Some(i) => {
                                let a0 = if a < i { a } else { a + 1 };
                                let b0 = if b < i { b } else { b + 1 };
                                assert(before[a0].id == before[b0].id);
                            },
                            None => {
                                assert(before[a].id == before[b].id);
                            },
                        }
                    } else if a < without.len() {
                        assert(without[a].id != session);
                    } else if b < without.len() {
                        assert(without[b].id != session);
                    }
                }
            }
        }
        core::mem::swap(&mut self.entries, &mut entries);
        proof {
            assert(self.entries@ == after);
            assert forall|id: BackendId| #[trigger]
                self@.contains_key(id) implies expected.contains_key(id) && expected[id]
                == self@[id] by {
                let j = choose|j: int| self.holds_at(id, j);
                assert(self.holds_at(id, j));
                self.lemma_entry(j);
                if j < without.len() {
                    let k = choose|k: int| 0 <= k < before.len() && before[k] == without[j];
                    old(self).lemma_entry(k);
                }
            }
            assert forall|id: BackendId| #[trigger]
                expected.contains_key(id) implies self@.contains_key(id) by {
                if id == session {
                    assert(self.holds_at(id, after.len() - 1));
                } else {
                    let k = choose|k: int| old(self).holds_at(id, k);
                    assert(old(self).holds_at(id, k));
                    let j = match found {
                        Some(i) => if k < i { k } else { k - 1 },
                        None => k,
                    };
                    assert(self.holds_at(id, j));
                }
            }
            assert(self@ =~= expected);
        }
        previous
    }
}

impl SessionMap<u64> {
    /// A session for which `value` is held, where there is one.
    pub fn key_of(&self, value: u64) -> (session: Option<BackendId>)
        ensures
            match session {
                Some(id) => self@.contains_key(id) && self@[id] == value,
                None => forall|id: BackendId| self@.contains_key(id) ==> self@[id] != value,
            },
    {
        proof {
            use_type_invariant(self);
        }
        let mut i: usize = 0;
        while i < self.entries.len()
            invariant
                i <= self.entries@.len(),
                self.distinct(),
                forall|j: int| 0 <= j < i ==> self.entries@[j].value != value,
            decreases self.entries@.len() - i,
        {
            if self.entries[i].value == value {
                proof {
                    self.lemma_entry(i as int);
                }
                return Some(self.entries[i].id);
            }
            i += 1;
        }
        assert forall|id: BackendId| self@.contains_key(id) implies self@[id] != value by {
            let j = choose|j: int| self.holds_at(id, j);
            assert(self.holds_at(id, j));
            self.lemma_entry(j);
        }
        None
    }
}

} // verus!
