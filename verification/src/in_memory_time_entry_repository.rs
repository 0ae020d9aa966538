//! Time entries held in memory, in the order in which they were added.

use crate::records::{first_index, lemma_first_index, lemma_first_index_at};
use crate::types::TimeEntry;
use vstd::prelude::*;

verus! {

broadcast use vstd::seq_lib::group_seq_properties;

/// The ids of a sequence of time_entries.
pub open spec fn time_entry_ids(s: Seq<TimeEntry>) -> Seq<u128> {
    s.map_values(|p: TimeEntry| p.id)
}

/// The first time entry with the given id, if any.
pub open spec fn find_time_entry(s: Seq<TimeEntry>, id: u128) -> Option<TimeEntry> {
    let i = first_index(time_entry_ids(s), id);
    if i >= 0 {
        Some(s[i])
    } else {
        None
    }
}

/// Whether some time entry has the given id.
pub open spec fn has_time_entry(s: Seq<TimeEntry>, id: u128) -> bool {
    exists|i: int| 0 <= i < s.len() && s[i].id == id
}

/// A record has the id exactly when the id is among the ids.
pub proof fn lemma_has_time_entry_ids(s: Seq<TimeEntry>, id: u128)
    ensures
        has_time_entry(s, id) <==> time_entry_ids(s).contains(id),
{
    if has_time_entry(s, id) {
        let i = choose|i: int| 0 <= i < s.len() && s[i].id == id;
        assert(time_entry_ids(s)[i] == id);
    }
    if time_entry_ids(s).contains(id) {
        let i = choose|i: int| 0 <= i < time_entry_ids(s).len() && time_entry_ids(s)[i] == id;
        assert(s[i].id == id);
    }
}

/// `s` with the first time entry of `p`'s id replaced by `p`; `s` when there is none.
pub open spec fn replace_time_entry(s: Seq<TimeEntry>, p: TimeEntry) -> Seq<TimeEntry> {
    let i = first_index(time_entry_ids(s), p.id);
    if i >= 0 {
        s.update(i, p)
    } else {
        s
    }
}

/// `s` after storing `p` unless a copy at least as recent is there: `p` is
/// appended when its id is new, and replaces the first time entry of its id when
/// that one was updated earlier, keeping the stored creation time.
pub open spec fn upsert_time_entry(s: Seq<TimeEntry>, p: TimeEntry) -> Seq<TimeEntry> {
    let i = first_index(time_entry_ids(s), p.id);
    if i < 0 {
        s.push(p)
    } else if s[i].updated_at < p.updated_at {
        s.update(i, TimeEntry { created_at: s[i].created_at, ..p })
    } else {
        s
    }
}

/// Holds for the time_entries that do not have the given id.
pub open spec fn time_entry_id_is_not(id: u128) -> spec_fn(TimeEntry) -> bool {
    |p: TimeEntry| p.id != id
}

/// Holds for the time entries of one task.
pub open spec fn time_entry_of_task(task_id: u128) -> spec_fn(TimeEntry) -> bool {
    |e: TimeEntry| e.task_id == task_id
}

/// `find_time_entry` finds a time entry exactly when one has the id, and what it
/// finds has that id and is among the time_entries.
pub proof fn lemma_find_time_entry(s: Seq<TimeEntry>, id: u128)
    ensures
        find_time_entry(s, id) is Some <==> has_time_entry(s, id),
        find_time_entry(s, id) matches Some(p) ==> p.id == id && s.contains(p),
{
    lemma_first_index(time_entry_ids(s), id);
    if has_time_entry(s, id) {
        let i = choose|i: int| 0 <= i < s.len() && s[i].id == id;
        assert(time_entry_ids(s)[i] == id);
    }
    if find_time_entry(s, id) is Some {
        let i = first_index(time_entry_ids(s), id);
        assert(time_entry_ids(s)[i] == s[i].id);
    }
}

/// TimeEntrys kept in memory. This is the store that the services work on.
pub struct InMemoryTimeEntryRepository {
    time_entries: Vec<TimeEntry>,
}

impl View for InMemoryTimeEntryRepository {
    type V = Seq<TimeEntry>;

    closed spec fn view(&self) -> Seq<TimeEntry> {
        self.time_entries@
    }
}

impl Clone for InMemoryTimeEntryRepository {
    fn clone(&self) -> (r: Self)
        ensures
            r@ == self@,
    {
        InMemoryTimeEntryRepository { time_entries: self.find_all() }
    }
}

impl InMemoryTimeEntryRepository {
    /// An empty store.
    pub fn new() -> (r: Self)
        ensures
            r@ == Seq::<TimeEntry>::empty(),
    {
        InMemoryTimeEntryRepository { time_entries: Vec::new() }
    }

    /// The position of the first time entry with the given id.
    fn index_of(&self, id: u128) -> (r: Option<usize>)
        ensures
            match r {
                Some(i) => i < self@.len() && i == first_index(time_entry_ids(self@), id),
                None => first_index(time_entry_ids(self@), id) == -1,
            },
    {
        let ghost ids = time_entry_ids(self@);
        let mut i: usize = 0;
        while i < self.time_entries.len()
            invariant
                ids == time_entry_ids(self@),
                0 <= i <= self@.len(),
                forall|j: int| 0 <= j < i ==> ids[j] != id,
            decreases self@.len() - i,
        {
            assert(ids[i as int] == self@[i as int].id);
            if self.time_entries[i].id == id {
                proof {
                    lemma_first_index_at(ids, id, i as int);
                }
                return Some(i);
            }
            i += 1;
        }
        proof {
            lemma_first_index(ids, id);
        }
        None
    }

    /// Stores a new time entry after the others.
    pub fn create(&mut self, time_entry: TimeEntry)
        ensures
            final(self)@ == old(self)@.push(time_entry),
    {
        self.time_entries.push(time_entry);
    }

    /// Replaces the first time entry that has `time_entry`'s id; does nothing when
    /// there is none.
    pub fn update(&mut self, time_entry: TimeEntry)
        ensures
            final(self)@ == replace_time_entry(old(self)@, time_entry),
    {
        match self.index_of(time_entry.id) {
            Some(i) => {
                self.time_entries.set(i, time_entry);
            },
            None => {},
        }
    }

    /// Stores `time_entry` unless the store holds a copy of it that was updated at
    /// the same time or later (see [`upsert_time_entry`]).
    pub fn upsert(&mut self, time_entry: TimeEntry)
        ensures
            final(self)@ == upsert_time_entry(old(self)@, time_entry),
    {
        match self.index_of(time_entry.id) {
            Some(i) => {
                if self.time_entries[i].updated_at < time_entry.updated_at {
                    let mut newer = time_entry;
                    newer.created_at = self.time_entries[i].created_at;
                    self.time_entries.set(i, newer);
                }
            },
            None => {
                self.time_entries.push(time_entry);
            },
        }
    }

    /// The first time entry with the given id.
    pub fn find_by_id(&self, id: u128) -> (r: Option<TimeEntry>)
        ensures
            r == find_time_entry(self@, id),
    {
        match self.index_of(id) {
            Some(i) => Some(self.time_entries[i].clone()),
            None => None,
        }
    }

    /// The ids of the time entries, in the order in which they were added.
    pub fn ids(&self) -> (r: Vec<u128>)
        ensures
            r@ == time_entry_ids(self@),
    {
        let mut r: Vec<u128> = Vec::new();
        let mut i: usize = 0;
        while i < self.time_entries.len()
            invariant
                0 <= i <= self@.len(),
                r@ == time_entry_ids(self@.take(i as int)),
            decreases self@.len() - i,
        {
            r.push(self.time_entries[i].id);
            assert(time_entry_ids(self@.take(i + 1)) =~= time_entry_ids(self@.take(i as int)).push(self@[i as int].id));
            i += 1;
        }
        assert(self@.take(self@.len() as int) =~= self@);
        r
    }

    /// All time_entries, in the order in which they were added.
    pub fn find_all(&self) -> (r: Vec<TimeEntry>)
        ensures
            r@ == self@,
    {
        let mut r: Vec<TimeEntry> = Vec::new();
        let mut i: usize = 0;
        while i < self.time_entries.len()
            invariant
                0 <= i <= self@.len(),
                r@ == self@.take(i as int),
            decreases self@.len() - i,
        {
            r.push(self.time_entries[i].clone());
            assert(self@.take(i + 1) =~= self@.take(i as int).push(self@[i as int]));
            i += 1;
        }
        assert(self@.take(self@.len() as int) =~= self@);
        r
    }

    /// The time entries of one task, in the order in which they were added.
    pub fn find_by_task_id(&self, task_id: u128) -> (r: Vec<TimeEntry>)
        ensures
            r@ == self@.filter(time_entry_of_task(task_id)),
    {
        let ghost s = self@;
        let mut kept: Vec<TimeEntry> = Vec::new();
        let mut i: usize = 0;
        while i < self.time_entries.len()
            invariant
                s == self@,
                0 <= i <= s.len(),
                kept@ == s.take(i as int).filter(time_entry_of_task(task_id)),
            decreases s.len() - i,
        {
            let e = self.time_entries[i];
            assert(s.take(i + 1) =~= s.take(i as int).push(s[i as int]));
            proof {
                s.take(i as int).lemma_filter_push(s[i as int], time_entry_of_task(task_id));
            }
            if e.task_id == task_id {
                kept.push(e);
            }
            i += 1;
        }
        assert(s.take(s.len() as int) =~= s);
        kept
    }

    /// Removes every time entry with the given id.
    pub fn delete(&mut self, id: u128)
        ensures
            final(self)@ == old(self)@.filter(time_entry_id_is_not(id)),
    {
        let ghost s = self@;
        let mut kept: Vec<TimeEntry> = Vec::new();
        let mut i: usize = 0;
        while i < self.time_entries.len()
            invariant
                s == self@,
                0 <= i <= s.len(),
                kept@ == s.take(i as int).filter(time_entry_id_is_not(id)),
            decreases s.len() - i,
        {
            let p = self.time_entries[i].clone();
            assert(s.take(i + 1) =~= s.take(i as int).push(s[i as int]));
            proof {
                s.take(i as int).lemma_filter_push(s[i as int], time_entry_id_is_not(id));
            }
            if p.id != id {
                kept.push(p);
            }
            i += 1;
        }
        assert(s.take(s.len() as int) =~= s);
        self.time_entries = kept;
    }
}

} // verus!
