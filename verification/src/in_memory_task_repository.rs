//! Tasks held in memory, in the order in which they were added.

use crate::records::{first_index, lemma_first_index, lemma_first_index_at};
use crate::types::Task;
use vstd::prelude::*;

verus! {

broadcast use vstd::seq_lib::group_seq_properties;

/// The ids of a sequence of tasks.
pub open spec fn task_ids(s: Seq<Task>) -> Seq<u128> {
    s.map_values(|p: Task| p.id)
}

/// The first task with the given id, if any.
pub open spec fn find_task(s: Seq<Task>, id: u128) -> Option<Task> {
    let i = first_index(task_ids(s), id);
    if i >= 0 {
        Some(s[i])
    } else {
        None
    }
}

/// Whether some task has the given id.
pub open spec fn has_task(s: Seq<Task>, id: u128) -> bool {
    exists|i: int| 0 <= i < s.len() && s[i].id == id
}

/// A record has the id exactly when the id is among the ids.
pub proof fn lemma_has_task_ids(s: Seq<Task>, id: u128)
    ensures
        has_task(s, id) <==> task_ids(s).contains(id),
{
    if has_task(s, id) {
        let i = choose|i: int| 0 <= i < s.len() && s[i].id == id;
        assert(task_ids(s)[i] == id);
    }
    if task_ids(s).contains(id) {
        let i = choose|i: int| 0 <= i < task_ids(s).len() && task_ids(s)[i] == id;
        assert(s[i].id == id);
    }
}

/// `s` with the first task of `p`'s id replaced by `p`; `s` when there is none.
pub open spec fn replace_task(s: Seq<Task>, p: Task) -> Seq<Task> {
    let i = first_index(task_ids(s), p.id);
    if i >= 0 {
        s.update(i, p)
    } else {
        s
    }
}

/// `s` after storing `p` unless a copy at least as recent is there: `p` is
/// appended when its id is new, and replaces the first task of its id when
/// that one was updated earlier, keeping the stored creation time.
pub open spec fn upsert_task(s: Seq<Task>, p: Task) -> Seq<Task> {
    let i = first_index(task_ids(s), p.id);
    if i < 0 {
        s.push(p)
    } else if s[i].updated_at < p.updated_at {
        s.update(i, Task { created_at: s[i].created_at, ..p })
    } else {
        s
    }
}

/// Holds for the tasks that do not have the given id.
pub open spec fn task_id_is_not(id: u128) -> spec_fn(Task) -> bool {
    |p: Task| p.id != id
}

/// Holds for the tasks that a listing shows: all of them when archived tasks
/// are included, else the tasks that are not archived.
pub open spec fn task_is_listed(include_archived: bool) -> spec_fn(Task) -> bool {
    |t: Task| include_archived || !t.is_archived
}

/// Holds for the listed tasks of one project.
pub open spec fn task_in_project(project_id: u128, include_archived: bool) -> spec_fn(Task) -> bool {
    |t: Task| t.project_id == project_id && (include_archived || !t.is_archived)
}

/// Which tasks a listing keeps.
struct TaskFilter {
    project_id: Option<u128>,
    include_archived: bool,
}

impl TaskFilter {
    spec fn spec_holds(&self) -> spec_fn(Task) -> bool {
        match self.project_id {
            Some(pid) => task_in_project(pid, self.include_archived),
            None => task_is_listed(self.include_archived),
        }
    }

    fn holds(&self, t: &Task) -> (r: bool)
        ensures
            r == (self.spec_holds())(*t),
    {
        let listed = self.include_archived || !t.is_archived;
        match self.project_id {
            Some(pid) => t.project_id == pid && listed,
            None => listed,
        }
    }
}

/// `find_task` finds a task exactly when one has the id, and what it
/// finds has that id and is among the tasks.
pub proof fn lemma_find_task(s: Seq<Task>, id: u128)
    ensures
        find_task(s, id) is Some <==> has_task(s, id),
        find_task(s, id) matches Some(p) ==> p.id == id && s.contains(p),
{
    lemma_first_index(task_ids(s), id);
    if has_task(s, id) {
        let i = choose|i: int| 0 <= i < s.len() && s[i].id == id;
        assert(task_ids(s)[i] == id);
    }
    if find_task(s, id) is Some {
        let i = first_index(task_ids(s), id);
        assert(task_ids(s)[i] == s[i].id);
    }
}

/// Tasks kept in memory. This is the store that the services work on.
pub struct InMemoryTaskRepository {
    tasks: Vec<Task>,
}

impl View for InMemoryTaskRepository {
    type V = Seq<Task>;

    closed spec fn view(&self) -> Seq<Task> {
        self.tasks@
    }
}

impl Clone for InMemoryTaskRepository {
    fn clone(&self) -> (r: Self)
        ensures
            r@ == self@,
    {
        InMemoryTaskRepository { tasks: self.find_all(true) }
    }
}

impl InMemoryTaskRepository {
    /// An empty store.
    pub fn new() -> (r: Self)
        ensures
            r@ == Seq::<Task>::empty(),
    {
        InMemoryTaskRepository { tasks: Vec::new() }
    }

    /// The position of the first task with the given id.
    fn index_of(&self, id: u128) -> (r: Option<usize>)
        ensures
            match r {
                Some(i) => i < self@.len() && i == first_index(task_ids(self@), id),
                None => first_index(task_ids(self@), id) == -1,
            },
    {
        let ghost ids = task_ids(self@);
        let mut i: usize = 0;
        while i < self.tasks.len()
            invariant
                ids == task_ids(self@),
                0 <= i <= self@.len(),
                forall|j: int| 0 <= j < i ==> ids[j] != id,
            decreases self@.len() - i,
        {
            assert(ids[i as int] == self@[i as int].id);
            if self.tasks[i].id == id {
                proof {
                    lemma_first_index_at(ids, id, i as int);
                }
                return Some(i);
            }
            i += 1;
        }
        proof {
            lemma_first_index(ids, id);
        }
        None
    }

    /// Stores a new task after the others.
    pub fn create(&mut self, task: Task)
        ensures
            final(self)@ == old(self)@.push(task),
    {
        self.tasks.push(task);
    }

    /// Replaces the first task that has `task`'s id; does nothing when
    /// there is none.
    pub fn update(&mut self, task: Task)
        ensures
            final(self)@ == replace_task(old(self)@, task),
    {
        match self.index_of(task.id) {
            Some(i) => {
                self.tasks.set(i, task);
            },
            None => {},
        }
    }

    /// Stores `task` unless the store holds a copy of it that was updated at
    /// the same time or later (see [`upsert_task`]).
    pub fn upsert(&mut self, task: Task)
        ensures
            final(self)@ == upsert_task(old(self)@, task),
    {
        match self.index_of(task.id) {
            Some(i) => {
                if self.tasks[i].updated_at < task.updated_at {
                    let mut newer = task;
                    newer.created_at = self.tasks[i].created_at;
                    self.tasks.set(i, newer);
                }
            },
            None => {
                self.tasks.push(task);
            },
        }
    }

    /// The first task with the given id.
    pub fn find_by_id(&self, id: u128) -> (r: Option<Task>)
        ensures
            r == find_task(self@, id),
    {
        match self.index_of(id) {
            Some(i) => Some(self.tasks[i].clone()),
            None => None,
        }
    }

    /// The tasks that `keep` holds for, in the order in which they were added.
    fn select(&self, keep: &TaskFilter) -> (r: Vec<Task>)
        ensures
            r@ == self@.filter(keep.spec_holds()),
    {
        let ghost s = self@;
        let mut kept: Vec<Task> = Vec::new();
        let mut i: usize = 0;
        while i < self.tasks.len()
            invariant
                s == self@,
                0 <= i <= s.len(),
                kept@ == s.take(i as int).filter(keep.spec_holds()),
            decreases s.len() - i,
        {
            let t = self.tasks[i].clone();
            assert(s.take(i + 1) =~= s.take(i as int).push(s[i as int]));
            proof {
                s.take(i as int).lemma_filter_push(s[i as int], keep.spec_holds());
            }
            if keep.holds(&t) {
                kept.push(t);
            }
            i += 1;
        }
        assert(s.take(s.len() as int) =~= s);
        kept
    }

    /// The tasks of one project, in the order in which they were added;
    /// archived ones only when `include_archived` is set.
    pub fn find_by_project_id(&self, project_id: u128, include_archived: bool) -> (r: Vec<Task>)
        ensures
            r@ == self@.filter(task_in_project(project_id, include_archived)),
    {
        let keep = TaskFilter { project_id: Some(project_id), include_archived };
        assert(keep.spec_holds() == task_in_project(project_id, include_archived));
        self.select(&keep)
    }

    /// The ids of the tasks, in the order in which they were added.
    pub fn ids(&self) -> (r: Vec<u128>)
        ensures
            r@ == task_ids(self@),
    {
        let mut r: Vec<u128> = Vec::new();
        let mut i: usize = 0;
        while i < self.tasks.len()
            invariant
                0 <= i <= self@.len(),
                r@ == task_ids(self@.take(i as int)),
            decreases self@.len() - i,
        {
            r.push(self.tasks[i].id);
            assert(task_ids(self@.take(i + 1)) =~= task_ids(self@.take(i as int)).push(self@[i as int].id));
            i += 1;
        }
        assert(self@.take(self@.len() as int) =~= self@);
        r
    }

    /// All tasks, in the order in which they were added; archived ones only
    /// when `include_archived` is set.
    pub fn find_all(&self, include_archived: bool) -> (r: Vec<Task>)
        ensures
            r@ == (if include_archived {
                self@
            } else {
                self@.filter(task_is_listed(false))
            }),
    {
        if !include_archived {
            let keep = TaskFilter { project_id: None, include_archived: false };
            assert(keep.spec_holds() == task_is_listed(false));
            return self.select(&keep);
        }
        let mut r: Vec<Task> = Vec::new();
        let mut i: usize = 0;
        while i < self.tasks.len()
            invariant
                0 <= i <= self@.len(),
                r@ == self@.take(i as int),
            decreases self@.len() - i,
        {
            r.push(self.tasks[i].clone());
            assert(self@.take(i + 1) =~= self@.take(i as int).push(self@[i as int]));
            i += 1;
        }
        assert(self@.take(self@.len() as int) =~= self@);
        r
    }

    /// Removes every task with the given id.
    pub fn delete(&mut self, id: u128)
        ensures
            final(self)@ == old(self)@.filter(task_id_is_not(id)),
    {
        let ghost s = self@;
        let mut kept: Vec<Task> = Vec::new();
        let mut i: usize = 0;
        while i < self.tasks.len()
            invariant
                s == self@,
                0 <= i <= s.len(),
                kept@ == s.take(i as int).filter(task_id_is_not(id)),
            decreases s.len() - i,
        {
            let p = self.tasks[i].clone();
            assert(s.take(i + 1) =~= s.take(i as int).push(s[i as int]));
            proof {
                s.take(i as int).lemma_filter_push(s[i as int], task_id_is_not(id));
            }
            if p.id != id {
                kept.push(p);
            }
            i += 1;
        }
        assert(s.take(s.len() as int) =~= s);
        self.tasks = kept;
    }
}

} // verus!
