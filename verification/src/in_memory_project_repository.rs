//! Projects held in memory, in the order in which they were added.

use crate::records::{first_index, lemma_first_index, lemma_first_index_at};
use crate::types::Project;
use vstd::prelude::*;

verus! {

broadcast use vstd::seq_lib::group_seq_properties;

/// The ids of a sequence of projects.
pub open spec fn project_ids(s: Seq<Project>) -> Seq<u128> {
    s.map_values(|p: Project| p.id)
}

/// The first project with the given id, if any.
pub open spec fn find_project(s: Seq<Project>, id: u128) -> Option<Project> {
    let i = first_index(project_ids(s), id);
    if i >= 0 {
        Some(s[i])
    } else {
        None
    }
}

/// Whether some project has the given id.
pub open spec fn has_project(s: Seq<Project>, id: u128) -> bool {
    exists|i: int| 0 <= i < s.len() && s[i].id == id
}

/// A record has the id exactly when the id is among the ids.
pub proof fn lemma_has_project_ids(s: Seq<Project>, id: u128)
    ensures
        has_project(s, id) <==> project_ids(s).contains(id),
{
    if has_project(s, id) {
        let i = choose|i: int| 0 <= i < s.len() && s[i].id == id;
        assert(project_ids(s)[i] == id);
    }
    if project_ids(s).contains(id) {
        let i = choose|i: int| 0 <= i < project_ids(s).len() && project_ids(s)[i] == id;
        assert(s[i].id == id);
    }
}

/// `s` with the first project of `p`'s id replaced by `p`; `s` when there is none.
pub open spec fn replace_project(s: Seq<Project>, p: Project) -> Seq<Project> {
    let i = first_index(project_ids(s), p.id);
    if i >= 0 {
        s.update(i, p)
    } else {
        s
    }
}

/// `s` after storing `p` unless a copy at least as recent is there: `p` is
/// appended when its id is new, and replaces the first project of its id when
/// that one was updated earlier, keeping the stored creation time.
pub open spec fn upsert_project(s: Seq<Project>, p: Project) -> Seq<Project> {
    let i = first_index(project_ids(s), p.id);
    if i < 0 {
        s.push(p)
    } else if s[i].updated_at < p.updated_at {
        s.update(i, Project { created_at: s[i].created_at, ..p })
    } else {
        s
    }
}

/// Holds for the projects that do not have the given id.
pub open spec fn project_id_is_not(id: u128) -> spec_fn(Project) -> bool {
    |p: Project| p.id != id
}

/// Holds for the projects that a listing shows: all of them when archived
/// projects are included, else the projects that are not archived.
pub open spec fn project_is_listed(include_archived: bool) -> spec_fn(Project) -> bool {
    |p: Project| include_archived || !p.is_archived
}

/// `find_project` finds a project exactly when one has the id, and what it
/// finds has that id and is among the projects.
pub proof fn lemma_find_project(s: Seq<Project>, id: u128)
    ensures
        find_project(s, id) is Some <==> has_project(s, id),
        find_project(s, id) matches Some(p) ==> p.id == id && s.contains(p),
{
    lemma_first_index(project_ids(s), id);
    if has_project(s, id) {
        let i = choose|i: int| 0 <= i < s.len() && s[i].id == id;
        assert(project_ids(s)[i] == id);
    }
    if find_project(s, id) is Some {
        let i = first_index(project_ids(s), id);
        assert(project_ids(s)[i] == s[i].id);
    }
}

/// Projects kept in memory. This is the store that the services work on.
pub struct InMemoryProjectRepository {
    projects: Vec<Project>,
}

impl View for InMemoryProjectRepository {
    type V = Seq<Project>;

    closed spec fn view(&self) -> Seq<Project> {
        self.projects@
    }
}

impl Clone for InMemoryProjectRepository {
    fn clone(&self) -> (r: Self)
        ensures
            r@ == self@,
    {
        InMemoryProjectRepository { projects: self.find_all() }
    }
}

impl InMemoryProjectRepository {
    /// An empty store.
    pub fn new() -> (r: Self)
        ensures
            r@ == Seq::<Project>::empty(),
    {
        InMemoryProjectRepository { projects: Vec::new() }
    }

    /// The position of the first project with the given id.
    fn index_of(&self, id: u128) -> (r: Option<usize>)
        ensures
            match r {
                Some(i) => i < self@.len() && i == first_index(project_ids(self@), id),
                None => first_index(project_ids(self@), id) == -1,
            },
    {
        let ghost ids = project_ids(self@);
        let mut i: usize = 0;
        while i < self.projects.len()
            invariant
                ids == project_ids(self@),
                0 <= i <= self@.len(),
                forall|j: int| 0 <= j < i ==> ids[j] != id,
            decreases self@.len() - i,
        {
            assert(ids[i as int] == self@[i as int].id);
            if self.projects[i].id == id {
                proof {
                    lemma_first_index_at(ids, id, i as int);
                }
                return Some(i);
            }
            i += 1;
        }
        proof {
            lemma_first_index(ids, id);
        }
        None
    }

    /// Stores a new project after the others.
    pub fn create(&mut self, project: Project)
        ensures
            final(self)@ == old(self)@.push(project),
    {
        self.projects.push(project);
    }

    /// Replaces the first project that has `project`'s id; does nothing when
    /// there is none.
    pub fn update(&mut self, project: Project)
        ensures
            final(self)@ == replace_project(old(self)@, project),
    {
        match self.index_of(project.id) {
            Some(i) => {
                self.projects.set(i, project);
            },
            None => {},
        }
    }

    /// Stores `project` unless the store holds a copy of it that was updated at
    /// the same time or later (see [`upsert_project`]).
    pub fn upsert(&mut self, project: Project)
        ensures
            final(self)@ == upsert_project(old(self)@, project),
    {
        match self.index_of(project.id) {
            Some(i) => {
                if self.projects[i].updated_at < project.updated_at {
                    let mut newer = project;
                    newer.created_at = self.projects[i].created_at;
                    self.projects.set(i, newer);
                }
            },
            None => {
                self.projects.push(project);
            },
        }
    }

    /// The first project with the given id.
    pub fn find_by_id(&self, id: u128) -> (r: Option<Project>)
        ensures
            r == find_project(self@, id),
    {
        match self.index_of(id) {
            Some(i) => Some(self.projects[i].clone()),
            None => None,
        }
    }

    /// The ids of the projects, in the order in which they were added.
    pub fn ids(&self) -> (r: Vec<u128>)
        ensures
            r@ == project_ids(self@),
    {
        let mut r: Vec<u128> = Vec::new();
        let mut i: usize = 0;
        while i < self.projects.len()
            invariant
                0 <= i <= self@.len(),
                r@ == project_ids(self@.take(i as int)),
            decreases self@.len() - i,
        {
            r.push(self.projects[i].id);
            assert(project_ids(self@.take(i + 1)) =~= project_ids(self@.take(i as int)).push(self@[i as int].id));
            i += 1;
        }
        assert(self@.take(self@.len() as int) =~= self@);
        r
    }

    /// All projects, in the order in which they were added.
    pub fn find_all(&self) -> (r: Vec<Project>)
        ensures
            r@ == self@,
    {
        let mut r: Vec<Project> = Vec::new();
        let mut i: usize = 0;
        while i < self.projects.len()
            invariant
                0 <= i <= self@.len(),
                r@ == self@.take(i as int),
            decreases self@.len() - i,
        {
            r.push(self.projects[i].clone());
            assert(self@.take(i + 1) =~= self@.take(i as int).push(self@[i as int]));
            i += 1;
        }
        assert(self@.take(self@.len() as int) =~= self@);
        r
    }

    /// The projects that a listing shows, in the order in which they were
    /// added; archived ones only when `include_archived` is set.
    pub fn find_listed(&self, include_archived: bool) -> (r: Vec<Project>)
        ensures
            r@ == self@.filter(project_is_listed(include_archived)),
    {
        let ghost s = self@;
        let mut kept: Vec<Project> = Vec::new();
        let mut i: usize = 0;
        while i < self.projects.len()
            invariant
                s == self@,
                0 <= i <= s.len(),
                kept@ == s.take(i as int).filter(project_is_listed(include_archived)),
            decreases s.len() - i,
        {
            assert(s.take(i + 1) =~= s.take(i as int).push(s[i as int]));
            proof {
                s.take(i as int).lemma_filter_push(s[i as int], project_is_listed(include_archived));
            }
            if include_archived || !self.projects[i].is_archived {
                kept.push(self.projects[i].clone());
            }
            i += 1;
        }
        assert(s.take(s.len() as int) =~= s);
        kept
    }

    /// Removes every project with the given id.
    pub fn delete(&mut self, id: u128)
        ensures
            final(self)@ == old(self)@.filter(project_id_is_not(id)),
    {
        let ghost s = self@;
        let mut kept: Vec<Project> = Vec::new();
        let mut i: usize = 0;
        while i < self.projects.len()
            invariant
                s == self@,
                0 <= i <= s.len(),
                kept@ == s.take(i as int).filter(project_id_is_not(id)),
            decreases s.len() - i,
        {
            let p = self.projects[i].clone();
            assert(s.take(i + 1) =~= s.take(i as int).push(s[i as int]));
            proof {
                s.take(i as int).lemma_filter_push(s[i as int], project_id_is_not(id));
            }
            if p.id != id {
                kept.push(p);
            }
            i += 1;
        }
        assert(s.take(s.len() as int) =~= s);
        self.projects = kept;
    }
}

} // verus!
