//! Creating, finding, renaming and deleting projects. Project names are kept
//! unique: a name that is taken gets a numeric suffix.

use crate::clock::{in_chrono_range, now_micros};
use crate::errors::{AppError, AppResult};
use crate::ids::{fresh_id, new_v4, uuid_version};
use crate::laws::lemma_created_project_is_found;
use crate::in_memory_project_repository::{
    find_project, has_project, lemma_has_project_ids, project_id_is_not, replace_project, upsert_project,
    InMemoryProjectRepository,
};
use crate::naming_service::{claims_fit, modify_name_with_count_of_equals, texts, unique_name};
use crate::types::Project;
use vstd::prelude::*;

verus! {

/// The names of a sequence of projects.
pub open spec fn project_names(s: Seq<Project>) -> Seq<Seq<char>> {
    s.map_values(|p: Project| p.name@)
}

/// What looking a project up by id gives: the nil id 0 is never found;
/// otherwise the first project with the id.
pub open spec fn project_lookup(s: Seq<Project>, id: u128) -> AppResult<Project> {
    if id == 0 {
        Err(AppError::ProjectNotFound)
    } else {
        match find_project(s, id) {
            Some(p) => Ok(p),
            None => Err(AppError::ProjectNotFound),
        }
    }
}

/// Whether `p` is the project that is created with this name, id and time:
/// no time limit, not archived, created and updated at `now`.
pub open spec fn is_new_project(p: Project, name: Seq<char>, id: u128, now: i64) -> bool {
    &&& p.id == id
    &&& p.name@ == name
    &&& p.time_limit is None
    &&& !p.is_archived
    &&& p.created_at == now
    &&& p.updated_at == now
}

/// Whether `p` is the project that is created with this name, time limit, id
/// and time: not archived, created and updated at `now`.
pub open spec fn is_new_limited_project(p: Project, name: Seq<char>, time_limit: Option<u32>, id: u128, now: i64) -> bool {
    &&& p.id == id
    &&& p.name@ == name
    &&& p.time_limit == time_limit
    &&& !p.is_archived
    &&& p.created_at == now
    &&& p.updated_at == now
}

/// Whether `p` is `old` put into the archive (`is_archived`) or taken out of
/// it, marked as updated at `now`.
pub open spec fn is_archived_project(p: Project, old: Project, is_archived: bool, now: i64) -> bool {
    &&& p.id == old.id
    &&& p.name == old.name
    &&& p.time_limit == old.time_limit
    &&& p.is_archived == is_archived
    &&& p.created_at == old.created_at
    &&& p.updated_at == now
}

/// Whether `p` is `old` renamed to `name` at `now`.
pub open spec fn is_renamed_project(p: Project, old: Project, name: Seq<char>, now: i64) -> bool {
    &&& p.id == old.id
    &&& p.name@ == name
    &&& p.time_limit == old.time_limit
    &&& p.is_archived == old.is_archived
    &&& p.created_at == old.created_at
    &&& p.updated_at == now
}

/// Whether `p` is `old` with the time limit `time_limit`, marked as updated
/// at `now`.
pub open spec fn is_limited_project(p: Project, old: Project, time_limit: Option<u32>, now: i64) -> bool {
    &&& p.id == old.id
    &&& p.name == old.name
    &&& p.time_limit == time_limit
    &&& p.is_archived == old.is_archived
    &&& p.created_at == old.created_at
    &&& p.updated_at == now
}

/// The project operations, on the store of projects.
pub struct ProjectService {
    pub project_repository: InMemoryProjectRepository,
}

impl ProjectService {
    pub fn new(project_repository: InMemoryProjectRepository) -> (r: Self)
        ensures
            r.project_repository@ == project_repository@,
    {
        ProjectService { project_repository }
    }

    /// Creates a project with a fresh random id at the current time.
    ///
    /// An empty name is refused with `EmptyName`. Otherwise the name is made
    /// unique among all project names, and the project is stored after the
    /// others.
    pub fn create(&mut self, project_name: String) -> (r: AppResult<Project>)
        requires
            project_name@.len() > 0 ==> claims_fit(
                project_name@,
                project_names(old(self).project_repository@),
            ),
        ensures
            project_name@.len() == 0 ==> r == Err::<Project, AppError>(AppError::EmptyName)
                && final(self).project_repository@ == old(self).project_repository@,
            project_name@.len() > 0 ==> (r matches Ok(p) && is_new_project(
                p,
                unique_name(project_name@, project_names(old(self).project_repository@)),
                p.id,
                p.created_at,
            ) && p.id != 0 && uuid_version(p.id) == 4 && in_chrono_range(p.created_at)
                && !has_project(old(self).project_repository@, p.id) && find_project(
                final(self).project_repository@,
                p.id,
            ) == Some(p) && final(self).project_repository@ == old(self).project_repository@.push(p)),
    {
        let drawn = new_v4();
        let taken = self.project_repository.ids();
        let id = fresh_id(drawn, &taken);
        let now = now_micros();
        let ghost before = self.project_repository@;
        proof {
            lemma_has_project_ids(before, id);
        }
        let r = self.create_with(project_name, id, now);
        proof {
            if r is Ok {
                lemma_created_project_is_found(before, r->Ok_0);
            }
        }
        r
    }

    /// Creates a project with the given id at the given time (see [`Self::create`]).
    pub fn create_with(&mut self, project_name: String, id: u128, now: i64) -> (r: AppResult<Project>)
        requires
            project_name@.len() > 0 ==> claims_fit(
                project_name@,
                project_names(old(self).project_repository@),
            ),
        ensures
            project_name@.len() == 0 ==> r == Err::<Project, AppError>(AppError::EmptyName)
                && final(self).project_repository@ == old(self).project_repository@,
            project_name@.len() > 0 ==> (r matches Ok(p) && is_new_project(
                p,
                unique_name(project_name@, project_names(old(self).project_repository@)),
                id,
                now,
            ) && final(self).project_repository@ == old(self).project_repository@.push(p)),
    {
        self.create_limited_with(project_name, None, id, now)
    }

    /// Creates a project with a time limit, a fresh random id and the current
    /// time (see [`Self::create_limited_with`]).
    pub fn create_limited(&mut self, project_name: String, time_limit: Option<u32>) -> (r: AppResult<Project>)
        requires
            project_name@.len() > 0 ==> claims_fit(
                project_name@,
                project_names(old(self).project_repository@),
            ),
        ensures
            project_name@.len() == 0 ==> r == Err::<Project, AppError>(AppError::EmptyName)
                && final(self).project_repository@ == old(self).project_repository@,
            project_name@.len() > 0 ==> (r matches Ok(p) && is_new_limited_project(
                p,
                unique_name(project_name@, project_names(old(self).project_repository@)),
                time_limit,
                p.id,
                p.created_at,
            ) && p.id != 0 && uuid_version(p.id) == 4 && in_chrono_range(p.created_at)
                && !has_project(old(self).project_repository@, p.id) && find_project(
                final(self).project_repository@,
                p.id,
            ) == Some(p) && final(self).project_repository@ == old(self).project_repository@.push(p)),
    {
        let drawn = new_v4();
        let taken = self.project_repository.ids();
        let id = fresh_id(drawn, &taken);
        let now = now_micros();
        let ghost before = self.project_repository@;
        proof {
            lemma_has_project_ids(before, id);
        }
        let r = self.create_limited_with(project_name, time_limit, id, now);
        proof {
            if r is Ok {
                lemma_created_project_is_found(before, r->Ok_0);
            }
        }
        r
    }

    /// Creates a project with a time limit (in minutes; `None` for none), the
    /// given id and the given time. An empty name is refused with `EmptyName`.
    /// Otherwise the name is made unique among all project names, and the
    /// project is stored after the others.
    pub fn create_limited_with(&mut self, project_name: String, time_limit: Option<u32>, id: u128, now: i64) -> (r:
        AppResult<Project>)
        requires
            project_name@.len() > 0 ==> claims_fit(
                project_name@,
                project_names(old(self).project_repository@),
            ),
        ensures
            project_name@.len() == 0 ==> r == Err::<Project, AppError>(AppError::EmptyName)
                && final(self).project_repository@ == old(self).project_repository@,
            project_name@.len() > 0 ==> (r matches Ok(p) && is_new_limited_project(
                p,
                unique_name(project_name@, project_names(old(self).project_repository@)),
                time_limit,
                id,
                now,
            ) && final(self).project_repository@ == old(self).project_repository@.push(p)),
    {
        if project_name.as_str().unicode_len() == 0 {
            return Err(AppError::EmptyName);
        }
        let projects = self.project_repository.find_all();
        let unique_project_name = self.create_unique_project_name(project_name.as_str(), &projects);
        let project = Project {
            id,
            name: unique_project_name,
            time_limit,
            is_archived: false,
            created_at: now,
            updated_at: now,
        };
        self.project_repository.create(project.clone());
        Ok(project)
    }

    /// The project with the given id. The nil id 0 is never found.
    pub fn find_by_id(&self, project_id: u128) -> (r: AppResult<Project>)
        ensures
            r == project_lookup(self.project_repository@, project_id),
    {
        if project_id == 0 {
            return Err(AppError::ProjectNotFound);
        }
        match self.project_repository.find_by_id(project_id) {
            Some(project) => Ok(project),
            None => Err(AppError::ProjectNotFound),
        }
    }

    /// All projects, in the order in which they were stored.
    pub fn find_all(&self) -> (r: AppResult<Vec<Project>>)
        ensures
            r matches Ok(v) && v@ == self.project_repository@,
    {
        Ok(self.project_repository.find_all())
    }

    /// Stores a project unless a copy of it that was updated at the same time
    /// or later is stored (see [`upsert_project`]).
    /// A stored copy that is replaced keeps its creation time.
    pub fn upsert(&mut self, project: Project) -> (r: AppResult<()>)
        ensures
            r == Ok::<(), AppError>(()),
            final(self).project_repository@ == upsert_project(old(self).project_repository@, project),
    {
        self.project_repository.upsert(project);
        Ok(())
    }

    /// Renames a project at the current time (see [`Self::edit_name_with`]).
    pub fn edit_name(&mut self, project_id: u128, name: &str) -> (r: AppResult<Project>)
        requires
            name@.len() > 0 && project_lookup(old(self).project_repository@, project_id) is Ok
                ==> claims_fit(name@, project_names(old(self).project_repository@)),
        ensures
            match project_lookup(old(self).project_repository@, project_id) {
                Err(_) => r == Err::<Project, AppError>(AppError::ProjectNotFound)
                    && final(self).project_repository@ == old(self).project_repository@,
                Ok(found) => if name@.len() == 0 {
                    r == Err::<Project, AppError>(AppError::EmptyName)
                        && final(self).project_repository@ == old(self).project_repository@
                } else {
                    r matches Ok(p) && is_renamed_project(
                        p,
                        found,
                        unique_name(name@, project_names(old(self).project_repository@)),
                        p.updated_at,
                    ) && in_chrono_range(p.updated_at) && final(self).project_repository@
                        == replace_project(old(self).project_repository@, p)
                },
            },
    {
        let now = now_micros();
        self.edit_name_with(project_id, name, now)
    }

    /// Renames a project at the given time.
    ///
    /// A project that is not found is refused with `ProjectNotFound`, then an
    /// empty name with `EmptyName`. Otherwise the name is made unique among all
    /// project names (the project's own current name among them), and the
    /// project keeps its other fields and is marked as updated at `now`.
    pub fn edit_name_with(&mut self, project_id: u128, name: &str, now: i64) -> (r: AppResult<
        Project,
    >)
        requires
            name@.len() > 0 && project_lookup(old(self).project_repository@, project_id) is Ok
                ==> claims_fit(name@, project_names(old(self).project_repository@)),
        ensures
            match project_lookup(old(self).project_repository@, project_id) {
                Err(_) => r == Err::<Project, AppError>(AppError::ProjectNotFound)
                    && final(self).project_repository@ == old(self).project_repository@,
                Ok(found) => if name@.len() == 0 {
                    r == Err::<Project, AppError>(AppError::EmptyName)
                        && final(self).project_repository@ == old(self).project_repository@
                } else {
                    r matches Ok(p) && is_renamed_project(
                        p,
                        found,
                        unique_name(name@, project_names(old(self).project_repository@)),
                        now,
                    ) && final(self).project_repository@ == replace_project(
                        old(self).project_repository@,
                        p,
                    )
                },
            },
    {
        let found = match self.find_by_id(project_id) {
            Ok(project) => project,
            Err(_) => {
                return Err(AppError::ProjectNotFound);
            },
        };
        if name.unicode_len() == 0 {
            return Err(AppError::EmptyName);
        }
        let all_projects = self.project_repository.find_all();
        let unique_project_name = self.create_unique_project_name(name, &all_projects);
        let edited_project = Project {
            id: found.id,
            name: unique_project_name,
            time_limit: found.time_limit,
            is_archived: found.is_archived,
            created_at: found.created_at,
            updated_at: now,
        };
        self.project_repository.update(edited_project.clone());
        Ok(edited_project)
    }

    /// Sets a project's time limit at the current time (see
    /// [`Self::edit_time_limit_with`]).
    pub fn edit_time_limit(&mut self, project_id: u128, time_limit: Option<u32>) -> (r: AppResult<Project>)
        ensures
            match project_lookup(old(self).project_repository@, project_id) {
                Err(_) => r == Err::<Project, AppError>(AppError::ProjectNotFound)
                    && final(self).project_repository@ == old(self).project_repository@,
                Ok(found) => r matches Ok(p) && is_limited_project(p, found, time_limit, p.updated_at)
                    && in_chrono_range(p.updated_at) && final(self).project_repository@
                    == replace_project(old(self).project_repository@, p),
            },
    {
        let now = now_micros();
        self.edit_time_limit_with(project_id, time_limit, now)
    }

    /// Sets a project's time limit (in minutes; `None` for none) at the given
    /// time. A project that is not found is refused with `ProjectNotFound`;
    /// otherwise the project keeps its other fields and is marked as updated
    /// at `now`.
    pub fn edit_time_limit_with(&mut self, project_id: u128, time_limit: Option<u32>, now: i64) -> (r:
        AppResult<Project>)
        ensures
            match project_lookup(old(self).project_repository@, project_id) {
                Err(_) => r == Err::<Project, AppError>(AppError::ProjectNotFound)
                    && final(self).project_repository@ == old(self).project_repository@,
                Ok(found) => r matches Ok(p) && is_limited_project(p, found, time_limit, now)
                    && final(self).project_repository@ == replace_project(old(self).project_repository@, p),
            },
    {
        let found = match self.find_by_id(project_id) {
            Ok(project) => project,
            Err(e) => {
                return Err(e);
            },
        };
        let edited_project = Project {
            id: found.id,
            name: found.name,
            time_limit,
            is_archived: found.is_archived,
            created_at: found.created_at,
            updated_at: now,
        };
        self.project_repository.update(edited_project.clone());
        Ok(edited_project)
    }

    /// Archives a project at the current time (see [`Self::set_archived_with`]).
    pub fn archive_project(&mut self, project_id: u128) -> (r: AppResult<Project>)
        ensures
            match project_lookup(old(self).project_repository@, project_id) {
                Err(_) => r == Err::<Project, AppError>(AppError::ProjectNotFound)
                    && final(self).project_repository@ == old(self).project_repository@,
                Ok(found) => r matches Ok(p) && is_archived_project(p, found, true, p.updated_at)
                    && in_chrono_range(p.updated_at) && final(self).project_repository@
                    == replace_project(old(self).project_repository@, p),
            },
    {
        let now = now_micros();
        self.set_archived_with(project_id, true, now)
    }

    /// Takes a project out of the archive at the current time (see
    /// [`Self::set_archived_with`]).
    pub fn unarchive_project(&mut self, project_id: u128) -> (r: AppResult<Project>)
        ensures
            match project_lookup(old(self).project_repository@, project_id) {
                Err(_) => r == Err::<Project, AppError>(AppError::ProjectNotFound)
                    && final(self).project_repository@ == old(self).project_repository@,
                Ok(found) => r matches Ok(p) && is_archived_project(p, found, false, p.updated_at)
                    && in_chrono_range(p.updated_at) && final(self).project_repository@
                    == replace_project(old(self).project_repository@, p),
            },
    {
        let now = now_micros();
        self.set_archived_with(project_id, false, now)
    }

    /// Puts a project into the archive or takes it out, at the given time. A
    /// project that is not found is refused with `ProjectNotFound`; otherwise
    /// the project keeps its other fields and is marked as updated at `now`.
    pub fn set_archived_with(&mut self, project_id: u128, is_archived: bool, now: i64) -> (r: AppResult<
        Project,
    >)
        ensures
            match project_lookup(old(self).project_repository@, project_id) {
                Err(_) => r == Err::<Project, AppError>(AppError::ProjectNotFound)
                    && final(self).project_repository@ == old(self).project_repository@,
                Ok(found) => r matches Ok(p) && is_archived_project(p, found, is_archived, now)
                    && final(self).project_repository@ == replace_project(old(self).project_repository@, p),
            },
    {
        let found = match self.find_by_id(project_id) {
            Ok(project) => project,
            Err(e) => {
                return Err(e);
            },
        };
        let edited_project = Project {
            id: found.id,
            name: found.name,
            time_limit: found.time_limit,
            is_archived,
            created_at: found.created_at,
            updated_at: now,
        };
        self.project_repository.update(edited_project.clone());
        Ok(edited_project)
    }

    /// Deletes a project. A project that is not found is refused with
    /// `ProjectNotFound`; otherwise every project with the id is removed.
    pub fn delete(&mut self, project_id: u128) -> (r: AppResult<()>)
        ensures
            match project_lookup(old(self).project_repository@, project_id) {
                Err(_) => r == Err::<(), AppError>(AppError::ProjectNotFound)
                    && final(self).project_repository@ == old(self).project_repository@,
                Ok(_) => r == Ok::<(), AppError>(()) && final(self).project_repository@ == old(self).project_repository@.filter(project_id_is_not(project_id)),
            },
    {
        if self.find_by_id(project_id).is_err() {
            return Err(AppError::ProjectNotFound);
        }
        self.project_repository.delete(project_id);
        Ok(())
    }

    /// `project_name` made unique among the names of `projects`.
    fn create_unique_project_name(&self, project_name: &str, projects: &Vec<Project>) -> (r: String)
        requires
            claims_fit(project_name@, project_names(projects@)),
        ensures
            r@ == unique_name(project_name@, project_names(projects@)),
    {
        let names = project_name_list(projects);
        modify_name_with_count_of_equals(project_name, names.as_slice())
    }
}

/// The names of the projects, in order.
pub fn project_name_list(projects: &Vec<Project>) -> (r: Vec<String>)
    ensures
        texts(r@) == project_names(projects@),
{
    let mut names: Vec<String> = Vec::new();
    let mut i: usize = 0;
    while i < projects.len()
        invariant
            0 <= i <= projects@.len(),
            names@.len() == i,
            texts(names@) == project_names(projects@.take(i as int)),
        decreases projects@.len() - i,
    {
        let ghost before = names@;
        names.push(projects[i].name.clone());
        assert forall|j: int| 0 <= j < i + 1 implies #[trigger] texts(names@)[j] == project_names(
            projects@.take(i + 1),
        )[j] by {
            if j < i {
                assert(names@[j] == before[j]);
                assert(texts(before)[j] == project_names(projects@.take(i as int))[j]);
            }
        }
        assert(texts(names@) =~= project_names(projects@.take(i + 1)));
        i += 1;
    }
    assert(projects@.take(projects@.len() as int) =~= projects@);
    names
}

} // verus!
