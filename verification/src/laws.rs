//! What holds across the operations: names stay unique, what is stored is
//! found again, what is deleted is gone, and storing a newer copy wins.

use crate::in_memory_project_repository::{
    find_project, has_project, project_id_is_not, project_ids, replace_project, upsert_project,
};
use crate::in_memory_task_repository::{
    find_task, has_task, replace_task, task_id_is_not, task_ids, upsert_task,
};
use crate::in_memory_time_entry_repository::{
    find_time_entry, has_time_entry, time_entry_id_is_not, time_entry_ids, upsert_time_entry,
};
use crate::naming_service::{claims_fit, lemma_unique_name_is_free, unique_name};
use crate::project_service::{project_lookup, project_names};
use crate::records::{first_index, lemma_first_index, lemma_first_index_at};
use crate::task_service::{task_names_in, task_of_project};
use crate::types::{Project, Task, TimeEntry};
use vstd::prelude::*;

verus! {

broadcast use vstd::seq_lib::group_seq_properties;

/// Whether `ok` holds of every two elements at different positions of `s`.
pub open spec fn pairwise<A>(s: Seq<A>, ok: spec_fn(A, A) -> bool) -> bool {
    forall|i: int, j: int| 0 <= i < s.len() && 0 <= j < s.len() && i != j ==> ok(s[i], s[j])
}

/// Keeping some elements keeps a property of every two of them.
pub proof fn lemma_pairwise_filter<A>(s: Seq<A>, ok: spec_fn(A, A) -> bool, keep: spec_fn(A) -> bool)
    requires
        pairwise(s, ok),
    ensures
        pairwise(s.filter(keep), ok),
    decreases s.len(),
{
    reveal(Seq::filter);
    if s.len() > 0 {
        let d = s.drop_last();
        assert(pairwise(d, ok)) by {
            assert forall|i: int, j: int|
                0 <= i < d.len() && 0 <= j < d.len() && i != j implies ok(d[i], d[j]) by {
                assert(d[i] == s[i] && d[j] == s[j]);
            }
        }
        lemma_pairwise_filter(d, ok, keep);
        let fd = d.filter(keep);
        if keep(s.last()) {
            let f = s.filter(keep);
            assert(f == fd.push(s.last()));
            assert forall|i: int, j: int|
                0 <= i < f.len() && 0 <= j < f.len() && i != j implies ok(f[i], f[j]) by {
                if i < fd.len() && j < fd.len() {
                    assert(f[i] == fd[i] && f[j] == fd[j]);
                } else if i < fd.len() {
                    assert(fd.contains(fd[i]));
                    d.lemma_filter_contains_rev(keep, fd[i]);
                    let m = choose|m: int| 0 <= m < d.len() && d[m] == fd[i];
                    assert(s[m] == f[i] && s[s.len() - 1] == f[j]);
                } else {
                    assert(fd.contains(fd[j]));
                    d.lemma_filter_contains_rev(keep, fd[j]);
                    let m = choose|m: int| 0 <= m < d.len() && d[m] == fd[j];
                    assert(s[m] == f[j] && s[s.len() - 1] == f[i]);
                }
            }
        }
    }
}

/// Holds when two projects have different names.
pub open spec fn project_names_differ() -> spec_fn(Project, Project) -> bool {
    |a: Project, b: Project| a.name@ != b.name@
}

/// Whether no two projects share a name.
pub open spec fn project_names_distinct(s: Seq<Project>) -> bool {
    pairwise(s, project_names_differ())
}

/// A name made unique among the names of the projects is the name of none of them.
proof fn lemma_unique_project_name_is_free(s: Seq<Project>, name: Seq<char>, new_name: Seq<char>)
    requires
        claims_fit(name, project_names(s)),
        new_name == unique_name(name, project_names(s)),
    ensures
        forall|i: int| 0 <= i < s.len() ==> s[i].name@ != new_name,
{
    lemma_unique_name_is_free(name, project_names(s));
    assert forall|i: int| 0 <= i < s.len() implies s[i].name@ != new_name by {
        assert(project_names(s)[i] == s[i].name@);
    }
}

/// Project names stay unique: creating a project (`ProjectService::create`)
/// adds a name that no project has.
pub proof fn lemma_create_keeps_project_names_distinct(s: Seq<Project>, name: Seq<char>, p: Project)
    requires
        project_names_distinct(s),
        claims_fit(name, project_names(s)),
        p.name@ == unique_name(name, project_names(s)),
    ensures
        project_names_distinct(s.push(p)),
{
    lemma_unique_project_name_is_free(s, name, p.name@);
    let t = s.push(p);
    assert forall|i: int, j: int|
        0 <= i < t.len() && 0 <= j < t.len() && i != j implies t[i].name@ != t[j].name@ by {
        if i < s.len() && j < s.len() {
            assert(t[i] == s[i] && t[j] == s[j]);
        } else if i < s.len() {
            assert(t[i] == s[i]);
        } else {
            assert(t[j] == s[j]);
        }
    }
}

/// Project names stay unique: renaming a project (`ProjectService::edit_name`)
/// gives it a name that no project had, its own old name included.
pub proof fn lemma_rename_keeps_project_names_distinct(s: Seq<Project>, name: Seq<char>, p: Project)
    requires
        project_names_distinct(s),
        claims_fit(name, project_names(s)),
        p.name@ == unique_name(name, project_names(s)),
    ensures
        project_names_distinct(replace_project(s, p)),
{
    lemma_unique_project_name_is_free(s, name, p.name@);
    let k = first_index(project_ids(s), p.id);
    lemma_first_index(project_ids(s), p.id);
    if k >= 0 {
        let t = s.update(k, p);
        assert forall|i: int, j: int|
            0 <= i < t.len() && 0 <= j < t.len() && i != j implies t[i].name@ != t[j].name@ by {
            if i != k && j != k {
                assert(t[i] == s[i] && t[j] == s[j]);
            } else if i != k {
                assert(t[i] == s[i]);
            } else {
                assert(t[j] == s[j]);
            }
        }
    }
}

/// Project names stay unique: deleting projects (`ProjectService::delete`)
/// keeps the names of the others.
pub proof fn lemma_delete_keeps_project_names_distinct(s: Seq<Project>, id: u128)
    requires
        project_names_distinct(s),
    ensures
        project_names_distinct(s.filter(project_id_is_not(id))),
{
    lemma_pairwise_filter(s, project_names_differ(), project_id_is_not(id));
}

/// Holds when two tasks of the same project have different names.
pub open spec fn task_names_differ_in_project() -> spec_fn(Task, Task) -> bool {
    |a: Task, b: Task| a.project_id == b.project_id ==> a.name@ != b.name@
}

/// Whether no two tasks of one project share a name.
pub open spec fn task_names_distinct(s: Seq<Task>) -> bool {
    pairwise(s, task_names_differ_in_project())
}

/// A name made unique among the names of a project's tasks is the name of
/// none of them.
proof fn lemma_unique_task_name_is_free(s: Seq<Task>, project_id: u128, name: Seq<char>, new_name: Seq<char>)
    requires
        claims_fit(name, task_names_in(s, project_id)),
        new_name == unique_name(name, task_names_in(s, project_id)),
    ensures
        forall|i: int| 0 <= i < s.len() && s[i].project_id == project_id ==> s[i].name@ != new_name,
{
    broadcast use vstd::seq_lib::group_filter_ensures;

    let f = s.filter(task_of_project(project_id));
    lemma_unique_name_is_free(name, task_names_in(s, project_id));
    assert forall|i: int| 0 <= i < s.len() && s[i].project_id == project_id implies s[i].name@
        != new_name by {
        assert(f.contains(s[i]));
        let m = choose|m: int| 0 <= m < f.len() && f[m] == s[i];
        assert(task_names_in(s, project_id)[m] == f[m].name@);
    }
}

/// Task names stay unique within each project: creating a task
/// (`TaskService::create`) adds a name that no task of its project has.
pub proof fn lemma_create_keeps_task_names_distinct(s: Seq<Task>, name: Seq<char>, t: Task)
    requires
        task_names_distinct(s),
        claims_fit(name, task_names_in(s, t.project_id)),
        t.name@ == unique_name(name, task_names_in(s, t.project_id)),
    ensures
        task_names_distinct(s.push(t)),
{
    lemma_unique_task_name_is_free(s, t.project_id, name, t.name@);
    let u = s.push(t);
    assert forall|i: int, j: int|
        0 <= i < u.len() && 0 <= j < u.len() && i != j && u[i].project_id == u[j].project_id implies u[i].name@
        != u[j].name@ by {
        if i < s.len() && j < s.len() {
            assert(u[i] == s[i] && u[j] == s[j]);
        } else if i < s.len() {
            assert(u[i] == s[i]);
        } else {
            assert(u[j] == s[j]);
        }
    }
}

/// Task names stay unique within each project: renaming a task or moving it
/// to a project (`TaskService::edit_task_name`,
/// `TaskService::edit_task_project_relation`) gives it a name that no task of
/// its new project had, its own old name included.
pub proof fn lemma_change_keeps_task_names_distinct(s: Seq<Task>, name: Seq<char>, t: Task)
    requires
        task_names_distinct(s),
        claims_fit(name, task_names_in(s, t.project_id)),
        t.name@ == unique_name(name, task_names_in(s, t.project_id)),
    ensures
        task_names_distinct(replace_task(s, t)),
{
    lemma_unique_task_name_is_free(s, t.project_id, name, t.name@);
    let k = first_index(task_ids(s), t.id);
    lemma_first_index(task_ids(s), t.id);
    if k >= 0 {
        let u = s.update(k, t);
        assert forall|i: int, j: int|
            0 <= i < u.len() && 0 <= j < u.len() && i != j && u[i].project_id == u[j].project_id implies u[i].name@
            != u[j].name@ by {
            if i != k && j != k {
                assert(u[i] == s[i] && u[j] == s[j]);
            } else if i != k {
                assert(u[i] == s[i]);
            } else {
                assert(u[j] == s[j]);
            }
        }
    }
}

/// Task names stay unique within each project: deleting tasks
/// (`TaskService::delete`) keeps the names of the others.
pub proof fn lemma_delete_keeps_task_names_distinct(s: Seq<Task>, id: u128)
    requires
        task_names_distinct(s),
    ensures
        task_names_distinct(s.filter(task_id_is_not(id))),
{
    lemma_pairwise_filter(s, task_names_differ_in_project(), task_id_is_not(id));
}

/// A project that is created with an id that no project has is found by that
/// id (unless the id is the nil id 0).
pub proof fn lemma_created_project_is_found(s: Seq<Project>, p: Project)
    requires
        !has_project(s, p.id),
    ensures
        find_project(s.push(p), p.id) == Some(p),
        p.id != 0 ==> project_lookup(s.push(p), p.id) == Ok::<Project, crate::errors::AppError>(p),
{
    let t = s.push(p);
    assert forall|j: int| 0 <= j < s.len() implies project_ids(t)[j] != p.id by {
        assert(project_ids(t)[j] == s[j].id);
    }
    assert(project_ids(t)[s.len() as int] == p.id);
    lemma_first_index_at(project_ids(t), p.id, s.len() as int);
}

/// A deleted project is no longer found.
pub proof fn lemma_deleted_project_is_not_found(s: Seq<Project>, id: u128)
    ensures
        find_project(s.filter(project_id_is_not(id)), id) is None,
{
    broadcast use vstd::seq_lib::group_filter_ensures;

    let f = s.filter(project_id_is_not(id));
    lemma_first_index(project_ids(f), id);
    assert forall|j: int| 0 <= j < f.len() implies project_ids(f)[j] != id by {
        assert((project_id_is_not(id))(f[j]));
    }
}

/// A deleted task is no longer found.
pub proof fn lemma_deleted_task_is_not_found(s: Seq<Task>, id: u128)
    ensures
        find_task(s.filter(task_id_is_not(id)), id) is None,
{
    broadcast use vstd::seq_lib::group_filter_ensures;

    let f = s.filter(task_id_is_not(id));
    lemma_first_index(task_ids(f), id);
    assert forall|j: int| 0 <= j < f.len() implies task_ids(f)[j] != id by {
        assert((task_id_is_not(id))(f[j]));
    }
}

/// A deleted time entry is no longer found.
pub proof fn lemma_deleted_time_entry_is_not_found(s: Seq<crate::types::TimeEntry>, id: u128)
    ensures
        find_time_entry(s.filter(time_entry_id_is_not(id)), id) is None,
{
    broadcast use vstd::seq_lib::group_filter_ensures;

    let f = s.filter(time_entry_id_is_not(id));
    crate::in_memory_time_entry_repository::lemma_find_time_entry(f, id);
    assert(!has_time_entry(f, id)) by {
        assert forall|j: int| 0 <= j < f.len() implies f[j].id != id by {
            assert((time_entry_id_is_not(id))(f[j]));
        }
    }
}

/// An updated project is found as updated, when the store has its id.
pub proof fn lemma_updated_project_is_found(s: Seq<Project>, p: Project)
    requires
        has_project(s, p.id),
    ensures
        find_project(replace_project(s, p), p.id) == Some(p),
{
    let ids = project_ids(s);
    let k = first_index(ids, p.id);
    lemma_first_index(ids, p.id);
    let i = choose|i: int| 0 <= i < s.len() && s[i].id == p.id;
    assert(ids[i] == p.id);
    let t = s.update(k, p);
    assert forall|j: int| 0 <= j < k implies project_ids(t)[j] != p.id by {
        assert(project_ids(t)[j] == s[j].id);
        assert(ids[j] == s[j].id);
    }
    assert(project_ids(t)[k] == p.id);
    lemma_first_index_at(project_ids(t), p.id, k);
}

/// After a task is updated (`InMemoryTaskRepository::update`, as every edit
/// of a task does), looking its id up finds the updated task.
pub proof fn lemma_updated_task_is_found(s: Seq<Task>, t: Task)
    requires
        has_task(s, t.id),
    ensures
        find_task(replace_task(s, t), t.id) == Some(t),
{
    let ids = task_ids(s);
    let k = first_index(ids, t.id);
    lemma_first_index(ids, t.id);
    let i = choose|i: int| 0 <= i < s.len() && s[i].id == t.id;
    assert(ids[i] == t.id);
    let u = s.update(k, t);
    assert forall|j: int| 0 <= j < k implies task_ids(u)[j] != t.id by {
        assert(task_ids(u)[j] == s[j].id);
        assert(ids[j] == s[j].id);
    }
    assert(task_ids(u)[k] == t.id);
    lemma_first_index_at(task_ids(u), t.id, k);
}

/// Storing a copy of a project (`InMemoryProjectRepository::upsert`, as the
/// import does) makes it the copy that is found, with the creation time of the
/// copy that was stored before, unless the store already holds a copy that was
/// updated at the same time or later; then the store is left as it was.
pub proof fn lemma_upsert_project_newest_wins(s: Seq<Project>, p: Project)
    ensures
        match find_project(s, p.id) {
            Some(q) => if q.updated_at < p.updated_at {
                find_project(upsert_project(s, p), p.id) == Some(Project { created_at: q.created_at, ..p })
            } else {
                upsert_project(s, p) == s
            },
            None => find_project(upsert_project(s, p), p.id) == Some(p),
        },
{
    let ids = project_ids(s);
    lemma_first_index(ids, p.id);
    let k = first_index(ids, p.id);
    if k < 0 {
        assert(!has_project(s, p.id)) by {
            if has_project(s, p.id) {
                let i = choose|i: int| 0 <= i < s.len() && s[i].id == p.id;
                assert(ids[i] == s[i].id);
            }
        }
        lemma_created_project_is_found(s, p);
    } else if s[k].updated_at < p.updated_at {
        assert(ids[k] == s[k].id);
        lemma_updated_project_is_found(s, Project { created_at: s[k].created_at, ..p });
    }
}

/// Storing the same copy of a project twice is storing it once.
pub proof fn lemma_upsert_project_idempotent(s: Seq<Project>, p: Project)
    ensures
        upsert_project(upsert_project(s, p), p) == upsert_project(s, p),
{
    let ids = project_ids(s);
    lemma_first_index(ids, p.id);
    let k = first_index(ids, p.id);
    let t = upsert_project(s, p);
    let kt = first_index(project_ids(t), p.id);
    if k < 0 {
        assert forall|j: int| 0 <= j < s.len() implies project_ids(t)[j] != p.id by {
            assert(project_ids(t)[j] == s[j].id);
            assert(ids[j] == s[j].id);
        }
        assert(project_ids(t)[s.len() as int] == p.id);
        lemma_first_index_at(project_ids(t), p.id, s.len() as int);
    } else {
        assert(ids[k] == s[k].id);
        assert forall|j: int| 0 <= j < k implies project_ids(t)[j] != p.id by {
            assert(project_ids(t)[j] == t[j].id);
            assert(ids[j] == s[j].id);
        }
        assert(project_ids(t)[k] == t[k].id);
        lemma_first_index_at(project_ids(t), p.id, k);
    }
    assert(kt >= 0);
}

/// A task that is created with an id that no task has is found by that id.
pub proof fn lemma_created_task_is_found(s: Seq<Task>, t: Task)
    requires
        !has_task(s, t.id),
    ensures
        find_task(s.push(t), t.id) == Some(t),
{
    let u = s.push(t);
    assert forall|j: int| 0 <= j < s.len() implies task_ids(u)[j] != t.id by {
        assert(task_ids(u)[j] == s[j].id);
    }
    assert(task_ids(u)[s.len() as int] == t.id);
    lemma_first_index_at(task_ids(u), t.id, s.len() as int);
}

/// Storing a copy of a task (`InMemoryTaskRepository::upsert`, as the import
/// does) makes it the copy that is found, with the creation time of the copy
/// that was stored before, unless the store already holds a copy that was
/// updated at the same time or later; then the store is left as it was.
pub proof fn lemma_upsert_task_newest_wins(s: Seq<Task>, t: Task)
    ensures
        match find_task(s, t.id) {
            Some(q) => if q.updated_at < t.updated_at {
                find_task(upsert_task(s, t), t.id) == Some(Task { created_at: q.created_at, ..t })
            } else {
                upsert_task(s, t) == s
            },
            None => find_task(upsert_task(s, t), t.id) == Some(t),
        },
{
    let ids = task_ids(s);
    lemma_first_index(ids, t.id);
    let k = first_index(ids, t.id);
    if k < 0 {
        assert(!has_task(s, t.id)) by {
            if has_task(s, t.id) {
                let i = choose|i: int| 0 <= i < s.len() && s[i].id == t.id;
                assert(ids[i] == s[i].id);
            }
        }
        lemma_created_task_is_found(s, t);
    } else if s[k].updated_at < t.updated_at {
        assert(ids[k] == s[k].id);
        lemma_updated_task_is_found(s, Task { created_at: s[k].created_at, ..t });
    }
}

/// A time entry that is created with an id that no entry has is found by that
/// id.
pub proof fn lemma_created_time_entry_is_found(s: Seq<TimeEntry>, e: TimeEntry)
    requires
        !has_time_entry(s, e.id),
    ensures
        find_time_entry(s.push(e), e.id) == Some(e),
{
    let u = s.push(e);
    assert forall|j: int| 0 <= j < s.len() implies time_entry_ids(u)[j] != e.id by {
        assert(time_entry_ids(u)[j] == s[j].id);
    }
    assert(time_entry_ids(u)[s.len() as int] == e.id);
    lemma_first_index_at(time_entry_ids(u), e.id, s.len() as int);
}

/// Storing a copy of a time entry (`InMemoryTimeEntryRepository::upsert`, as
/// the import does) makes it the copy that is found, with the creation time of
/// the copy that was stored before, unless the store already holds a copy that
/// was updated at the same time or later; then the store is left as it was.
pub proof fn lemma_upsert_time_entry_newest_wins(s: Seq<TimeEntry>, e: TimeEntry)
    ensures
        match find_time_entry(s, e.id) {
            Some(q) => if q.updated_at < e.updated_at {
                find_time_entry(upsert_time_entry(s, e), e.id) == Some(TimeEntry { created_at: q.created_at, ..e })
            } else {
                upsert_time_entry(s, e) == s
            },
            None => find_time_entry(upsert_time_entry(s, e), e.id) == Some(e),
        },
{
    let ids = time_entry_ids(s);
    lemma_first_index(ids, e.id);
    let k = first_index(ids, e.id);
    if k < 0 {
        let u = s.push(e);
        assert forall|j: int| 0 <= j < s.len() implies time_entry_ids(u)[j] != e.id by {
            assert(time_entry_ids(u)[j] == s[j].id);
            assert(ids[j] == s[j].id);
        }
        assert(time_entry_ids(u)[s.len() as int] == e.id);
        lemma_first_index_at(time_entry_ids(u), e.id, s.len() as int);
    } else if s[k].updated_at < e.updated_at {
        assert(ids[k] == s[k].id);
        let u = s.update(k, TimeEntry { created_at: s[k].created_at, ..e });
        assert forall|j: int| 0 <= j < k implies time_entry_ids(u)[j] != e.id by {
            assert(time_entry_ids(u)[j] == s[j].id);
            assert(ids[j] == s[j].id);
        }
        assert(time_entry_ids(u)[k] == e.id);
        lemma_first_index_at(time_entry_ids(u), e.id, k);
    }
}

} // verus!
