use vstd::prelude::*;
use crate::task::{Status, Task, TaskView};

verus! {

/// The tasks of a store, as values.
pub open spec fn store_view(tasks: Seq<Task>) -> Seq<TaskView> {
    tasks.map_values(|t: Task| t@)
}

/// `i` is the position of the first task whose id is `id`.
pub open spec fn is_first_with_id(s: Seq<TaskView>, id: usize, i: int) -> bool {
    &&& 0 <= i < s.len()
    &&& s[i].id == id
    &&& forall|j: int| 0 <= j < i ==> s[j].id != id
}

/// The position of the first task whose id is `id`, if any task has that id.
pub open spec fn first_with_id(s: Seq<TaskView>, id: usize) -> Option<int> {
    if exists|i: int| is_first_with_id(s, id, i) {
        Some(choose|i: int| is_first_with_id(s, id, i))
    } else {
        None
    }
}

/// Only one position can be the first with a given id.
pub proof fn lemma_first_with_id_unique(s: Seq<TaskView>, id: usize, i: int)
    requires
        is_first_with_id(s, id, i),
    ensures
        first_with_id(s, id) == Some(i),
{
    let k = choose|k: int| is_first_with_id(s, id, k);
    assert(is_first_with_id(s, id, k));
    if k < i {
        assert(s[k].id != id);
    } else if i < k {
        assert(s[i].id != id);
    }
}

/// The first position found for an id does hold that id, and no earlier one does.
pub proof fn lemma_first_with_id_holds(s: Seq<TaskView>, id: usize)
    requires
        first_with_id(s, id) is Some,
    ensures
        is_first_with_id(s, id, first_with_id(s, id)->Some_0),
{
}

/// No id matches: there is no first position.
pub proof fn lemma_first_with_id_none(s: Seq<TaskView>, id: usize)
    requires
        forall|j: int| 0 <= j < s.len() ==> s[j].id != id,
    ensures
        first_with_id(s, id) is None,
{
}

/// Asked for a task that is not in the store.
#[derive(Clone, Copy, Debug, PartialEq, Eq, Structural)]
pub struct NotFound {
    pub id: usize,
}

/// The store after adding a task with the next id, not yet started.
pub open spec fn added(s: Seq<TaskView>, description: Seq<char>) -> Seq<TaskView> {
    s.push(TaskView { id: (s.len() + 1) as usize, description, status: Status::Todo })
}

/// The store after the first task with `id` takes a new description.
pub open spec fn redescribed(s: Seq<TaskView>, id: usize, description: Seq<char>) -> Seq<TaskView> {
    match first_with_id(s, id) {
        Some(i) => s.update(i, TaskView { description, ..s[i] }),
        None => s,
    }
}

/// The store after the first task with `id` is removed.
pub open spec fn removed(s: Seq<TaskView>, id: usize) -> Seq<TaskView> {
    match first_with_id(s, id) {
        Some(i) => s.remove(i),
        None => s,
    }
}

/// The store after the first task with `id` takes a new status.
pub open spec fn restatused(s: Seq<TaskView>, id: usize, status: Status) -> Seq<TaskView> {
    match first_with_id(s, id) {
        Some(i) => s.update(i, TaskView { status, ..s[i] }),
        None => s,
    }
}

/// What a change to the task with `id` reports.
pub open spec fn found_or_not(s: Seq<TaskView>, id: usize) -> Result<(), NotFound> {
    if first_with_id(s, id) is Some {
        Ok(())
    } else {
        Err(NotFound { id })
    }
}

/// The position of the first task whose id is `id`.
pub fn find_task(tasks: &Vec<Task>, id: usize) -> (r: Option<usize>)
    ensures
        r matches Some(i) ==> first_with_id(store_view(tasks@), id) == Some(i as int),
        r is None ==> first_with_id(store_view(tasks@), id) is None,
{
    let ghost s = store_view(tasks@);
    let mut i: usize = 0;
    while i < tasks.len()
        invariant
            s == store_view(tasks@),
            i <= tasks.len(),
            forall|j: int| 0 <= j < i ==> s[j].id != id,
        decreases tasks.len() - i,
    {
        if tasks[i].id == id {
            proof {
                lemma_first_with_id_unique(s, id, i as int);
            }
            return Some(i);
        }
        i = i + 1;
    }
    proof {
        lemma_first_with_id_none(s, id);
    }
    None
}

/// Appends a new task whose id is one more than the number of tasks, and
/// returns that id.
pub fn add_task(tasks: &mut Vec<Task>, desc: String) -> (id: usize)
    requires
        old(tasks).len() < usize::MAX,
    ensures
        id == old(tasks).len() + 1,
        store_view(final(tasks)@) == added(store_view(old(tasks)@), desc@),
{
    let id = tasks.len() + 1;
    let task = Task::new(id, desc);
    tasks.push(task);
    assert(store_view(tasks@) =~= added(store_view(old(tasks)@), desc@));
    id
}

/// Gives the first task with `id` a new description.
pub fn update_task(tasks: &mut Vec<Task>, id: usize, desc: String) -> (r: Result<(), NotFound>)
    ensures
        r == found_or_not(store_view(old(tasks)@), id),
        store_view(final(tasks)@) == redescribed(store_view(old(tasks)@), id, desc@),
{
    match find_task(tasks, id) {
        Some(i) => {
            let mut task = tasks.remove(i);
            task.update_description(desc);
            tasks.insert(i, task);
            assert(store_view(tasks@) =~= redescribed(store_view(old(tasks)@), id, desc@));
            Ok(())
        },
        None => Err(NotFound { id }),
    }
}

/// Removes the first task with `id`; the others keep their order.
pub fn delete_task(tasks: &mut Vec<Task>, id: usize) -> (r: Result<(), NotFound>)
    ensures
        r == found_or_not(store_view(old(tasks)@), id),
        store_view(final(tasks)@) == removed(store_view(old(tasks)@), id),
{
    match find_task(tasks, id) {
        Some(i) => {
            tasks.remove(i);
            assert(store_view(tasks@) =~= removed(store_view(old(tasks)@), id));
            Ok(())
        },
        None => Err(NotFound { id }),
    }
}

/// Gives the first task with `id` a new status.
pub fn update_status(tasks: &mut Vec<Task>, id: usize, new_status: Status) -> (r: Result<(), NotFound>)
    ensures
        r == found_or_not(store_view(old(tasks)@), id),
        store_view(final(tasks)@) == restatused(store_view(old(tasks)@), id, new_status),
{
    match find_task(tasks, id) {
        Some(i) => {
            let mut task = tasks.remove(i);
            task.update_status(new_status);
            tasks.insert(i, task);
            assert(store_view(tasks@) =~= restatused(store_view(old(tasks)@), id, new_status));
            Ok(())
        },
        None => Err(NotFound { id }),
    }
}

} // verus!
