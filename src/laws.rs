use vstd::prelude::*;
use crate::listing::{line_of, listing, no_tasks_line, selected, Filter};
use crate::store::{added, first_with_id, lemma_first_with_id_holds, found_or_not, redescribed, removed, restatused, NotFound};
use crate::task::{Status, TaskView};

verus! {

/// The store after adding each description in turn.
pub open spec fn added_all(s: Seq<TaskView>, descriptions: Seq<Seq<char>>) -> Seq<TaskView>
    decreases descriptions.len(),
{
    if descriptions.len() == 0 {
        s
    } else {
        added(added_all(s, descriptions.drop_last()), descriptions.last())
    }
}

/// Every task that the filter shows is in the listing, and only those, in
/// store order.
pub proof fn lemma_selected(s: Seq<TaskView>, f: Filter)
    ensures
        forall|t: TaskView| selected(s, f).contains(t) <==> (s.contains(t) && f.admits(t.status)),
    decreases s.len(),
{
    if s.len() > 0 {
        let rest = s.drop_last();
        lemma_selected(rest, f);
        assert(s =~= rest.push(s.last()));
        assert forall|t: TaskView| selected(s, f).contains(t) <==> (s.contains(t) && f.admits(t.status)) by {
            if s.contains(t) && t != s.last() {
                let k = choose|k: int| 0 <= k < s.len() && s[k] == t;
                assert(rest[k] == t);
            }
            if rest.contains(t) {
                let k = choose|k: int| 0 <= k < rest.len() && rest[k] == t;
                assert(s[k] == t);
            }
            if f.admits(s.last().status) {
                let sel = selected(rest, f).push(s.last());
                if selected(rest, f).contains(t) {
                    let k = choose|k: int| 0 <= k < selected(rest, f).len() && selected(rest, f)[k] == t;
                    assert(sel[k] == t);
                }
                if sel.contains(t) && t != s.last() {
                    let k = choose|k: int| 0 <= k < sel.len() && sel[k] == t;
                    assert(selected(rest, f)[k] == t);
                }
                assert(sel[sel.len() - 1] == s.last());
            }
            assert(s[s.len() - 1] == s.last());
        }
    } else {
        assert(selected(s, f) =~= Seq::<TaskView>::empty());
        assert forall|t: TaskView| !selected(s, f).contains(t) && !s.contains(t) by {}
    }
}

/// Listing everything shows the whole store.
pub proof fn lemma_selected_all(s: Seq<TaskView>)
    ensures
        selected(s, Filter::All) == s,
    decreases s.len(),
{
    if s.len() > 0 {
        lemma_selected_all(s.drop_last());
        assert(s.drop_last().push(s.last()) =~= s);
    }
}

/// Counting from an empty store, the `i`-th task added (from 1) gets id `i`,
/// a new status, and its own description, and the store holds exactly the
/// added tasks in the order they were added.
pub proof fn law_add_numbers_from_one(descriptions: Seq<Seq<char>>)
    requires
        descriptions.len() < usize::MAX,
    ensures
        added_all(Seq::empty(), descriptions).len() == descriptions.len(),
        forall|i: int|
            0 <= i < descriptions.len() ==> #[trigger] added_all(Seq::empty(), descriptions)[i]
                == (TaskView { id: (i + 1) as usize, description: descriptions[i], status: Status::Todo }),
    decreases descriptions.len(),
{
    if descriptions.len() > 0 {
        law_add_numbers_from_one(descriptions.drop_last());
    }
}

/// An update gives the first task with the id its new description, at the same
/// position, with the same id and status, and a listing of all tasks shows it
/// there; every other task stays as it was.
pub proof fn law_update_keeps_place(s: Seq<TaskView>, id: usize, description: Seq<char>)
    requires
        first_with_id(s, id) is Some,
    ensures
        ({
            let i = first_with_id(s, id)->Some_0;
            let t = redescribed(s, id, description);
            &&& found_or_not(s, id) is Ok
            &&& t.len() == s.len()
            &&& t[i] == (TaskView { id, description, status: s[i].status })
            &&& listing(t, Filter::All)[i] == line_of(TaskView { id, description, status: s[i].status })
            &&& forall|j: int| 0 <= j < s.len() && j != i ==> t[j] == s[j]
        }),
{
    let i = first_with_id(s, id)->Some_0;
    let t = redescribed(s, id, description);
    lemma_first_with_id_holds(s, id);
    lemma_selected_all(t);
}

/// A delete takes out exactly the first task with the id and keeps the others
/// in order; when no task has the id the store is unchanged and the answer is
/// that it was not found.
pub proof fn law_delete_removes_first_match(s: Seq<TaskView>, id: usize)
    ensures
        match first_with_id(s, id) {
            Some(i) => {
                &&& s[i].id == id
                &&& forall|j: int| 0 <= j < i ==> s[j].id != id
                &&& removed(s, id) == s.subrange(0, i) + s.subrange(i + 1, s.len() as int)
                &&& removed(s, id).len() == s.len() - 1
                &&& found_or_not(s, id) is Ok
            },
            None => {
                &&& removed(s, id) == s
                &&& found_or_not(s, id) == Err::<(), NotFound>(NotFound { id })
            },
        },
{
    if let Some(i) = first_with_id(s, id) {
        lemma_first_with_id_holds(s, id);
        assert(s.remove(i) =~= s.subrange(0, i) + s.subrange(i + 1, s.len() as int));
    }
}

/// Once a task is marked done, listing done tasks shows it, and listing tasks
/// not done or in progress does not.
pub proof fn law_done_is_listed_as_done(s: Seq<TaskView>, id: usize)
    requires
        first_with_id(s, id) is Some,
    ensures
        ({
            let i = first_with_id(s, id)->Some_0;
            let t = restatused(s, id, Status::Done);
            &&& t[i] == (TaskView { status: Status::Done, ..s[i] })
            &&& selected(t, Filter::Done).contains(t[i])
            &&& !selected(t, Filter::NotDone).contains(t[i])
            &&& !selected(t, Filter::InProgress).contains(t[i])
        }),
{
    let i = first_with_id(s, id)->Some_0;
    let t = restatused(s, id, Status::Done);
    lemma_first_with_id_holds(s, id);
    assert(t.contains(t[i]));
    lemma_selected(t, Filter::Done);
    lemma_selected(t, Filter::NotDone);
    lemma_selected(t, Filter::InProgress);
}

/// An empty store lists as a single line saying there are no tasks, whatever
/// the filter.
pub proof fn law_empty_store_lists_nothing(f: Filter)
    ensures
        listing(Seq::empty(), f) == seq![no_tasks_line()],
{
}

} // verus!
