use vstd::prelude::*;
use crate::store::store_view;
use crate::task::{str_eq, texts, Status, Task, TaskView};

verus! {

/// Which tasks a listing shows.
#[derive(Clone, Copy, Debug, PartialEq, Eq, Structural)]
pub enum Filter {
    All,
    Done,
    NotDone,
    InProgress,
}

/// The filter that a word names; a word that names none shows all tasks.
pub open spec fn filter_named(word: Seq<char>) -> Filter {
    if word == "done"@ {
        Filter::Done
    } else if word == "not-done"@ {
        Filter::NotDone
    } else if word == "in-progress"@ {
        Filter::InProgress
    } else {
        Filter::All
    }
}

impl Filter {
    /// Whether a task with this status is shown.
    pub open spec fn admits(self, status: Status) -> bool {
        match self {
            Filter::All => true,
            Filter::Done => status == Status::Done,
            Filter::NotDone => status != Status::Done,
            Filter::InProgress => status == Status::InProgress,
        }
    }

    /// Reads a filter word.
    pub fn from_str(word: &str) -> (r: Filter)
        ensures
            r == filter_named(word@),
    {
        if str_eq(word, "done") {
            Filter::Done
        } else if str_eq(word, "not-done") {
            Filter::NotDone
        } else if str_eq(word, "in-progress") {
            Filter::InProgress
        } else {
            Filter::All
        }
    }

    /// Whether a task with this status is shown.
    pub fn shows(&self, status: Status) -> (r: bool)
        ensures
            r == self.admits(status),
    {
        match self {
            Filter::All => true,
            Filter::Done => status == Status::Done,
            Filter::NotDone => status != Status::Done,
            Filter::InProgress => status == Status::InProgress,
        }
    }
}

/// The tasks that the filter shows, in store order.
pub open spec fn selected(s: Seq<TaskView>, f: Filter) -> Seq<TaskView>
    decreases s.len(),
{
    if s.len() == 0 {
        Seq::empty()
    } else {
        let rest = selected(s.drop_last(), f);
        if f.admits(s.last().status) {
            rest.push(s.last())
        } else {
            rest
        }
    }
}

/// The character of a decimal digit.
pub open spec fn digit_char(d: nat) -> char {
    if d == 0 { '0' }
    else if d == 1 { '1' }
    else if d == 2 { '2' }
    else if d == 3 { '3' }
    else if d == 4 { '4' }
    else if d == 5 { '5' }
    else if d == 6 { '6' }
    else if d == 7 { '7' }
    else if d == 8 { '8' }
    else { '9' }
}

/// A number in decimal, without sign or leading zeros.
pub open spec fn decimal(n: nat) -> Seq<char>
    decreases n,
{
    if n < 10 {
        seq![digit_char(n)]
    } else {
        decimal(n / 10).push(digit_char(n % 10))
    }
}

/// Relies on `usize`'s `Display` (through `to_string`): an unsigned integer is
/// written in decimal, without sign or leading zeros.
#[verifier::external_body]
pub(crate) fn decimal_text(n: usize) -> (r: String)
    ensures
        r@ == decimal(n as nat),
{
    n.to_string()
}

/// How a task is shown: `[id] description - Status`.
pub open spec fn line_of(t: TaskView) -> Seq<char> {
    "["@ + decimal(t.id as nat) + "] "@ + t.description + " - "@ + t.status.label()
}

/// What a listing prints when no task is shown.
pub open spec fn no_tasks_line() -> Seq<char> {
    "No tasks found"@
}

/// The lines of a listing: one per shown task, or a single line saying there is none.
pub open spec fn listing(s: Seq<TaskView>, f: Filter) -> Seq<Seq<char>> {
    let shown = selected(s, f);
    if shown.len() == 0 {
        seq![no_tasks_line()]
    } else {
        shown.map_values(|t: TaskView| line_of(t))
    }
}

/// Writes one task as a listing line.
pub fn task_line(task: &Task) -> (r: String)
    ensures
        r@ == line_of(task@),
{
    let digits = decimal_text(task.id);
    let status = task.status.name();
    let mut line = String::from_str("[");
    line.append(digits.as_str());
    line.append("] ");
    line.append(task.description.as_str());
    line.append(" - ");
    line.append(status.as_str());
    line
}

/// The tasks that the filter shows, one line each, in store order.
pub fn selected_lines(tasks: &Vec<Task>, filter: Filter) -> (r: Vec<String>)
    ensures
        texts(r@) == selected(store_view(tasks@), filter).map_values(|t: TaskView| line_of(t)),
{
    let ghost s = store_view(tasks@);
    let mut lines: Vec<String> = Vec::new();
    let mut i: usize = 0;
    while i < tasks.len()
        invariant
            s == store_view(tasks@),
            i <= tasks.len(),
            texts(lines@) == selected(s.take(i as int), filter).map_values(|t: TaskView| line_of(t)),
        decreases tasks.len() - i,
    {
        let ghost before = texts(lines@);
        assert(s.take(i as int + 1).drop_last() =~= s.take(i as int));
        assert(s.take(i as int + 1).last() == tasks@[i as int]@);
        if filter.shows(tasks[i].status) {
            let line = task_line(&tasks[i]);
            lines.push(line);
            assert(texts(lines@) =~= before.push(line_of(tasks@[i as int]@)));
            assert(texts(lines@) =~= selected(s.take(i as int + 1), filter).map_values(|t: TaskView| line_of(t)));
        }
        i = i + 1;
    }
    assert(s.take(tasks.len() as int) =~= s);
    lines
}

/// The lines that listing the store under a filter word prints.
pub fn list_tasks(tasks: &Vec<Task>, filter: &str) -> (r: Vec<String>)
    ensures
        texts(r@) == listing(store_view(tasks@), filter_named(filter@)),
{
    let f = Filter::from_str(filter);
    let lines = selected_lines(tasks, f);
    if lines.len() == 0 {
        let mut none: Vec<String> = Vec::new();
        none.push(String::from_str("No tasks found"));
        assert(texts(none@) =~= seq![no_tasks_line()]);
        none
    } else {
        lines
    }
}

} // verus!
