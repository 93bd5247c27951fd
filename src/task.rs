use vstd::prelude::*;

verus! {

/// The characters of each string.
pub open spec fn texts(v: Seq<String>) -> Seq<Seq<char>> {
    v.map_values(|l: String| l@)
}

/// Compares two strings character by character.
pub fn str_eq(a: &str, b: &str) -> (r: bool)
    ensures
        r == (a@ == b@),
{
    let n = a.unicode_len();
    if n != b.unicode_len() {
        return false;
    }
    let mut i: usize = 0;
    while i < n
        invariant
            n == a@.len(),
            n == b@.len(),
            i <= n,
            forall|j: int| 0 <= j < i ==> a@[j] == b@[j],
        decreases n - i,
    {
        if a.get_char(i) != b.get_char(i) {
            return false;
        }
        i = i + 1;
    }
    assert(a@ =~= b@);
    true
}

/// Where a task stands. Any status may follow any other.
#[derive(Clone, Copy, Debug, PartialEq, Eq, Structural)]
pub enum Status {
    Todo,
    InProgress,
    Done,
}

/// The status argument was none of `todo`, `in-progress`, `done`.
#[derive(Clone, Copy, Debug, PartialEq, Eq, Structural)]
pub struct InvalidStatus;

/// The status that a command-line word names, if it names one (exact, case-sensitive).
pub open spec fn status_named(word: Seq<char>) -> Option<Status> {
    if word == "todo"@ {
        Some(Status::Todo)
    } else if word == "in-progress"@ {
        Some(Status::InProgress)
    } else if word == "done"@ {
        Some(Status::Done)
    } else {
        None
    }
}

impl Status {
    /// How the status is written in listings and in the saved file.
    pub open spec fn label(self) -> Seq<char> {
        match self {
            Status::Todo => "Todo"@,
            Status::InProgress => "InProgress"@,
            Status::Done => "Done"@,
        }
    }

    /// Reads a status argument; any other word is refused.
    pub fn from_str(word: &str) -> (r: Result<Status, InvalidStatus>)
        ensures
            r == (match status_named(word@) {
                Some(s) => Ok(s),
                None => Err(InvalidStatus),
            }),
    {
        if str_eq(word, "todo") {
            Ok(Status::Todo)
        } else if str_eq(word, "in-progress") {
            Ok(Status::InProgress)
        } else if str_eq(word, "done") {
            Ok(Status::Done)
        } else {
            Err(InvalidStatus)
        }
    }

    /// The label of the status as a fresh string.
    pub fn name(&self) -> (r: String)
        ensures
            r@ == self.label(),
    {
        match self {
            Status::Todo => String::from_str("Todo"),
            Status::InProgress => String::from_str("InProgress"),
            Status::Done => String::from_str("Done"),
        }
    }
}

/// A unit of work.
pub struct Task {
    pub id: usize,
    pub description: String,
    pub status: Status,
}

/// What a task holds, with its description as characters.
pub struct TaskView {
    pub id: usize,
    pub description: Seq<char>,
    pub status: Status,
}

impl View for Task {
    type V = TaskView;

    open spec fn view(&self) -> TaskView {
        TaskView { id: self.id, description: self.description@, status: self.status }
    }
}

impl Task {
    /// A new task, not yet started.
    pub fn new(id: usize, description: String) -> (r: Task)
        ensures
            r@ == (TaskView { id: id, description: description@, status: Status::Todo }),
    {
        Task { id, description, status: Status::Todo }
    }

    /// Replaces the description; id and status stay.
    pub fn update_description(&mut self, new_description: String)
        ensures
            final(self)@ == (TaskView { description: new_description@, ..old(self)@ }),
    {
        self.description = new_description;
    }

    /// Replaces the status; id and description stay.
    pub fn update_status(&mut self, new_status: Status)
        ensures
            final(self)@ == (TaskView { status: new_status, ..old(self)@ }),
    {
        self.status = new_status;
    }
}

} // verus!
