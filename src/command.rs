use vstd::prelude::*;
use crate::args::{id_named, join_from, joined, parse_id};
use crate::listing::{decimal, decimal_text, filter_named, list_tasks, listing};
use crate::store::{
    added, add_task, delete_task, found_or_not, redescribed, removed, restatused, store_view,
    update_status, update_task,
};
use crate::task::{status_named, str_eq, texts, Status, Task, TaskView};

verus! {

/// What one command prints, and whether it ended the process abnormally.
pub struct Outcome {
    pub stdout: Vec<String>,
    pub stderr: Vec<String>,
    pub fatal: bool,
}

/// An outcome as lines of characters.
pub struct OutcomeView {
    pub stdout: Seq<Seq<char>>,
    pub stderr: Seq<Seq<char>>,
    pub fatal: bool,
}

impl View for Outcome {
    type V = OutcomeView;

    open spec fn view(&self) -> OutcomeView {
        OutcomeView { stdout: texts(self.stdout@), stderr: texts(self.stderr@), fatal: self.fatal }
    }
}

/// One line on the output stream.
pub open spec fn said(line: Seq<char>) -> OutcomeView {
    OutcomeView { stdout: seq![line], stderr: seq![], fatal: false }
}

/// One line on the error stream.
pub open spec fn complained(line: Seq<char>) -> OutcomeView {
    OutcomeView { stdout: seq![], stderr: seq![line], fatal: false }
}

/// Lines on the output stream.
pub open spec fn printed(lines: Seq<Seq<char>>) -> OutcomeView {
    OutcomeView { stdout: lines, stderr: seq![], fatal: false }
}

/// A diagnostic that ends the process; nothing is saved.
pub open spec fn aborted(line: Seq<char>) -> OutcomeView {
    OutcomeView { stdout: seq![], stderr: seq![line], fatal: true }
}

pub open spec fn usage_line() -> Seq<char> {
    "Usage: add <desc> | update <id> <desc> | delete <id> | status <id> <status> | list [all|done|not-done|in-progress]"@
}

pub open spec fn unknown_line() -> Seq<char> {
    "Unknown command"@
}

pub open spec fn invalid_status_line() -> Seq<char> {
    "Invalid status. Use: todo, in-progress, done"@
}

/// `Task <id><rest>`.
pub open spec fn task_said(id: usize, rest: Seq<char>) -> Seq<char> {
    "Task "@ + decimal(id as nat) + rest
}

/// The report of a change to the task with `id`: `done` where it was found.
pub open spec fn change_reported(r: Result<(), crate::store::NotFound>, id: usize, done: Seq<char>) -> OutcomeView {
    match r {
        Ok(_) => said(task_said(id, done)),
        Err(_) => complained(task_said(id, " not found"@)),
    }
}

/// What one invocation does, given the store and the words after the program
/// name: the store afterwards, and what it prints.
pub open spec fn step(s: Seq<TaskView>, a: Seq<Seq<char>>) -> (Seq<TaskView>, OutcomeView) {
    if a.len() == 0 {
        (s, complained(usage_line()))
    } else if a[0] == "add"@ {
        if a.len() < 2 {
            (s, complained("Usage: add <desc>"@))
        } else {
            (
                added(s, joined(a.subrange(1, a.len() as int))),
                said("Task added with ID: "@ + decimal((s.len() + 1) as nat)),
            )
        }
    } else if a[0] == "update"@ {
        if a.len() < 3 {
            (s, complained("Usage: update <id> <desc>"@))
        } else {
            let id = id_named(a[1]);
            (
                redescribed(s, id, joined(a.subrange(2, a.len() as int))),
                change_reported(found_or_not(s, id), id, " updated"@),
            )
        }
    } else if a[0] == "delete"@ {
        if a.len() < 2 {
            (s, complained("Usage: delete <id>"@))
        } else {
            let id = id_named(a[1]);
            (removed(s, id), change_reported(found_or_not(s, id), id, " deleted"@))
        }
    } else if a[0] == "status"@ {
        if a.len() < 3 {
            (s, complained("Usage: status <id> <status>"@))
        } else {
            let id = id_named(a[1]);
            match status_named(a[2]) {
                Some(st) => (
                    restatused(s, id, st),
                    change_reported(found_or_not(s, id), id, " status updated"@),
                ),
                None => (s, aborted(invalid_status_line())),
            }
        }
    } else if a[0] == "list"@ {
        let f = if a.len() < 2 { filter_named("all"@) } else { filter_named(a[1]) };
        (s, printed(listing(s, f)))
    } else {
        (s, complained(unknown_line()))
    }
}

fn one_line(line: String) -> (r: Vec<String>)
    ensures
        texts(r@) == seq![line@],
{
    let mut v: Vec<String> = Vec::new();
    v.push(line);
    assert(texts(v@) =~= seq![line@]);
    v
}

fn say(line: String) -> (r: Outcome)
    ensures
        r@ == said(line@),
{
    let r = Outcome { stdout: one_line(line), stderr: Vec::new(), fatal: false };
    assert(texts(r.stderr@) =~= seq![]);
    r
}

fn complain(line: String) -> (r: Outcome)
    ensures
        r@ == complained(line@),
{
    let r = Outcome { stdout: Vec::new(), stderr: one_line(line), fatal: false };
    assert(texts(r.stdout@) =~= seq![]);
    r
}

/// `Task <id><rest>` as a string.
fn task_message(id: usize, rest: &str) -> (r: String)
    ensures
        r@ == task_said(id, rest@),
{
    let mut m = String::from_str("Task ");
    let digits = decimal_text(id);
    m.append(digits.as_str());
    m.append(rest);
    m
}

fn report_change(r: Result<(), crate::store::NotFound>, id: usize, done: &str) -> (o: Outcome)
    ensures
        o@ == change_reported(r, id, done@),
{
    match r {
        Ok(_) => say(task_message(id, done)),
        Err(_) => complain(task_message(id, " not found")),
    }
}

/// Carries out one invocation on the store: `args` are the words after the
/// program name. Returns what to print; when `fatal` is set the process stops
/// and the store is not saved.
pub fn run(tasks: &mut Vec<Task>, args: &Vec<String>) -> (r: Outcome)
    requires
        old(tasks).len() < usize::MAX,
    ensures
        (store_view(final(tasks)@), r@) == step(store_view(old(tasks)@), texts(args@)),
{
    let ghost a = texts(args@);
    if args.len() == 0 {
        return complain(String::from_str(
            "Usage: add <desc> | update <id> <desc> | delete <id> | status <id> <status> | list [all|done|not-done|in-progress]",
        ));
    }
    let command = args[0].as_str();
    assert(command@ == a[0]);
    if str_eq(command, "add") {
        if args.len() < 2 {
            return complain(String::from_str("Usage: add <desc>"));
        }
        let desc = join_from(args, 1);
        let id = add_task(tasks, desc);
        let mut m = String::from_str("Task added with ID: ");
        let digits = decimal_text(id);
        m.append(digits.as_str());
        say(m)
    } else if str_eq(command, "update") {
        if args.len() < 3 {
            return complain(String::from_str("Usage: update <id> <desc>"));
        }
        let id = parse_id(args[1].as_str());
        let desc = join_from(args, 2);
        let r = update_task(tasks, id, desc);
        report_change(r, id, " updated")
    } else if str_eq(command, "delete") {
        if args.len() < 2 {
            return complain(String::from_str("Usage: delete <id>"));
        }
        let id = parse_id(args[1].as_str());
        let r = delete_task(tasks, id);
        report_change(r, id, " deleted")
    } else if str_eq(command, "status") {
        if args.len() < 3 {
            return complain(String::from_str("Usage: status <id> <status>"));
        }
        let id = parse_id(args[1].as_str());
        match Status::from_str(args[2].as_str()) {
            Ok(st) => {
                let r = update_status(tasks, id, st);
                report_change(r, id, " status updated")
            },
            Err(_) => {
                let r = Outcome {
                    stdout: Vec::new(),
                    stderr: one_line(String::from_str("Invalid status. Use: todo, in-progress, done")),
                    fatal: true,
                };
                assert(texts(r.stdout@) =~= seq![]);
                r
            },
        }
    } else if str_eq(command, "list") {
        let lines = if args.len() < 2 {
            list_tasks(tasks, "all")
        } else {
            list_tasks(tasks, args[1].as_str())
        };
        let r = Outcome { stdout: lines, stderr: Vec::new(), fatal: false };
        assert(texts(r.stderr@) =~= seq![]);
        r
    } else {
        complain(String::from_str("Unknown command"))
    }
}

/// What reading the saved store found.
pub enum Persisted {
    /// No saved store exists.
    Missing,
    /// A saved store exists but could not be read as one.
    Malformed,
    /// The saved tasks, in order.
    Tasks(Vec<Task>),
}

/// The store that an invocation starts from: the saved tasks, or none when
/// there is no saved store or it cannot be read.
pub fn load_tasks(found: Persisted) -> (r: Vec<Task>)
    ensures
        match found {
            Persisted::Tasks(v) => r@ == v@,
            _ => r@.len() == 0,
        },
{
    match found {
        Persisted::Tasks(v) => v,
        _ => Vec::new(),
    }
}

} // verus!
