use task_tracker::args::{join_from, parse_id};
use task_tracker::command::{load_tasks, run, Outcome, Persisted};
use task_tracker::listing::{list_tasks, task_line, Filter};
use task_tracker::store::{add_task, delete_task, find_task, update_status, update_task, NotFound};
use task_tracker::task::{str_eq, InvalidStatus, Status, Task};

fn words(ws: &[&str]) -> Vec<String> {
    ws.iter().map(|w| w.to_string()).collect()
}

fn strings(ws: &[&str]) -> Vec<String> {
    words(ws)
}

fn exec(tasks: &mut Vec<Task>, ws: &[&str]) -> Outcome {
    run(tasks, &words(ws))
}

fn summary(tasks: &Vec<Task>) -> Vec<(usize, String, Status)> {
    tasks.iter().map(|t| (t.id, t.description.clone(), t.status)).collect()
}

/// Hands the tasks to a fresh invocation, as saving and loading does.
fn restart(tasks: Vec<Task>) -> Vec<Task> {
    load_tasks(Persisted::Tasks(tasks))
}

#[test]
fn example_session() {
    let mut tasks = load_tasks(Persisted::Missing);
    let o = exec(&mut tasks, &["add", "buy", "milk"]);
    assert_eq!(o.stdout, strings(&["Task added with ID: 1"]));
    assert!(o.stderr.is_empty());
    let mut tasks = restart(tasks);
    let o = exec(&mut tasks, &["add", "write", "spec"]);
    assert_eq!(o.stdout, strings(&["Task added with ID: 2"]));
    let mut tasks = restart(tasks);
    let o = exec(&mut tasks, &["status", "1", "done"]);
    assert_eq!(o.stdout, strings(&["Task 1 status updated"]));
    assert!(!o.fatal);
    let o = exec(&mut tasks, &["list", "done"]);
    assert_eq!(o.stdout, strings(&["[1] buy milk - Done"]));
    let o = exec(&mut tasks, &["list", "not-done"]);
    assert_eq!(o.stdout, strings(&["[2] write spec - Todo"]));
}

#[test]
fn adds_number_from_one_across_restarts() {
    let mut tasks = Vec::new();
    for i in 1..=5usize {
        let o = exec(&mut tasks, &["add", "task"]);
        assert_eq!(o.stdout, vec![format!("Task added with ID: {}", i)]);
        tasks = restart(tasks);
    }
    let ids: Vec<usize> = tasks.iter().map(|t| t.id).collect();
    assert_eq!(ids, vec![1, 2, 3, 4, 5]);
    assert!(tasks.iter().all(|t| t.status == Status::Todo));
}

#[test]
fn add_after_delete_reuses_an_id() {
    let mut tasks = Vec::new();
    exec(&mut tasks, &["add", "a"]);
    exec(&mut tasks, &["add", "b"]);
    exec(&mut tasks, &["delete", "1"]);
    let o = exec(&mut tasks, &["add", "c"]);
    assert_eq!(o.stdout, strings(&["Task added with ID: 2"]));
    assert_eq!(
        summary(&tasks),
        vec![(2, "b".to_string(), Status::Todo), (2, "c".to_string(), Status::Todo)]
    );
}

#[test]
fn update_keeps_position_and_status() {
    let mut tasks = Vec::new();
    exec(&mut tasks, &["add", "one"]);
    exec(&mut tasks, &["add", "two"]);
    exec(&mut tasks, &["add", "three"]);
    exec(&mut tasks, &["status", "2", "in-progress"]);
    let o = exec(&mut tasks, &["update", "2", "second", "task"]);
    assert_eq!(o.stdout, strings(&["Task 2 updated"]));
    let o = exec(&mut tasks, &["list"]);
    assert_eq!(
        o.stdout,
        strings(&["[1] one - Todo", "[2] second task - InProgress", "[3] three - Todo"])
    );
}

#[test]
fn update_of_missing_id_reports_not_found() {
    let mut tasks = Vec::new();
    exec(&mut tasks, &["add", "one"]);
    let o = exec(&mut tasks, &["update", "9", "x"]);
    assert!(o.stdout.is_empty());
    assert_eq!(o.stderr, strings(&["Task 9 not found"]));
    assert_eq!(summary(&tasks), vec![(1, "one".to_string(), Status::Todo)]);
}

#[test]
fn delete_removes_first_match_and_keeps_order() {
    let mut tasks = Vec::new();
    exec(&mut tasks, &["add", "a"]);
    exec(&mut tasks, &["add", "b"]);
    exec(&mut tasks, &["add", "c"]);
    exec(&mut tasks, &["delete", "1"]);
    exec(&mut tasks, &["add", "d"]);
    // ids are now 2, 3, 3
    let o = exec(&mut tasks, &["delete", "3"]);
    assert_eq!(o.stdout, strings(&["Task 3 deleted"]));
    assert_eq!(
        summary(&tasks),
        vec![(2, "b".to_string(), Status::Todo), (3, "d".to_string(), Status::Todo)]
    );
}

#[test]
fn delete_of_missing_id_leaves_store() {
    let mut tasks = Vec::new();
    exec(&mut tasks, &["add", "a"]);
    exec(&mut tasks, &["add", "b"]);
    let before = summary(&tasks);
    let o = exec(&mut tasks, &["delete", "7"]);
    assert_eq!(o.stderr, strings(&["Task 7 not found"]));
    assert!(o.stdout.is_empty());
    assert_eq!(summary(&tasks), before);
}

#[test]
fn done_task_lists_only_as_done() {
    let mut tasks = Vec::new();
    exec(&mut tasks, &["add", "a"]);
    exec(&mut tasks, &["add", "b"]);
    exec(&mut tasks, &["status", "2", "in-progress"]);
    exec(&mut tasks, &["status", "1", "done"]);
    assert_eq!(exec(&mut tasks, &["list", "done"]).stdout, strings(&["[1] a - Done"]));
    assert_eq!(exec(&mut tasks, &["list", "not-done"]).stdout, strings(&["[2] b - InProgress"]));
    assert_eq!(exec(&mut tasks, &["list", "in-progress"]).stdout, strings(&["[2] b - InProgress"]));
    assert_eq!(
        exec(&mut tasks, &["list", "all"]).stdout,
        strings(&["[1] a - Done", "[2] b - InProgress"])
    );
    assert_eq!(
        exec(&mut tasks, &["list", "whatever"]).stdout,
        strings(&["[1] a - Done", "[2] b - InProgress"])
    );
}

#[test]
fn empty_listing_says_no_tasks() {
    let mut tasks = Vec::new();
    exec(&mut tasks, &["add", "a"]);
    assert_eq!(exec(&mut tasks, &["list", "done"]).stdout, strings(&["No tasks found"]));
}

#[test]
fn missing_file_gives_empty_store() {
    let mut tasks = load_tasks(Persisted::Missing);
    assert!(tasks.is_empty());
    let o = exec(&mut tasks, &["list", "all"]);
    assert_eq!(o.stdout, strings(&["No tasks found"]));
}

#[test]
fn malformed_file_gives_empty_store() {
    let tasks = load_tasks(Persisted::Malformed);
    assert!(tasks.is_empty());
}

#[test]
fn saved_tasks_are_loaded_as_they_were() {
    let mut saved = vec![Task::new(4, "x".to_string()), Task::new(1, "y".to_string())];
    saved[0].update_status(Status::Done);
    let tasks = load_tasks(Persisted::Tasks(saved));
    assert_eq!(
        summary(&tasks),
        vec![(4, "x".to_string(), Status::Done), (1, "y".to_string(), Status::Todo)]
    );
}

#[test]
fn invalid_status_is_fatal_and_changes_nothing() {
    let mut tasks = Vec::new();
    exec(&mut tasks, &["add", "a"]);
    let o = exec(&mut tasks, &["status", "1", "Done"]);
    assert!(o.fatal);
    assert_eq!(o.stderr, strings(&["Invalid status. Use: todo, in-progress, done"]));
    assert_eq!(summary(&tasks), vec![(1, "a".to_string(), Status::Todo)]);
}

#[test]
fn usage_errors_change_nothing() {
    let mut tasks = Vec::new();
    exec(&mut tasks, &["add", "a"]);
    let cases: Vec<(Vec<&str>, &str)> = vec![
        (vec![], "Usage: add <desc> | update <id> <desc> | delete <id> | status <id> <status> | list [all|done|not-done|in-progress]"),
        (vec!["add"], "Usage: add <desc>"),
        (vec!["update", "1"], "Usage: update <id> <desc>"),
        (vec!["delete"], "Usage: delete <id>"),
        (vec!["status", "1"], "Usage: status <id> <status>"),
        (vec!["frobnicate"], "Unknown command"),
    ];
    for (ws, msg) in cases {
        let o = exec(&mut tasks, &ws);
        assert_eq!(o.stderr, strings(&[msg]));
        assert!(o.stdout.is_empty());
        assert!(!o.fatal);
        assert_eq!(summary(&tasks), vec![(1, "a".to_string(), Status::Todo)]);
    }
}

#[test]
fn unparseable_id_falls_back_to_zero() {
    let mut tasks = Vec::new();
    exec(&mut tasks, &["add", "a"]);
    let o = exec(&mut tasks, &["delete", "one"]);
    assert_eq!(o.stderr, strings(&["Task 0 not found"]));
    assert_eq!(tasks.len(), 1);
}

#[test]
fn parse_id_reads_decimal() {
    assert_eq!(parse_id("12"), 12);
    assert_eq!(parse_id("007"), 7);
    assert_eq!(parse_id("+3"), 3);
    assert_eq!(parse_id(""), 0);
    assert_eq!(parse_id("+"), 0);
    assert_eq!(parse_id("-1"), 0);
    assert_eq!(parse_id("1a"), 0);
    assert_eq!(parse_id(" 1"), 0);
    assert_eq!(parse_id(&usize::MAX.to_string()), usize::MAX);
    assert_eq!(parse_id(&format!("{}0", usize::MAX)), 0);
}

#[test]
fn join_from_puts_single_spaces() {
    let a = words(&["update", "3", "new", "words", "here"]);
    assert_eq!(join_from(&a, 2), "new words here");
    assert_eq!(join_from(&a, 4), "here");
}

#[test]
fn status_words() {
    assert_eq!(Status::from_str("todo"), Ok(Status::Todo));
    assert_eq!(Status::from_str("in-progress"), Ok(Status::InProgress));
    assert_eq!(Status::from_str("done"), Ok(Status::Done));
    assert_eq!(Status::from_str("DONE"), Err(InvalidStatus));
    assert_eq!(Status::from_str(""), Err(InvalidStatus));
    assert_eq!(Status::InProgress.name(), "InProgress");
}

#[test]
fn filter_words() {
    assert_eq!(Filter::from_str("done"), Filter::Done);
    assert_eq!(Filter::from_str("not-done"), Filter::NotDone);
    assert_eq!(Filter::from_str("in-progress"), Filter::InProgress);
    assert_eq!(Filter::from_str("all"), Filter::All);
    assert_eq!(Filter::from_str("todo"), Filter::All);
    assert!(Filter::NotDone.shows(Status::InProgress));
    assert!(!Filter::InProgress.shows(Status::Todo));
}

#[test]
fn task_line_writes_id_in_decimal() {
    let mut t = Task::new(42, "read".to_string());
    assert_eq!(task_line(&t), "[42] read - Todo");
    t.update_description("write".to_string());
    t.update_status(Status::Done);
    assert_eq!(task_line(&t), "[42] write - Done");
    assert_eq!(t.id, 42);
}

#[test]
fn store_functions_directly() {
    let mut tasks = Vec::new();
    assert_eq!(add_task(&mut tasks, "a".to_string()), 1);
    assert_eq!(add_task(&mut tasks, "b".to_string()), 2);
    assert_eq!(find_task(&tasks, 2), Some(1));
    assert_eq!(find_task(&tasks, 3), None);
    assert_eq!(update_task(&mut tasks, 1, "z".to_string()), Ok(()));
    assert_eq!(update_status(&mut tasks, 3, Status::Done), Err(NotFound { id: 3 }));
    assert_eq!(update_status(&mut tasks, 2, Status::Done), Ok(()));
    assert_eq!(list_tasks(&tasks, "done"), strings(&["[2] b - Done"]));
    assert_eq!(delete_task(&mut tasks, 1), Ok(()));
    assert_eq!(delete_task(&mut tasks, 1), Err(NotFound { id: 1 }));
    assert_eq!(summary(&tasks), vec![(2, "b".to_string(), Status::Done)]);
}

#[test]
fn strings_compare_by_characters() {
    assert!(str_eq("abc", "abc"));
    assert!(!str_eq("abc", "abd"));
    assert!(!str_eq("ab", "abc"));
    assert!(str_eq("", ""));
}
