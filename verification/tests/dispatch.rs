use std::collections::VecDeque;
use todo_list::command::Command;
use todo_list::dispatch::{execute, run, Notice, Outcome};
use todo_list::store::TodoList;
use todo_list::task::Task;

fn argv(words: &[&str]) -> Vec<String> {
    words.iter().map(|word| word.to_string()).collect()
}

fn item(id: usize, title: &str, done: bool) -> Task {
    Task { id, title: title.to_string(), done }
}

fn holding(tasks: Vec<Task>) -> TodoList {
    TodoList { tasks: VecDeque::from(tasks) }
}

fn outcome(notice: Notice, persist: bool, lines: &[&str]) -> Outcome {
    Outcome { notice, persist, lines: lines.iter().map(|line| line.to_string()).collect() }
}

const USAGE: [&str; 5] = [
    "❌ Invalid usage. Available commands:",
    "  add \"Task Description\"   - Add a new task",
    "  list                     - List all tasks",
    "  done <task_id>           - Mark a task as done",
    "  remove <task_id>         - Remove a task",
];

#[test]
fn add_on_a_fresh_store_then_list() {
    let mut store = TodoList::load(Err(todo_list::store::LoadError::Missing));
    let added = run(&mut store, &argv(&["todo", "add", "Buy milk"]));
    assert_eq!(added, outcome(Notice::Added, true, &["✅ Task added successfully!"]));
    assert_eq!(store, holding(vec![item(1, "Buy milk", false)]));
    let listed = run(&mut store, &argv(&["todo", "list"]));
    assert_eq!(
        listed,
        outcome(Notice::Listed, false, &["📌 To-Do List:", "1. [❌ Pending] Buy milk"])
    );
    assert_eq!(store, holding(vec![item(1, "Buy milk", false)]));
}

#[test]
fn done_marks_the_task_and_the_listing_shows_it() {
    let mut store = holding(vec![item(1, "Buy milk", false)]);
    let marked = run(&mut store, &argv(&["todo", "done", "1"]));
    assert_eq!(marked, outcome(Notice::MarkedDone, true, &["✅ Task marked as done!"]));
    assert_eq!(store, holding(vec![item(1, "Buy milk", true)]));
    let listed = run(&mut store, &argv(&["todo", "list"]));
    assert_eq!(listed, outcome(Notice::Listed, false, &["📌 To-Do List:", "1. [✔️ Done] Buy milk"]));
}

#[test]
fn remove_empties_the_store_and_the_listing_says_so() {
    let mut store = holding(vec![item(1, "Buy milk", true)]);
    let removed = run(&mut store, &argv(&["todo", "remove", "1"]));
    assert_eq!(removed, outcome(Notice::Removed, true, &["🗑️ Task removed successfully!"]));
    assert_eq!(store, TodoList::new());
    let listed = run(&mut store, &argv(&["todo", "list"]));
    assert_eq!(listed, outcome(Notice::Listed, false, &["📭 No tasks found!"]));
    assert_eq!(store, TodoList::new());
}

#[test]
fn done_on_an_empty_store_finds_nothing() {
    let mut store = TodoList::new();
    let missed = run(&mut store, &argv(&["todo", "done", "99"]));
    assert_eq!(missed, outcome(Notice::NotFound, false, &["⚠️ Task not found!"]));
    assert_eq!(store, TodoList::new());
}

#[test]
fn done_with_a_word_for_an_identifier_is_refused() {
    let mut store = holding(vec![item(1, "Buy milk", false)]);
    let refused = run(&mut store, &argv(&["todo", "done", "abc"]));
    assert_eq!(refused, outcome(Notice::InvalidId, false, &["⚠️ Invalid task ID"]));
    assert_eq!(store, holding(vec![item(1, "Buy milk", false)]));
    let mut empty = TodoList::new();
    let again = run(&mut empty, &argv(&["todo", "done", "abc"]));
    assert_eq!(again, outcome(Notice::InvalidId, false, &["⚠️ Invalid task ID"]));
    assert_eq!(empty, TodoList::new());
}

#[test]
fn a_whole_session_on_one_store() {
    let mut store = TodoList::new();
    assert_eq!(run(&mut store, &argv(&["todo", "add", "Buy", "milk"])).notice, Notice::Added);
    assert_eq!(run(&mut store, &argv(&["todo", "done", "1"])).notice, Notice::MarkedDone);
    assert_eq!(run(&mut store, &argv(&["todo", "remove", "1"])).notice, Notice::Removed);
    assert_eq!(store, TodoList::new());
    assert_eq!(run(&mut store, &argv(&["todo", "done", "99"])).notice, Notice::NotFound);
    assert_eq!(run(&mut store, &argv(&["todo", "done", "abc"])).notice, Notice::InvalidId);
    assert_eq!(store, TodoList::new());
}

#[test]
fn run_without_a_verb_shows_the_usage_text() {
    let mut store = holding(vec![item(1, "a", false)]);
    let shown = run(&mut store, &argv(&["todo"]));
    assert_eq!(shown, outcome(Notice::Help, false, &USAGE));
    assert_eq!(store, holding(vec![item(1, "a", false)]));
}

#[test]
fn run_of_an_unknown_command_says_so() {
    let mut store = holding(vec![item(1, "a", false)]);
    let text = "❌ Unknown command. Use 'list', 'add', 'done <id>', or 'remove <id>'";
    assert_eq!(
        run(&mut store, &argv(&["todo", "frobnicate"])),
        outcome(Notice::UnknownCommand, false, &[text])
    );
    assert_eq!(run(&mut store, &argv(&["todo", "add"])), outcome(Notice::UnknownCommand, false, &[text]));
    assert_eq!(
        run(&mut store, &argv(&["todo", "done", "1", "2"])),
        outcome(Notice::UnknownCommand, false, &[text])
    );
    assert_eq!(run(&mut store, &argv(&["todo", "remove"])), outcome(Notice::UnknownCommand, false, &[text]));
    assert_eq!(store, holding(vec![item(1, "a", false)]));
}

#[test]
fn run_remove_without_a_match_changes_nothing() {
    let mut store = holding(vec![item(1, "a", false), item(2, "b", true)]);
    let missed = run(&mut store, &argv(&["todo", "remove", "3"]));
    assert_eq!(missed, outcome(Notice::NotFound, false, &["⚠️ Task not found!"]));
    assert_eq!(store, holding(vec![item(1, "a", false), item(2, "b", true)]));
}

#[test]
fn run_remove_with_a_bad_identifier_is_refused() {
    let mut store = holding(vec![item(1, "a", false)]);
    let refused = run(&mut store, &argv(&["todo", "remove", "one"]));
    assert_eq!(refused, outcome(Notice::InvalidId, false, &["⚠️ Invalid task ID"]));
    assert_eq!(store, holding(vec![item(1, "a", false)]));
}

#[test]
fn run_list_twice_shows_the_same_and_asks_for_no_write() {
    let mut store = holding(vec![item(1, "a", false), item(2, "b", true)]);
    let first = run(&mut store, &argv(&["todo", "list"]));
    let second = run(&mut store, &argv(&["todo", "list"]));
    assert_eq!(first, second);
    assert!(!first.persist);
    assert_eq!(first.lines, vec!["📌 To-Do List:", "1. [❌ Pending] a", "2. [✔️ Done] b"]);
    assert_eq!(store, holding(vec![item(1, "a", false), item(2, "b", true)]));
}

#[test]
fn run_is_parse_followed_by_execute() {
    let lists = [
        argv(&["todo"]),
        argv(&["todo", "add", "x", "y"]),
        argv(&["todo", "list"]),
        argv(&["todo", "done", "2"]),
        argv(&["todo", "done", "7"]),
        argv(&["todo", "remove", "1"]),
        argv(&["todo", "remove", "x"]),
        argv(&["todo", "what"]),
    ];
    for list in lists.iter() {
        let mut left = holding(vec![item(1, "a", false), item(2, "b", false)]);
        let mut right = left.clone();
        let ran = run(&mut left, list);
        let executed = execute(&mut right, Command::parse(list));
        assert_eq!(ran, executed);
        assert_eq!(left, right);
    }
}

#[test]
fn execute_carries_each_command_out() {
    let mut store = TodoList::new();
    assert_eq!(
        execute(&mut store, Command::Add("a".to_string())),
        outcome(Notice::Added, true, &["✅ Task added successfully!"])
    );
    assert_eq!(
        execute(&mut store, Command::Add(String::new())),
        outcome(Notice::Added, true, &["✅ Task added successfully!"])
    );
    assert_eq!(store, holding(vec![item(1, "a", false), item(2, "", false)]));
    assert_eq!(
        execute(&mut store, Command::Done(2)),
        outcome(Notice::MarkedDone, true, &["✅ Task marked as done!"])
    );
    assert_eq!(
        execute(&mut store, Command::List),
        outcome(Notice::Listed, false, &["📌 To-Do List:", "1. [❌ Pending] a", "2. [✔️ Done] "])
    );
    assert_eq!(
        execute(&mut store, Command::Remove(1)),
        outcome(Notice::Removed, true, &["🗑️ Task removed successfully!"])
    );
    assert_eq!(store, holding(vec![item(2, "", true)]));
    assert_eq!(execute(&mut store, Command::Remove(1)), outcome(Notice::NotFound, false, &["⚠️ Task not found!"]));
    assert_eq!(execute(&mut store, Command::Done(1)), outcome(Notice::NotFound, false, &["⚠️ Task not found!"]));
    assert_eq!(execute(&mut store, Command::InvalidId), outcome(Notice::InvalidId, false, &["⚠️ Invalid task ID"]));
    assert_eq!(execute(&mut store, Command::Help), outcome(Notice::Help, false, &USAGE));
    assert_eq!(store, holding(vec![item(2, "", true)]));
}

#[test]
fn marking_a_done_task_again_still_asks_for_a_write() {
    let mut store = holding(vec![item(1, "a", true)]);
    let marked = execute(&mut store, Command::Done(1));
    assert_eq!(marked, outcome(Notice::MarkedDone, true, &["✅ Task marked as done!"]));
    assert_eq!(store, holding(vec![item(1, "a", true)]));
}

#[test]
fn persists_is_true_for_the_three_changes_only() {
    assert!(Notice::Added.persists());
    assert!(Notice::MarkedDone.persists());
    assert!(Notice::Removed.persists());
    assert!(!Notice::Help.persists());
    assert!(!Notice::Listed.persists());
    assert!(!Notice::NotFound.persists());
    assert!(!Notice::InvalidId.persists());
    assert!(!Notice::UnknownCommand.persists());
}

#[test]
fn lines_of_a_notice_are_its_text() {
    let store = holding(vec![item(3, "c", false)]);
    assert_eq!(Notice::Help.lines(&store), USAGE.to_vec());
    assert_eq!(Notice::Added.lines(&store), vec!["✅ Task added successfully!"]);
    assert_eq!(Notice::Listed.lines(&store), vec!["📌 To-Do List:", "3. [❌ Pending] c"]);
    assert_eq!(Notice::Listed.lines(&TodoList::new()), vec!["📭 No tasks found!"]);
    assert_eq!(Notice::MarkedDone.lines(&store), vec!["✅ Task marked as done!"]);
    assert_eq!(Notice::Removed.lines(&store), vec!["🗑️ Task removed successfully!"]);
    assert_eq!(Notice::NotFound.lines(&store), vec!["⚠️ Task not found!"]);
    assert_eq!(Notice::InvalidId.lines(&store), vec!["⚠️ Invalid task ID"]);
    assert_eq!(
        Notice::UnknownCommand.lines(&store),
        vec!["❌ Unknown command. Use 'list', 'add', 'done <id>', or 'remove <id>'"]
    );
}
