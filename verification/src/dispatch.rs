//! Carrying one command out on a store: what becomes of the store, what the
//! user is told, and whether the store has to be written back.

use crate::command::{command_of, Command, CommandView};
use crate::store::{appended, first_with_id, listing, marked_done, removed, TodoList};
use crate::task::TaskView;
use vstd::prelude::*;

verus! {

/// What an invocation ended in.
#[derive(Debug, Clone, Copy, PartialEq, Eq)]
pub enum Notice {
    /// No verb was given; the usage text is shown.
    Help,
    /// A task was added.
    Added,
    /// The tasks were shown.
    Listed,
    /// A task was marked as done.
    MarkedDone,
    /// A task was removed.
    Removed,
    /// No task has the identifier that was given.
    NotFound,
    /// The argument that should name a task is no identifier.
    InvalidId,
    /// The arguments select no command.
    UnknownCommand,
}

/// What an outcome is, with its lines as sequences of characters.
pub struct OutcomeView {
    pub notice: Notice,
    pub persist: bool,
    pub lines: Seq<Seq<char>>,
}

/// The result of one command: what happened, whether the store changed and so
/// has to be written back in full, and the lines to show to the user.
#[derive(Debug, PartialEq, Eq)]
pub struct Outcome {
    pub notice: Notice,
    pub persist: bool,
    pub lines: Vec<String>,
}

impl View for Outcome {
    type V = OutcomeView;

    open spec fn view(&self) -> OutcomeView {
        OutcomeView { notice: self.notice, persist: self.persist, lines: self.lines.deep_view() }
    }
}

/// The text that explains how the program is used.
pub open spec fn usage_text() -> Seq<Seq<char>> {
    seq![
        "❌ Invalid usage. Available commands:"@,
        "  add \"Task Description\"   - Add a new task"@,
        "  list                     - List all tasks"@,
        "  done <task_id>           - Mark a task as done"@,
        "  remove <task_id>         - Remove a task"@,
    ]
}

/// The lines that go with a notice; `s` is the store that a listing shows.
pub open spec fn notice_lines(notice: Notice, s: Seq<TaskView>) -> Seq<Seq<char>> {
    match notice {
        Notice::Help => usage_text(),
        Notice::Added => seq!["✅ Task added successfully!"@],
        Notice::Listed => listing(s),
        Notice::MarkedDone => seq!["✅ Task marked as done!"@],
        Notice::Removed => seq!["🗑️ Task removed successfully!"@],
        Notice::NotFound => seq!["⚠️ Task not found!"@],
        Notice::InvalidId => seq!["⚠️ Invalid task ID"@],
        Notice::UnknownCommand => seq![
            "❌ Unknown command. Use 'list', 'add', 'done <id>', or 'remove <id>'"@,
        ],
    }
}

/// Whether a notice reports a change of the store, which is then written back.
pub open spec fn reports_change(notice: Notice) -> bool {
    notice is Added || notice is MarkedDone || notice is Removed
}

/// How a command on the store `s` ends.
pub open spec fn notice_for(s: Seq<TaskView>, command: CommandView) -> Notice {
    match command {
        CommandView::Help => Notice::Help,
        CommandView::Add(_) => Notice::Added,
        CommandView::List => Notice::Listed,
        CommandView::Done(id) => if first_with_id(s, id) is Some {
            Notice::MarkedDone
        } else {
            Notice::NotFound
        },
        CommandView::Remove(id) => if first_with_id(s, id) is Some {
            Notice::Removed
        } else {
            Notice::NotFound
        },
        CommandView::InvalidId => Notice::InvalidId,
        CommandView::Unknown => Notice::UnknownCommand,
    }
}

/// The store that a command leaves behind.
pub open spec fn store_after(s: Seq<TaskView>, command: CommandView) -> Seq<TaskView> {
    match command {
        CommandView::Add(title) => appended(s, title),
        CommandView::Done(id) => marked_done(s, id),
        CommandView::Remove(id) => removed(s, id),
        _ => s,
    }
}

/// The outcome of a command on the store `s`.
pub open spec fn outcome_of(s: Seq<TaskView>, command: CommandView) -> OutcomeView {
    let notice = notice_for(s, command);
    OutcomeView { notice, persist: reports_change(notice), lines: notice_lines(notice, s) }
}

/// Listing is idempotent: it leaves the store as it is, asks for no write,
/// and a second listing right after the first shows the same lines.
pub proof fn lemma_list_is_idempotent(s: Seq<TaskView>)
    ensures
        store_after(s, CommandView::List) == s,
        !outcome_of(s, CommandView::List).persist,
        outcome_of(store_after(s, CommandView::List), CommandView::List) == outcome_of(
            s,
            CommandView::List,
        ),
{
}

/// A command that asks for no write has left the store as it was: a lookup
/// that misses, an argument that is no identifier, an unknown command, the
/// usage text and a listing all change nothing.
pub proof fn lemma_no_write_no_change(s: Seq<TaskView>, command: CommandView)
    requires
        !outcome_of(s, command).persist,
    ensures
        store_after(s, command) == s,
        command is Done || command is Remove ==> outcome_of(s, command).notice is NotFound,
{
}

/// A single line of text.
fn one_line(text: &str) -> (lines: Vec<String>)
    ensures
        lines.deep_view() == seq![text@],
{
    let mut lines: Vec<String> = Vec::new();
    lines.push(text.to_owned());
    assert(lines.deep_view() =~= seq![text@]);
    lines
}

/// The usage text, line by line.
fn usage_lines() -> (lines: Vec<String>)
    ensures
        lines.deep_view() == usage_text(),
{
    let mut lines: Vec<String> = Vec::new();
    lines.push("❌ Invalid usage. Available commands:".to_owned());
    lines.push("  add \"Task Description\"   - Add a new task".to_owned());
    lines.push("  list                     - List all tasks".to_owned());
    lines.push("  done <task_id>           - Mark a task as done".to_owned());
    lines.push("  remove <task_id>         - Remove a task".to_owned());
    assert(lines.deep_view() =~= usage_text());
    lines
}

impl Notice {
    /// Whether the store changed and has to be written back.
    pub fn persists(self) -> (persist: bool)
        ensures
            persist == reports_change(self),
    {
        match self {
            Notice::Added | Notice::MarkedDone | Notice::Removed => true,
            _ => false,
        }
    }

    /// The lines that tell the user of this notice; `store` is what a listing
    /// shows.
    pub fn lines(self, store: &TodoList) -> (lines: Vec<String>)
        ensures
            lines.deep_view() == notice_lines(self, store@),
    {
        match self {
            Notice::Help => usage_lines(),
            Notice::Added => one_line("✅ Task added successfully!"),
            Notice::Listed => store.list_tasks(),
            Notice::MarkedDone => one_line("✅ Task marked as done!"),
            Notice::Removed => one_line("🗑️ Task removed successfully!"),
            Notice::NotFound => one_line("⚠️ Task not found!"),
            Notice::InvalidId => one_line("⚠️ Invalid task ID"),
            Notice::UnknownCommand => one_line(
                "❌ Unknown command. Use 'list', 'add', 'done <id>', or 'remove <id>'",
            ),
        }
    }
}

/// Carries `command` out on `store`: see [`store_after`] and [`outcome_of`].
///
/// Adding needs room for one more task, so that the new task's number, one
/// past the number of tasks, is a machine word.
pub fn execute(store: &mut TodoList, command: Command) -> (outcome: Outcome)
    requires
        command@ is Add ==> old(store)@.len() < usize::MAX,
    ensures
        final(store)@ == store_after(old(store)@, command@),
        outcome@ == outcome_of(old(store)@, command@),
{
    let notice = match command {
        Command::Help => Notice::Help,
        Command::Add(title) => {
            store.add_task(title);
            Notice::Added
        },
        Command::List => Notice::Listed,
        Command::Done(id) => if store.mark_done(id) {
            Notice::MarkedDone
        } else {
            Notice::NotFound
        },
        Command::Remove(id) => if store.remove_task(id) {
            Notice::Removed
        } else {
            Notice::NotFound
        },
        Command::InvalidId => Notice::InvalidId,
        Command::Unknown => Notice::UnknownCommand,
    };
    let lines = notice.lines(store);
    Outcome { notice, persist: notice.persists(), lines }
}

/// One invocation of the program on an already loaded store: reads the command
/// that `args` select and carries it out.
pub fn run(store: &mut TodoList, args: &Vec<String>) -> (outcome: Outcome)
    requires
        command_of(args.deep_view()) is Add ==> old(store)@.len() < usize::MAX,
    ensures
        final(store)@ == store_after(old(store)@, command_of(args.deep_view())),
        outcome@ == outcome_of(old(store)@, command_of(args.deep_view())),
{
    let command = Command::parse(args);
    execute(store, command)
}

} // verus!
