//! The task store: an ordered sequence of tasks, the operations that change
//! it and the listing that shows it.

use crate::decimal::{decimal, to_decimal};
use crate::task::{Task, TaskView};
use std::collections::VecDeque;
use vstd::prelude::*;

verus! {

/// Why no store could be read from its persisted form.
#[derive(Debug, Clone, Copy, PartialEq, Eq)]
pub enum LoadError {
    /// There is no persisted file.
    Missing,
    /// The file is there but could not be read.
    Unreadable,
    /// The content does not have the shape of a store.
    Malformed,
}

/// The tasks in the order in which they were added, less those removed.
#[derive(Debug, PartialEq, Eq)]
pub struct TodoList {
    pub tasks: VecDeque<Task>,
}

impl Clone for TodoList {
    fn clone(&self) -> (copy: TodoList)
        ensures
            copy@ == self@,
    {
        let mut tasks: VecDeque<Task> = VecDeque::new();
        let n = self.tasks.len();
        let mut i: usize = 0;
        while i < n
            invariant
                n == self.tasks@.len(),
                0 <= i <= n,
                tasks@.len() == i,
                forall|j: int| 0 <= j < i ==> (#[trigger] tasks@[j])@ == self.tasks@[j]@,
            decreases n - i,
        {
            tasks.push_back(self.tasks[i].clone());
            i = i + 1;
        }
        let copy = TodoList { tasks };
        assert(copy@ =~= self@);
        copy
    }
}

impl View for TodoList {
    type V = Seq<TaskView>;

    open spec fn view(&self) -> Seq<TaskView> {
        self.tasks@.map_values(|t: Task| t@)
    }
}

/// Whether `i` is the position of the first task of `s` whose identifier is `id`.
pub open spec fn is_first_match(s: Seq<TaskView>, id: nat, i: int) -> bool {
    &&& 0 <= i < s.len()
    &&& s[i].id == id
    &&& forall|j: int| 0 <= j < i ==> (#[trigger] s[j]).id != id
}

/// The position of the first task of `s` whose identifier is `id`, if there
/// is one. Identifiers may repeat; a lookup always settles on the first.
pub open spec fn first_with_id(s: Seq<TaskView>, id: nat) -> Option<int> {
    if exists|i: int| is_first_match(s, id, i) {
        Some(choose|i: int| is_first_match(s, id, i))
    } else {
        None
    }
}

/// The store after a task with the given title was added: the new task comes
/// last, is pending, and is numbered one past the number of tasks before it.
pub open spec fn appended(s: Seq<TaskView>, title: Seq<char>) -> Seq<TaskView> {
    s.push(TaskView { id: s.len() + 1, title, done: false })
}

/// The store after the first task numbered `id` was marked as done; the store
/// itself where no task has that number.
pub open spec fn marked_done(s: Seq<TaskView>, id: nat) -> Seq<TaskView> {
    match first_with_id(s, id) {
        Some(i) => s.update(i, TaskView { done: true, ..s[i] }),
        None => s,
    }
}

/// The store after the first task numbered `id` was taken out; the store
/// itself where no task has that number.
pub open spec fn removed(s: Seq<TaskView>, id: nat) -> Seq<TaskView> {
    match first_with_id(s, id) {
        Some(i) => s.remove(i),
        None => s,
    }
}

/// The label that a listing shows for a task's completion flag.
pub open spec fn status_label(done: bool) -> Seq<char> {
    if done {
        "✔️ Done"@
    } else {
        "❌ Pending"@
    }
}

/// The line that a listing shows for one task: its number in decimal, its
/// status in square brackets, its title.
pub open spec fn task_line(task: TaskView) -> Seq<char> {
    decimal(task.id) + ". ["@ + status_label(task.done) + "] "@ + task.title
}

/// What a listing of the store shows, line by line: a notice where the store
/// is empty, else a heading and one line for each task, in store order.
pub open spec fn listing(s: Seq<TaskView>) -> Seq<Seq<char>> {
    if s.len() == 0 {
        seq!["📭 No tasks found!"@]
    } else {
        seq!["📌 To-Do List:"@] + s.map_values(|task: TaskView| task_line(task))
    }
}

/// There is at most one first match.
pub proof fn lemma_first_match_unique(s: Seq<TaskView>, id: nat, i: int, j: int)
    requires
        is_first_match(s, id, i),
        is_first_match(s, id, j),
    ensures
        i == j,
{
}

/// A first match is what the lookup finds.
pub proof fn lemma_first_with_id_found(s: Seq<TaskView>, id: nat, i: int)
    requires
        is_first_match(s, id, i),
    ensures
        first_with_id(s, id) == Some(i),
{
    let j = choose|j: int| is_first_match(s, id, j);
    lemma_first_match_unique(s, id, i, j);
}

/// The lookup finds nothing exactly when no task has the identifier.
pub proof fn lemma_first_with_id_none(s: Seq<TaskView>, id: nat)
    ensures
        first_with_id(s, id) is None <==> forall|j: int| 0 <= j < s.len() ==> (#[trigger] s[j]).id != id,
{
    if exists|k: int| 0 <= k < s.len() && (#[trigger] s[k]).id == id {
        let k = choose|k: int| 0 <= k < s.len() && (#[trigger] s[k]).id == id;
        lemma_least_match(s, id, k);
    }
}

/// Below any match there is a first one.
proof fn lemma_least_match(s: Seq<TaskView>, id: nat, k: int)
    requires
        0 <= k < s.len(),
        s[k].id == id,
    ensures
        exists|i: int| is_first_match(s, id, i),
    decreases k,
{
    if exists|j: int| 0 <= j < k && (#[trigger] s[j]).id == id {
        let j = choose|j: int| 0 <= j < k && (#[trigger] s[j]).id == id;
        lemma_least_match(s, id, j);
    } else {
        assert(is_first_match(s, id, k));
    }
}

/// Adding a task to a store of N tasks gives a store of N + 1 tasks: the N
/// tasks as they were and in their order, then the new one, which is pending,
/// is numbered N + 1 and has the given title.
pub proof fn lemma_add_appends(s: Seq<TaskView>, title: Seq<char>)
    ensures
        appended(s, title).len() == s.len() + 1,
        appended(s, title).drop_last() == s,
        appended(s, title).last() == (TaskView { id: s.len() + 1, title, done: false }),
{
    assert(appended(s, title).drop_last() =~= s);
}

/// Marking as done changes nothing where no task has the identifier. Where
/// one has, the first such task ends up done, with its number and title as
/// they were, and every other task stays as it is, where it is.
pub proof fn lemma_mark_done_effect(s: Seq<TaskView>, id: nat)
    ensures
        first_with_id(s, id) is None ==> marked_done(s, id) == s,
        first_with_id(s, id) matches Some(i) ==> {
            &&& is_first_match(s, id, i)
            &&& marked_done(s, id).len() == s.len()
            &&& marked_done(s, id)[i].done
            &&& marked_done(s, id)[i].id == s[i].id
            &&& marked_done(s, id)[i].title == s[i].title
            &&& forall|j: int| 0 <= j < s.len() && j != i ==> marked_done(s, id)[j] == s[j]
        },
{
}

/// Marking the same identifier as done a second time changes nothing more.
pub proof fn lemma_mark_done_twice(s: Seq<TaskView>, id: nat)
    ensures
        marked_done(marked_done(s, id), id) == marked_done(s, id),
{
    let once = marked_done(s, id);
    match first_with_id(s, id) {
        Some(i) => {
            assert(is_first_match(once, id, i)) by {
                assert forall|j: int| 0 <= j < i implies (#[trigger] once[j]).id != id by {
                    assert(once[j] == s[j]);
                }
            }
            lemma_first_with_id_found(once, id, i);
            assert(marked_done(once, id) =~= once);
        },
        None => {},
    }
}

/// Removing changes nothing where no task has the identifier. Where one has,
/// exactly the first such task leaves: the store is one task shorter, the
/// tasks before it stay where they are, and those after it move up by one,
/// in their order.
pub proof fn lemma_remove_effect(s: Seq<TaskView>, id: nat)
    ensures
        first_with_id(s, id) is None ==> removed(s, id) == s,
        first_with_id(s, id) matches Some(i) ==> {
            &&& is_first_match(s, id, i)
            &&& removed(s, id).len() == s.len() - 1
            &&& forall|j: int| 0 <= j < i ==> removed(s, id)[j] == s[j]
            &&& forall|j: int| i <= j < s.len() - 1 ==> removed(s, id)[j] == s[j + 1]
        },
{
}

/// Writes the line that a listing shows for `task`.
pub fn render_task(task: &Task) -> (line: String)
    ensures
        line@ == task_line(task@),
{
    let mut line = to_decimal(task.id);
    line.append(". [");
    line.append(
        if task.done {
            "✔️ Done"
        } else {
            "❌ Pending"
        },
    );
    line.append("] ");
    line.append(task.title.as_str());
    line
}

impl TodoList {
    /// A store with no task in it.
    pub fn new() -> (list: TodoList)
        ensures
            list@ == Seq::<TaskView>::empty(),
    {
        let list = TodoList { tasks: VecDeque::new() };
        assert(list@ =~= Seq::<TaskView>::empty());
        list
    }

    /// The store to start from: the one that was read, or an empty one where
    /// none could be read, whatever the reason.
    pub fn load(source: Result<TodoList, LoadError>) -> (list: TodoList)
        ensures
            list@ == match source {
                Ok(stored) => stored@,
                Err(_) => Seq::<TaskView>::empty(),
            },
    {
        match source {
            Ok(stored) => stored,
            Err(_) => TodoList::new(),
        }
    }

    /// The number of tasks.
    pub fn len(&self) -> (n: usize)
        ensures
            n == self@.len(),
    {
        self.tasks.len()
    }

    /// The position of the first task numbered `task_id`.
    pub fn position(&self, task_id: usize) -> (found: Option<usize>)
        ensures
            first_with_id(self@, task_id as nat) == match found {
                Some(i) => Some(i as int),
                None => None::<int>,
            },
    {
        let n = self.tasks.len();
        let mut i: usize = 0;
        while i < n
            invariant
                n == self.tasks@.len(),
                0 <= i <= n,
                forall|j: int| 0 <= j < i ==> (#[trigger] self@[j]).id != task_id as nat,
            decreases n - i,
        {
            if self.tasks[i].id == task_id {
                proof {
                    assert(self@[i as int] == self.tasks@[i as int]@);
                    lemma_first_with_id_found(self@, task_id as nat, i as int);
                }
                return Some(i);
            }
            assert(self@[i as int] == self.tasks@[i as int]@);
            i = i + 1;
        }
        proof {
            lemma_first_with_id_none(self@, task_id as nat);
        }
        None
    }

    /// The lines that show the store: see [`listing`]. The store is only read.
    pub fn list_tasks(&self) -> (lines: Vec<String>)
        ensures
            lines.deep_view() == listing(self@),
    {
        let mut lines: Vec<String> = Vec::new();
        let n = self.tasks.len();
        if n == 0 {
            lines.push("📭 No tasks found!".to_owned());
            assert(lines.deep_view() =~= listing(self@));
            return lines;
        }
        lines.push("📌 To-Do List:".to_owned());
        let mut i: usize = 0;
        while i < n
            invariant
                n == self.tasks@.len(),
                0 <= i <= n,
                lines@.len() == i + 1,
                lines@[0]@ == "📌 To-Do List:"@,
                forall|j: int| 0 <= j < i ==> (#[trigger] lines@[j + 1])@ == task_line(self@[j]),
            decreases n - i,
        {
            let line = render_task(&self.tasks[i]);
            lines.push(line);
            i = i + 1;
        }
        proof {
            let shown = lines.deep_view();
            let wanted = listing(self@);
            assert(shown.len() == wanted.len());
            assert forall|k: int| 0 <= k < shown.len() implies shown[k] == wanted[k] by {
                if k > 0 {
                    assert(lines@[(k - 1) + 1]@ == task_line(self@[k - 1]));
                }
            }
            assert(shown =~= wanted);
        }
        lines
    }

    /// Adds a pending task with the given title at the end, numbered one past
    /// the number of tasks so far.
    pub fn add_task(&mut self, title: String)
        requires
            old(self)@.len() < usize::MAX,
        ensures
            final(self)@ == appended(old(self)@, title@),
    {
        let id = self.tasks.len() + 1;
        self.tasks.push_back(Task { id, title, done: false });
        assert(self@ =~= appended(old(self)@, title@));
    }

    /// Marks the first task numbered `task_id` as done and says whether there
    /// was one. Without one the store stays as it is.
    pub fn mark_done(&mut self, task_id: usize) -> (found: bool)
        ensures
            found == first_with_id(old(self)@, task_id as nat).is_some(),
            final(self)@ == marked_done(old(self)@, task_id as nat),
    {
        match self.position(task_id) {
            Some(pos) => {
                if let Some(mut task) = self.tasks.remove(pos) {
                    task.done = true;
                    self.tasks.insert(pos, task);
                }
                assert(self@ =~= marked_done(old(self)@, task_id as nat));
                true
            },
            None => false,
        }
    }

    /// Takes the first task numbered `task_id` out of the store and says
    /// whether there was one. The tasks that stay keep their order.
    pub fn remove_task(&mut self, task_id: usize) -> (found: bool)
        ensures
            found == first_with_id(old(self)@, task_id as nat).is_some(),
            final(self)@ == removed(old(self)@, task_id as nat),
    {
        match self.position(task_id) {
            Some(pos) => {
                self.tasks.remove(pos);
                assert(self@ =~= removed(old(self)@, task_id as nat));
                true
            },
            None => false,
        }
    }
}

} // verus!
