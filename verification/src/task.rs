//! A single task and its mathematical model.

use vstd::prelude::*;

verus! {

/// What a task is, with its title as a sequence of characters.
pub struct TaskView {
    pub id: nat,
    pub title: Seq<char>,
    pub done: bool,
}

/// A to-do item: an identifier, a title and a completion flag.
#[derive(Debug, PartialEq, Eq)]
pub struct Task {
    pub id: usize,
    pub title: String,
    pub done: bool,
}

impl View for Task {
    type V = TaskView;

    open spec fn view(&self) -> TaskView {
        TaskView { id: self.id as nat, title: self.title@, done: self.done }
    }
}

impl Clone for Task {
    fn clone(&self) -> (copy: Task)
        ensures
            copy@ == self@,
    {
        Task { id: self.id, title: self.title.clone(), done: self.done }
    }
}

} // verus!
