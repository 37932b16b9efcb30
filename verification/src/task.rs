//! The task record and its mathematical view.

use vstd::prelude::*;

verus! {

/// What a task is, mathematically: an identifier and a text.
pub struct TaskView {
    pub id: int,
    pub item: Seq<char>,
}

/// One row of the `tasks` table.
#[derive(Debug, PartialEq, Eq)]
pub struct Task {
    /// Assigned by the store when the row is created; never changes afterwards.
    pub id: i32,
    /// The text that describes the task.
    pub item: String,
}

impl View for Task {
    type V = TaskView;

    open spec fn view(&self) -> TaskView {
        TaskView { id: self.id as int, item: self.item@ }
    }
}

impl Clone for Task {
    fn clone(&self) -> (copy: Task)
        ensures
            copy == *self,
    {
        Task { id: self.id, item: self.item.clone() }
    }
}

impl Task {
    /// A task with the given identifier and text.
    pub fn new(id: i32, item: String) -> (task: Task)
        ensures
            task.id == id,
            task.item == item,
    {
        Task { id, item }
    }
}

/// The views of a sequence of tasks, in the same order.
pub open spec fn views(tasks: Seq<Task>) -> Seq<TaskView> {
    tasks.map_values(|t: Task| t@)
}

/// Copies a list of tasks.
pub fn clone_tasks(tasks: &Vec<Task>) -> (copy: Vec<Task>)
    ensures
        copy@ == tasks@,
{
    let mut copy: Vec<Task> = Vec::new();
    let mut i: usize = 0;
    while i < tasks.len()
        invariant
            i <= tasks.len(),
            copy@ == tasks@.take(i as int),
        decreases tasks.len() - i,
    {
        copy.push(tasks[i].clone());
        i += 1;
    }
    copy
}

} // verus!
