//! The one entity of the service: a task.

use vstd::prelude::*;

verus! {

/// A task as contracts speak of it.
pub struct TaskView {
    pub id: Option<Seq<char>>,
    pub description: Seq<char>,
    pub is_complete: bool,
}

/// A record with a description and a completion flag. The store assigns the
/// identifier when the task is inserted; until then there is none.
#[derive(Debug, PartialEq, Eq)]
pub struct Task {
    pub id: Option<String>,
    pub description: String,
    pub is_complete: bool,
}

impl View for Task {
    type V = TaskView;

    open spec fn view(&self) -> TaskView {
        TaskView {
            id: match self.id {
                Some(id) => Some(id@),
                None => None,
            },
            description: self.description@,
            is_complete: self.is_complete,
        }
    }
}

impl TaskView {
    /// The same task with no identifier.
    pub open spec fn without_id(self) -> TaskView {
        TaskView { id: None, description: self.description, is_complete: self.is_complete }
    }
}

/// The views of a sequence of tasks, in the same order.
pub open spec fn task_views(tasks: Seq<Task>) -> Seq<TaskView> {
    tasks.map_values(|t: Task| t@)
}

impl Task {
    /// A task that has not been stored yet.
    pub fn new(description: String, is_complete: bool) -> (task: Task)
        ensures
            task@ == (TaskView { id: None, description: description@, is_complete }),
    {
        Task { id: None, description, is_complete }
    }

    /// The task that goes to the store in place of `self`: whatever
    /// identifier the caller supplied is dropped, the rest is kept.
    pub fn without_id(self) -> (task: Task)
        ensures
            task@ == self@.without_id(),
    {
        Task { id: None, description: self.description, is_complete: self.is_complete }
    }

    /// Whether the store has given the task an identifier.
    pub fn is_stored(&self) -> (stored: bool)
        ensures
            stored == self@.id.is_some(),
    {
        self.id.is_some()
    }
}

impl Clone for Task {
    fn clone(&self) -> (copy: Task)
        ensures
            copy@ == self@,
    {
        Task {
            id: match &self.id {
                Some(id) => Some(id.clone()),
                None => None,
            },
            description: self.description.clone(),
            is_complete: self.is_complete,
        }
    }
}

} // verus!
