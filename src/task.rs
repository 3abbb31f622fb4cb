//! Tasks and their three-state status cycle.
use vstd::prelude::*;

verus! {

/// Where a task stands; the states form a cycle `Done -> Ongoing -> Todo -> Done`.
#[derive(Clone, Copy, Debug, PartialEq, Eq, Structural)]
pub enum TaskStatus {
    Done,
    Ongoing,
    Todo,
}

/// The status that follows `s` in the cycle.
pub open spec fn next_status(s: TaskStatus) -> TaskStatus {
    match s {
        TaskStatus::Done => TaskStatus::Ongoing,
        TaskStatus::Ongoing => TaskStatus::Todo,
        TaskStatus::Todo => TaskStatus::Done,
    }
}

/// The status that precedes `s` in the cycle.
pub open spec fn previous_status(s: TaskStatus) -> TaskStatus {
    match s {
        TaskStatus::Done => TaskStatus::Todo,
        TaskStatus::Ongoing => TaskStatus::Done,
        TaskStatus::Todo => TaskStatus::Ongoing,
    }
}

/// The name under which a status is shown and stored.
pub open spec fn status_name(s: TaskStatus) -> Seq<char> {
    match s {
        TaskStatus::Done => "Done"@,
        TaskStatus::Ongoing => "Ongoing"@,
        TaskStatus::Todo => "Todo"@,
    }
}

/// The symbol shown in front of a task's title.
pub open spec fn status_symbol(s: TaskStatus) -> Seq<char> {
    match s {
        TaskStatus::Done => "✅"@,
        TaskStatus::Ongoing => "⏳"@,
        TaskStatus::Todo => "❌"@,
    }
}

impl TaskStatus {
    pub fn next(&self) -> (r: TaskStatus)
        ensures
            r == next_status(*self),
    {
        match self {
            TaskStatus::Done => TaskStatus::Ongoing,
            TaskStatus::Ongoing => TaskStatus::Todo,
            TaskStatus::Todo => TaskStatus::Done,
        }
    }

    pub fn previous(&self) -> (r: TaskStatus)
        ensures
            r == previous_status(*self),
    {
        match self {
            TaskStatus::Done => TaskStatus::Todo,
            TaskStatus::Ongoing => TaskStatus::Done,
            TaskStatus::Todo => TaskStatus::Ongoing,
        }
    }

    pub fn emoji(&self) -> (r: String)
        ensures
            r@ == status_symbol(*self),
    {
        match self {
            TaskStatus::Done => String::from_str("✅"),
            TaskStatus::Ongoing => String::from_str("⏳"),
            TaskStatus::Todo => String::from_str("❌"),
        }
    }

    /// The status's name, `"Done"`, `"Ongoing"` or `"Todo"`.
    pub fn name(&self) -> (r: String)
        ensures
            r@ == status_name(*self),
    {
        match self {
            TaskStatus::Done => String::from_str("Done"),
            TaskStatus::Ongoing => String::from_str("Ongoing"),
            TaskStatus::Todo => String::from_str("Todo"),
        }
    }
}

/// Stepping forward three times returns to the start, and stepping back
/// undoes a step forward, for every status.
pub proof fn lemma_status_cycle(s: TaskStatus)
    ensures
        next_status(next_status(next_status(s))) == s,
        previous_status(next_status(s)) == s,
        next_status(previous_status(s)) == s,
{
}

/// A task: an identifier that never changes, a free-text title and a status.
/// The identifier holds the 128 bits of a version 4 UUID.
#[derive(Clone, Debug)]
pub struct Task {
    pub uuid: u128,
    pub title: String,
    pub status: TaskStatus,
}

impl Task {
    /// A field-by-field copy of the task.
    pub fn duplicate(&self) -> (r: Task)
        ensures
            r == *self,
    {
        Task { uuid: self.uuid, title: self.title.clone(), status: self.status }
    }

    /// The line under which the task is listed: its status symbol, a space, its title.
    pub fn list_line(&self) -> (r: String)
        ensures
            r@ == status_symbol(self.status) + " "@ + self.title@,
    {
        let line = self.status.emoji();
        let line = line.concat(" ");
        line.concat(self.title.as_str())
    }
}

} // verus!
