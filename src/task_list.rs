//! The task-list popup: a selection over the task list.
use vstd::prelude::*;
use crate::app::{Action, PopupRequest};
use crate::keys::Key;
use crate::task::Task;

verus! {

/// A selection fits a list of `len` tasks: none exactly when the list is
/// empty, otherwise an index into the list.
pub open spec fn valid_selection(sel: Option<usize>, len: nat) -> bool {
    match sel {
        None => len == 0,
        Some(i) => i < len,
    }
}

/// `sel` brought into a list of `len` tasks: nothing when it is empty, else
/// the index, or the last one where the index is past the end, or the first
/// where nothing was selected.
pub open spec fn clamped(sel: Option<usize>, len: nat) -> Option<usize> {
    if len == 0 {
        None
    } else {
        match sel {
            None => Some(0),
            Some(i) => if i < len { Some(i) } else { Some((len - 1) as usize) },
        }
    }
}

/// The selection one row up, staying on the first row.
pub open spec fn selection_up(sel: Option<usize>) -> Option<usize> {
    match sel {
        None => None,
        Some(i) => if i > 0 { Some((i - 1) as usize) } else { Some(0) },
    }
}

/// The selection one row down, staying on the last of `len` rows.
pub open spec fn selection_down(sel: Option<usize>, len: nat) -> Option<usize> {
    match sel {
        None => None,
        Some(i) => if i + 1 < len { Some((i + 1) as usize) } else { Some(i) },
    }
}

/// The selection after `key`.
pub open spec fn selection_after_key(sel: Option<usize>, key: Key, len: nat) -> Option<usize> {
    match key {
        Key::Up => selection_up(sel),
        Key::Down => selection_down(sel, len),
        _ => sel,
    }
}

/// The intent that `key` produces over `tasks` with `sel` selected: `t` or
/// Escape closes the popup, `a` opens the form that adds a task, `d` deletes
/// the selected task.
pub open spec fn task_list_intent(sel: Option<usize>, key: Key, tasks: Seq<Task>) -> Option<Action> {
    match key {
        Key::Char('t') | Key::Esc => Some(Action::ClosePopup),
        Key::Char('a') => Some(
            Action::OpenPopup {
                popup: PopupRequest::AddTask {
                    opened_on: match sel {
                        Some(i) => i,
                        None => 0,
                    },
                },
            },
        ),
        Key::Char('d') => match sel {
            Some(i) => Some(Action::DeleteTask { uuid: tasks[i as int].uuid }),
            None => None,
        },
        _ => None,
    }
}

pub struct TaskListPopup {
    selected: Option<usize>,
}

impl View for TaskListPopup {
    type V = Option<usize>;

    closed spec fn view(&self) -> Option<usize> {
        self.selected
    }
}

fn clamp_selection(sel: Option<usize>, len: usize) -> (r: Option<usize>)
    ensures
        r == clamped(sel, len as nat),
{
    if len == 0 {
        None
    } else {
        match sel {
            None => Some(0),
            Some(i) => if i < len { Some(i) } else { Some(len - 1) },
        }
    }
}

impl TaskListPopup {
    /// A popup over a list of `task_count` tasks with the task at
    /// `selected_task_idx` selected, or the nearest one that exists.
    pub fn new(task_count: usize, selected_task_idx: usize) -> (r: Self)
        ensures
            r@ == clamped(Some(selected_task_idx), task_count as nat),
            valid_selection(r@, task_count as nat),
    {
        TaskListPopup { selected: clamp_selection(Some(selected_task_idx), task_count) }
    }

    pub fn selected(&self) -> (r: Option<usize>)
        ensures
            r == self@,
    {
        self.selected
    }

    /// Brings the selection into a list that now holds `task_count` tasks.
    pub fn fit_to(&mut self, task_count: usize)
        ensures
            final(self)@ == clamped(old(self)@, task_count as nat),
            valid_selection(final(self)@, task_count as nat),
    {
        self.selected = clamp_selection(self.selected, task_count);
    }

    pub fn handle_key(&mut self, key: Key, tasks: &Vec<Task>) -> (r: Option<Action>)
        requires
            valid_selection(old(self)@, tasks@.len()),
        ensures
            final(self)@ == selection_after_key(old(self)@, key, tasks@.len()),
            valid_selection(final(self)@, tasks@.len()),
            r == task_list_intent(old(self)@, key, tasks@),
    {
        match key {
            Key::Char('t') | Key::Esc => Some(Action::ClosePopup),
            Key::Char('a') => {
                let opened_on = match self.selected {
                    Some(i) => i,
                    None => 0,
                };
                Some(Action::OpenPopup { popup: PopupRequest::AddTask { opened_on } })
            },
            Key::Char('d') => match self.selected {
                Some(i) => Some(Action::DeleteTask { uuid: tasks[i].uuid }),
                None => None,
            },
            Key::Up => {
                if let Some(i) = self.selected {
                    self.selected = Some(i.saturating_sub(1));
                }
                None
            },
            Key::Down => {
                if let Some(i) = self.selected {
                    let last = tasks.len() - 1;
                    let below = i.saturating_add(1);
                    self.selected = Some(if below < last { below } else { last });
                }
                None
            },
            _ => None,
        }
    }
}

/// Moving down from the last row and up from the first change nothing,
/// moves keep a fitting selection fitting, and a selection brought into a
/// list is absent exactly when the list is empty.
pub proof fn lemma_selection_clamps(sel: Option<usize>, len: nat, any: Option<usize>)
    requires
        valid_selection(sel, len),
    ensures
        sel matches Some(i) && i + 1 == len ==> selection_down(sel, len) == sel,
        sel == Some(0usize) ==> selection_up(sel) == sel,
        valid_selection(selection_up(sel), len),
        valid_selection(selection_down(sel, len), len),
        clamped(any, len) is None <==> len == 0,
        len <= usize::MAX ==> valid_selection(clamped(any, len), len),
{
}

} // verus!
