//! The popup that composes a new task: a title field and a status field.
use vstd::prelude::*;
use crate::app::{Action, PopupRequest};
use crate::keys::Key;
use crate::task::{Task, TaskStatus, next_status, previous_status};

verus! {

/// Which field of the form takes the keys.
#[derive(Clone, Copy, Debug, PartialEq, Eq, Structural)]
pub enum SelectedField {
    Title,
    Status,
}

/// The form as plain values.
pub struct AddTaskModel {
    /// The task-list index to return to when the form is left.
    pub opened_on: usize,
    pub title: Seq<char>,
    pub status: TaskStatus,
    pub field: SelectedField,
}

impl AddTaskModel {
    /// The form after `key`, Enter and Escape aside: Tab, Left and Right
    /// switch fields; in the title field characters are typed and Backspace
    /// erases the last one; in the status field Up and Down step through
    /// the statuses.
    pub open spec fn after_key(self, key: Key) -> AddTaskModel {
        match key {
            Key::Tab | Key::Left | Key::Right => AddTaskModel {
                field: match self.field {
                    SelectedField::Title => SelectedField::Status,
                    SelectedField::Status => SelectedField::Title,
                },
                ..self
            },
            _ => match self.field {
                SelectedField::Title => match key {
                    Key::Backspace => AddTaskModel {
                        title: if self.title.len() > 0 { self.title.drop_last() } else { self.title },
                        ..self
                    },
                    Key::Char(c) => AddTaskModel { title: self.title.push(c), ..self },
                    _ => self,
                },
                SelectedField::Status => match key {
                    Key::Up => AddTaskModel { status: previous_status(self.status), ..self },
                    Key::Down => AddTaskModel { status: next_status(self.status), ..self },
                    _ => self,
                },
            },
        }
    }
}

/// Relies on uuid::Uuid::new_v4: a random identifier whose version field
/// reads 4 and whose variant bits read `10`, taken as its 128 bits with
/// Uuid::as_u128.
#[verifier::external_body]
fn new_task_uuid() -> (r: u128)
    ensures
        (r >> 76u128) & 0xfu128 == 4,
        (r >> 62u128) & 0x3u128 == 2,
{
    uuid::Uuid::new_v4().as_u128()
}

/// Relies on String::push: the character is appended.
#[verifier::external_body]
fn push_char(s: &mut String, c: char)
    ensures
        final(s)@ == old(s)@.push(c),
{
    s.push(c)
}

/// Relies on String::pop: the last character is removed and returned; an
/// empty string stays empty.
#[verifier::external_body]
fn pop_char(s: &mut String) -> (r: Option<char>)
    ensures
        old(s)@.len() == 0 ==> r is None && final(s)@ == old(s)@,
        old(s)@.len() > 0 ==> r == Some(old(s)@.last()) && final(s)@ == old(s)@.drop_last(),
{
    s.pop()
}

pub struct AddTaskPopup {
    task_opened_on_idx: usize,
    current_title: String,
    current_status: TaskStatus,
    selected_field: SelectedField,
}

impl View for AddTaskPopup {
    type V = AddTaskModel;

    closed spec fn view(&self) -> AddTaskModel {
        AddTaskModel {
            opened_on: self.task_opened_on_idx,
            title: self.current_title@,
            status: self.current_status,
            field: self.selected_field,
        }
    }
}

impl AddTaskPopup {
    /// An empty title, status `Todo`, the title field selected.
    pub fn new(task_opened_on_idx: usize) -> (r: Self)
        ensures
            r@ == (AddTaskModel {
                opened_on: task_opened_on_idx,
                title: Seq::empty(),
                status: TaskStatus::Todo,
                field: SelectedField::Title,
            }),
    {
        AddTaskPopup {
            task_opened_on_idx,
            current_title: String::new(),
            current_status: TaskStatus::Todo,
            selected_field: SelectedField::Title,
        }
    }

    pub fn title(&self) -> (r: &String)
        ensures
            r@ == self@.title,
    {
        &self.current_title
    }

    pub fn status(&self) -> (r: TaskStatus)
        ensures
            r == self@.status,
    {
        self.current_status
    }

    pub fn selected_field(&self) -> (r: SelectedField)
        ensures
            r == self@.field,
    {
        self.selected_field
    }

    /// Whether typed characters go into the title.
    pub fn is_editing_title(&self) -> (r: bool)
        ensures
            r == (self@.field == SelectedField::Title),
    {
        match self.selected_field {
            SelectedField::Title => true,
            SelectedField::Status => false,
        }
    }

    /// The intent that submits the form with `uuid` as the new task's identifier.
    pub fn submit(&self, uuid: u128) -> (r: Action)
        ensures
            r matches Action::AddTask { task } && task.uuid == uuid && task.title@ == self@.title
                && task.status == self@.status,
    {
        Action::AddTask {
            task: Task { uuid, title: self.current_title.clone(), status: self.current_status },
        }
    }

    /// Escape returns to the task list; Enter submits the form as a task with
    /// a fresh identifier; other keys edit the form.
    pub fn handle_key(&mut self, key: Key) -> (r: Option<Action>)
        ensures
            key == Key::Esc ==> final(self)@ == old(self)@ && r == Some(
                Action::OpenPopup { popup: PopupRequest::TaskList { selected: old(self)@.opened_on } },
            ),
            key == Key::Enter ==> final(self)@ == old(self)@ && (r matches Some(
                Action::AddTask { task },
            ) && task.title@ == old(self)@.title && task.status == old(self)@.status),
            key != Key::Esc && key != Key::Enter ==> final(self)@ == old(self)@.after_key(key)
                && r is None,
    {
        match key {
            Key::Esc => Some(
                Action::OpenPopup {
                    popup: PopupRequest::TaskList { selected: self.task_opened_on_idx },
                },
            ),
            Key::Enter => Some(self.submit(new_task_uuid())),
            Key::Tab | Key::Left | Key::Right => {
                self.selected_field = match self.selected_field {
                    SelectedField::Title => SelectedField::Status,
                    SelectedField::Status => SelectedField::Title,
                };
                None
            },
            _ => {
                match self.selected_field {
                    SelectedField::Title => match key {
                        Key::Backspace => {
                            pop_char(&mut self.current_title);
                        },
                        Key::Char(c) => push_char(&mut self.current_title, c),
                        _ => {},
                    },
                    SelectedField::Status => match key {
                        Key::Up => self.current_status = self.current_status.previous(),
                        Key::Down => self.current_status = self.current_status.next(),
                        _ => {},
                    },
                }
                None
            },
        }
    }
}

} // verus!
