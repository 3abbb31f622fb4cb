//! The task list and the rule that keeps it in step with the task file.
//!
//! Reading and writing the file is the caller's part. A change is made in
//! two steps: the list as it would be after the change is handed out to be
//! written, and the change reaches the list in memory only once that write
//! has succeeded. On a failed write the list in memory stays as it was, so
//! what is shown and what is stored never part ways.
use vstd::prelude::*;
use crate::task::{Task, TaskStatus};

verus! {

/// Why a write of the task file failed.
pub enum WriteFailure {
    PermissionDenied,
    /// The directory that should hold the file does not exist.
    MissingDirectory,
    /// Any other I/O failure, with its description.
    Other(String),
}

/// A failed save of the task list; each variant carries the file's path.
pub enum SaveTaskError {
    /// The list could not be turned into JSON; the description says why.
    JsonConversionError(String, String),
    FileWriteError(String, WriteFailure),
}

/// A failed load of the task file; each variant carries the file's path and
/// a description of the cause.
pub enum LoadTaskFileError {
    IoError(String, String),
    ParsingError(String, String),
}

/// What reading and decoding the task file gave.
pub enum TaskFileContent {
    /// There is no such file.
    Missing,
    /// The file exists but could not be read; the description says why.
    Unreadable(String),
    /// The file was read but does not hold a list of tasks.
    Malformed(String),
    Tasks(Vec<Task>),
}

/// The message shown for a failed save.
pub open spec fn save_error_text(e: SaveTaskError) -> Seq<char> {
    match e {
        SaveTaskError::JsonConversionError(path, detail) => "Failed to serialize tasks to JSON for file '"@
            + path@ + "': "@ + detail@,
        SaveTaskError::FileWriteError(path, failure) => match failure {
            WriteFailure::PermissionDenied => "Permission denied when writing to '"@ + path@
                + "'. Check file permissions."@,
            WriteFailure::MissingDirectory => "Cannot write to '"@ + path@
                + "': parent directory does not exist"@,
            WriteFailure::Other(detail) => "Failed to write tasks to file '"@ + path@ + "': "@
                + detail@,
        },
    }
}

/// The message shown for a failed load.
pub open spec fn load_error_text(e: LoadTaskFileError) -> Seq<char> {
    match e {
        LoadTaskFileError::IoError(path, detail) => "An I/O error occurred while reading the file at "@
            + path@ + ": "@ + detail@,
        LoadTaskFileError::ParsingError(path, detail) => "JSON parsing error in task file at "@
            + path@ + ": "@ + detail@,
    }
}

/// The tasks that a read of the file yields: none for a missing file, the
/// decoded list for a readable one, nothing at all on a failure.
pub open spec fn loaded_tasks(content: TaskFileContent) -> Option<Seq<Task>> {
    match content {
        TaskFileContent::Missing => Some(Seq::empty()),
        TaskFileContent::Tasks(v) => Some(v@),
        _ => None,
    }
}

/// `tasks` without those whose identifier is `uuid`, in the same order.
pub open spec fn without_task(tasks: Seq<Task>, uuid: u128) -> Seq<Task> {
    tasks.filter(|t: Task| t.uuid != uuid)
}

/// The list after adding `task`, where `saved` tells whether the new list was written.
pub open spec fn after_add(tasks: Seq<Task>, task: Task, saved: bool) -> Seq<Task> {
    if saved {
        tasks.push(task)
    } else {
        tasks
    }
}

/// The list after deleting `uuid`, where `saved` tells whether the new list was written.
pub open spec fn after_delete(tasks: Seq<Task>, uuid: u128, saved: bool) -> Seq<Task> {
    if saved {
        without_task(tasks, uuid)
    } else {
        tasks
    }
}

/// The first index that holds `uuid`: every earlier task has another identifier.
pub open spec fn is_first_with(tasks: Seq<Task>, uuid: u128, i: int) -> bool {
    &&& 0 <= i < tasks.len()
    &&& tasks[i].uuid == uuid
    &&& forall|j: int| 0 <= j < i ==> tasks[j].uuid != uuid
}

impl SaveTaskError {
    /// The message shown for this failure.
    pub fn message(&self) -> (r: String)
        ensures
            r@ == save_error_text(*self),
    {
        match self {
            SaveTaskError::JsonConversionError(path, detail) => {
                let m = String::from_str("Failed to serialize tasks to JSON for file '");
                let m = m.concat(path.as_str());
                let m = m.concat("': ");
                m.concat(detail.as_str())
            },
            SaveTaskError::FileWriteError(path, failure) => match failure {
                WriteFailure::PermissionDenied => {
                    let m = String::from_str("Permission denied when writing to '");
                    let m = m.concat(path.as_str());
                    m.concat("'. Check file permissions.")
                },
                WriteFailure::MissingDirectory => {
                    let m = String::from_str("Cannot write to '");
                    let m = m.concat(path.as_str());
                    m.concat("': parent directory does not exist")
                },
                WriteFailure::Other(detail) => {
                    let m = String::from_str("Failed to write tasks to file '");
                    let m = m.concat(path.as_str());
                    let m = m.concat("': ");
                    m.concat(detail.as_str())
                },
            },
        }
    }
}

impl LoadTaskFileError {
    /// The message shown for this failure.
    pub fn message(&self) -> (r: String)
        ensures
            r@ == load_error_text(*self),
    {
        match self {
            LoadTaskFileError::IoError(path, detail) => {
                let m = String::from_str("An I/O error occurred while reading the file at ");
                let m = m.concat(path.as_str());
                let m = m.concat(": ");
                m.concat(detail.as_str())
            },
            LoadTaskFileError::ParsingError(path, detail) => {
                let m = String::from_str("JSON parsing error in task file at ");
                let m = m.concat(path.as_str());
                let m = m.concat(": ");
                m.concat(detail.as_str())
            },
        }
    }
}

/// The task list in memory, and the path of the file that stores it.
pub struct TaskManager {
    pub tasks: Vec<Task>,
    pub tasks_file_path: String,
}

impl TaskManager {
    /// The path of the task file.
    pub open spec fn path(&self) -> Seq<char> {
        self.tasks_file_path@
    }

    /// A task list stored at `file_path`, from what reading that file gave:
    /// an empty list when there is no file, the file's tasks when it could be
    /// read and decoded, and otherwise the error, with the path.
    pub fn new(file_path: String, content: TaskFileContent) -> (r: Result<Self, LoadTaskFileError>)
        ensures
            match (content, r) {
                (TaskFileContent::Unreadable(d), Err(e)) => e == LoadTaskFileError::IoError(file_path, d),
                (TaskFileContent::Malformed(d), Err(e)) => e == LoadTaskFileError::ParsingError(file_path, d),
                (c, Ok(m)) => loaded_tasks(c) == Some(m.tasks@) && m.path() == file_path@,
                _ => false,
            },
    {
        let mut manager = TaskManager { tasks: Vec::new(), tasks_file_path: file_path };
        match manager.load_tasks(content) {
            Ok(()) => Ok(manager),
            Err(e) => Err(e),
        }
    }

    /// Replaces the list with what reading the file gave; on a failure the
    /// list stays as it was and the error, with the path, is returned.
    pub fn load_tasks(&mut self, content: TaskFileContent) -> (r: Result<(), LoadTaskFileError>)
        ensures
            final(self).path() == old(self).path(),
            match (content, r) {
                (TaskFileContent::Unreadable(d), Err(e)) => e == LoadTaskFileError::IoError(
                    old(self).tasks_file_path,
                    d,
                ) && final(self).tasks@ == old(self).tasks@,
                (TaskFileContent::Malformed(d), Err(e)) => e == LoadTaskFileError::ParsingError(
                    old(self).tasks_file_path,
                    d,
                ) && final(self).tasks@ == old(self).tasks@,
                (c, Ok(())) => loaded_tasks(c) == Some(final(self).tasks@),
                _ => false,
            },
    {
        match content {
            TaskFileContent::Missing => {
                self.tasks = Vec::new();
                Ok(())
            },
            TaskFileContent::Tasks(v) => {
                self.tasks = v;
                Ok(())
            },
            TaskFileContent::Unreadable(d) => Err(
                LoadTaskFileError::IoError(self.tasks_file_path.clone(), d),
            ),
            TaskFileContent::Malformed(d) => Err(
                LoadTaskFileError::ParsingError(self.tasks_file_path.clone(), d),
            ),
        }
    }

    /// The path of the task file.
    pub fn tasks_file_path(&self) -> (r: &String)
        ensures
            r@ == self.path(),
    {
        &self.tasks_file_path
    }

    /// The list as it would be after adding `task`: this is what to write
    /// before calling [`TaskManager::add_task`].
    pub fn with_added(&self, task: &Task) -> (r: Vec<Task>)
        ensures
            r@ == self.tasks@.push(*task),
    {
        let mut r: Vec<Task> = Vec::new();
        let mut i: usize = 0;
        while i < self.tasks.len()
            invariant
                i <= self.tasks@.len(),
                r@ == self.tasks@.subrange(0, i as int),
            decreases self.tasks@.len() - i,
        {
            r.push(self.tasks[i].duplicate());
            i = i + 1;
            assert(r@ =~= self.tasks@.subrange(0, i as int));
        }
        assert(self.tasks@.subrange(0, i as int) =~= self.tasks@);
        r.push(task.duplicate());
        r
    }

    /// The list as it would be after deleting the tasks with identifier
    /// `uuid`: this is what to write before calling [`TaskManager::delete_task`].
    pub fn without(&self, uuid: u128) -> (r: Vec<Task>)
        ensures
            r@ == without_task(self.tasks@, uuid),
    {
        let mut r: Vec<Task> = Vec::new();
        let mut i: usize = 0;
        while i < self.tasks.len()
            invariant
                i <= self.tasks@.len(),
                r@ == without_task(self.tasks@.subrange(0, i as int), uuid),
            decreases self.tasks@.len() - i,
        {
            proof {
                let next = self.tasks@.subrange(0, i + 1);
                assert(next.drop_last() =~= self.tasks@.subrange(0, i as int));
                assert(next.last() == self.tasks@[i as int]);
                reveal(Seq::filter);
            }
            if self.tasks[i].uuid != uuid {
                r.push(self.tasks[i].duplicate());
            }
            i = i + 1;
        }
        assert(self.tasks@.subrange(0, i as int) =~= self.tasks@);
        r
    }

    /// Adds `task` at the end of the list, where `saved` is the outcome of
    /// writing [`TaskManager::with_added`]. The index of the new task is
    /// returned; on a failed write the list is left as it was and the error
    /// is handed back.
    pub fn add_task(&mut self, task: Task, saved: Result<(), SaveTaskError>) -> (r: Result<
        usize,
        SaveTaskError,
    >)
        requires
            old(self).tasks@.len() < usize::MAX,
        ensures
            final(self).path() == old(self).path(),
            final(self).tasks@ == after_add(old(self).tasks@, task, saved is Ok),
            match saved {
                Ok(()) => r == Ok::<usize, SaveTaskError>(old(self).tasks@.len() as usize),
                Err(e) => r == Err::<usize, SaveTaskError>(e),
            },
    {
        match saved {
            Ok(()) => {
                self.tasks.push(task);
                Ok(self.tasks.len() - 1)
            },
            Err(e) => Err(e),
        }
    }

    /// Deletes the tasks with identifier `uuid`, where `saved` is the outcome
    /// of writing [`TaskManager::without`]. On a failed write the list is
    /// left as it was and the error is handed back.
    pub fn delete_task(&mut self, uuid: u128, saved: Result<(), SaveTaskError>) -> (r: Result<
        (),
        SaveTaskError,
    >)
        ensures
            final(self).path() == old(self).path(),
            final(self).tasks@ == after_delete(old(self).tasks@, uuid, saved is Ok),
            r == saved,
    {
        if saved.is_ok() {
            self.tasks = self.without(uuid);
        }
        saved
    }

    /// Gives the first task with identifier `uuid` a new title and status;
    /// without such a task nothing changes.
    pub fn edit_task(&mut self, task_uuid: u128, new_task_title: String, new_task_status: TaskStatus)
        ensures
            final(self).path() == old(self).path(),
            forall|i: int|
                is_first_with(old(self).tasks@, task_uuid, i) ==> final(self).tasks@
                    == old(self).tasks@.update(
                    i,
                    Task { uuid: task_uuid, title: new_task_title, status: new_task_status },
                ),
            (forall|j: int| 0 <= j < old(self).tasks@.len() ==> old(self).tasks@[j].uuid != task_uuid)
                ==> final(self).tasks@ == old(self).tasks@,
    {
        let mut i: usize = 0;
        while i < self.tasks.len()
            invariant
                i <= self.tasks@.len(),
                self.tasks@ == old(self).tasks@,
                self.tasks_file_path == old(self).tasks_file_path,
                forall|j: int| 0 <= j < i ==> self.tasks@[j].uuid != task_uuid,
            decreases self.tasks@.len() - i,
        {
            if self.tasks[i].uuid == task_uuid {
                self.tasks.set(
                    i,
                    Task { uuid: task_uuid, title: new_task_title, status: new_task_status },
                );
                return;
            }
            i = i + 1;
        }
    }
}

/// A failed write leaves the list in memory exactly as it was, for an
/// addition and for a deletion alike; a successful one makes it the list
/// that was written.
pub proof fn lemma_save_before_commit(tasks: Seq<Task>, task: Task, uuid: u128)
    ensures
        after_add(tasks, task, false) == tasks,
        after_delete(tasks, uuid, false) == tasks,
        after_add(tasks, task, true) == tasks.push(task),
        after_delete(tasks, uuid, true) == without_task(tasks, uuid),
{
}

/// A task that was added, and whose list was written, is found unchanged,
/// identifier, title and status, in the list read back from that write.
pub proof fn lemma_added_task_reloads(tasks: Seq<Task>, task: Task, written: TaskFileContent)
    requires
        written matches TaskFileContent::Tasks(v) && v@ == after_add(tasks, task, true),
    ensures
        loaded_tasks(written) matches Some(l) && l.len() == tasks.len() + 1
            && l[tasks.len() as int] == task && l.contains(task),
{
    let l = after_add(tasks, task, true);
    assert(l[tasks.len() as int] == task);
}

} // verus!
