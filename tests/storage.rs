use focus_tui::storage::{
    LoadTaskFileError, SaveTaskError, TaskFileContent, TaskManager, WriteFailure,
};
use focus_tui::task::{Task, TaskStatus};

fn task(uuid: u128, title: &str, status: TaskStatus) -> Task {
    Task { uuid, title: title.to_string(), status }
}

fn manager(tasks: Vec<Task>) -> TaskManager {
    match TaskManager::new("tasks.json".to_string(), TaskFileContent::Tasks(tasks)) {
        Ok(m) => m,
        Err(_) => panic!("a decoded list must load"),
    }
}

fn write_error() -> SaveTaskError {
    SaveTaskError::FileWriteError("tasks.json".to_string(), WriteFailure::PermissionDenied)
}

fn same(a: &[Task], b: &[Task]) -> bool {
    a.len() == b.len()
        && a.iter().zip(b).all(|(x, y)| x.uuid == y.uuid && x.title == y.title && x.status == y.status)
}

#[test]
fn missing_file_loads_as_empty_list() {
    let m = match TaskManager::new("tasks.json".to_string(), TaskFileContent::Missing) {
        Ok(m) => m,
        Err(_) => panic!("a missing file is no error"),
    };
    assert!(m.tasks.is_empty());
    assert_eq!(m.tasks_file_path(), "tasks.json");
}

#[test]
fn unreadable_and_malformed_files_are_errors() {
    match TaskManager::new("t.json".to_string(), TaskFileContent::Unreadable("denied".to_string())) {
        Err(e @ LoadTaskFileError::IoError(..)) => assert_eq!(
            e.message(),
            "An I/O error occurred while reading the file at t.json: denied"
        ),
        _ => panic!("an unreadable file must fail"),
    }
    match TaskManager::new("t.json".to_string(), TaskFileContent::Malformed("line 1".to_string())) {
        Err(e @ LoadTaskFileError::ParsingError(..)) => {
            assert_eq!(e.message(), "JSON parsing error in task file at t.json: line 1")
        }
        _ => panic!("a malformed file must fail"),
    }
}

#[test]
fn added_task_reloads_unchanged() {
    let mut m = manager(vec![task(1, "Old", TaskStatus::Done)]);
    let new_task = task(0x1234, "Write spec", TaskStatus::Todo);
    let written = m.with_added(&new_task);
    assert_eq!(m.add_task(new_task.clone(), Ok(())).ok(), Some(1));
    assert!(same(&m.tasks, &written));
    let reloaded = manager(written);
    let found = reloaded.tasks.iter().find(|t| t.uuid == 0x1234).expect("task is stored");
    assert_eq!(found.title, "Write spec");
    assert_eq!(found.status, TaskStatus::Todo);
}

#[test]
fn failed_save_leaves_the_list_unchanged() {
    let original = vec![task(1, "a", TaskStatus::Todo), task(2, "b", TaskStatus::Done)];
    let mut m = manager(original.clone());
    assert!(m.add_task(task(3, "c", TaskStatus::Todo), Err(write_error())).is_err());
    assert!(same(&m.tasks, &original));
    assert!(m.delete_task(1, Err(write_error())).is_err());
    assert!(same(&m.tasks, &original));
}

#[test]
fn delete_removes_every_task_with_the_identifier() {
    let mut m = manager(vec![
        task(1, "a", TaskStatus::Todo),
        task(2, "b", TaskStatus::Done),
        task(1, "c", TaskStatus::Ongoing),
    ]);
    let written = m.without(1);
    assert_eq!(written.len(), 1);
    assert!(m.delete_task(1, Ok(())).is_ok());
    assert!(same(&m.tasks, &written));
    assert_eq!(m.tasks[0].title, "b");
}

#[test]
fn edit_changes_the_first_match_only() {
    let mut m = manager(vec![task(5, "a", TaskStatus::Todo), task(5, "b", TaskStatus::Todo)]);
    m.edit_task(5, "new".to_string(), TaskStatus::Ongoing);
    assert_eq!(m.tasks[0].title, "new");
    assert_eq!(m.tasks[0].status, TaskStatus::Ongoing);
    assert_eq!(m.tasks[1].title, "b");
    m.edit_task(9, "none".to_string(), TaskStatus::Done);
    assert_eq!(m.tasks[1].title, "b");
}

#[test]
fn save_error_messages() {
    assert_eq!(
        write_error().message(),
        "Permission denied when writing to 'tasks.json'. Check file permissions."
    );
    assert_eq!(
        SaveTaskError::FileWriteError("x/t.json".to_string(), WriteFailure::MissingDirectory).message(),
        "Cannot write to 'x/t.json': parent directory does not exist"
    );
    assert_eq!(
        SaveTaskError::FileWriteError("t.json".to_string(), WriteFailure::Other("disk full".to_string()))
            .message(),
        "Failed to write tasks to file 't.json': disk full"
    );
    assert_eq!(
        SaveTaskError::JsonConversionError("t.json".to_string(), "bad".to_string()).message(),
        "Failed to serialize tasks to JSON for file 't.json': bad"
    );
}
