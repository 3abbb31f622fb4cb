use focus_tui::app::{Action, App, Popup, PopupRequest, Screen};
use focus_tui::countdown::CountdownType;
use focus_tui::keys::Key;
use focus_tui::storage::{SaveTaskError, TaskFileContent, TaskManager, WriteFailure};
use focus_tui::task::{Task, TaskStatus};

fn app_with(tasks: Vec<Task>) -> App {
    match TaskManager::new("tasks.json".to_string(), TaskFileContent::Tasks(tasks)) {
        Ok(m) => App::new(m),
        Err(_) => panic!("a decoded list must load"),
    }
}

fn task(uuid: u128, title: &str) -> Task {
    Task { uuid, title: title.to_string(), status: TaskStatus::Todo }
}

fn selected(app: &App) -> Option<usize> {
    match app.popup() {
        Some(Popup::TaskList(p)) => p.selected(),
        _ => panic!("the task list must be open"),
    }
}

#[test]
fn starts_on_welcome_screen() {
    let app = app_with(Vec::new());
    assert!(matches!(app.screen(), Screen::Welcome(_)));
    assert!(app.popup().is_none());
    assert!(!app.should_exit());
    assert_eq!((app.work_duration_minutes(), app.break_duration_minutes()), (45, 10));
}

#[test]
fn q_quits() {
    let mut app = app_with(Vec::new());
    assert!(app.handle_key(Key::Char('q'), 0).is_none());
    assert!(app.should_exit());
}

#[test]
fn enter_starts_countdown_with_chosen_durations() {
    let mut app = app_with(Vec::new());
    app.handle_key(Key::Right, 0);
    app.handle_key(Key::Enter, 5000);
    assert_eq!(app.work_duration_minutes(), 46);
    match app.screen() {
        Screen::Countdown(c) => {
            assert_eq!(c.total_duration(), 46 * 60_000);
            assert_eq!(c.remaining_duration(5000), 46 * 60_000);
        }
        _ => panic!("Enter must start the countdown"),
    }
}

#[test]
fn tick_switches_the_countdown_phase() {
    let mut app = app_with(Vec::new());
    for _ in 0..44 {
        app.handle_key(Key::Left, 0);
    }
    app.handle_key(Key::Enter, 0);
    assert_eq!(app.tick(30_000), None);
    assert_eq!(app.tick(61_000), Some(CountdownType::Break));
    assert_eq!(app.tick(62_000), None);
}

#[test]
fn zero_durations_are_refused() {
    let mut app = app_with(Vec::new());
    app.apply(Action::SetDurations { work_duration_minutes: 0, break_duration_minutes: 5 }, 0);
    assert!(matches!(app.screen(), Screen::Welcome(_)));
}

#[test]
fn t_toggles_the_task_list() {
    let mut app = app_with(vec![task(1, "a")]);
    app.handle_key(Key::Char('t'), 0);
    assert_eq!(selected(&app), Some(0));
    app.handle_key(Key::Char('t'), 0);
    assert!(app.popup().is_none());
}

#[test]
fn letters_typed_into_a_title_stay_in_the_title() {
    let mut app = app_with(Vec::new());
    app.handle_key(Key::Char('t'), 0);
    app.handle_key(Key::Char('a'), 0);
    for c in "quit".chars() {
        app.handle_key(Key::Char(c), 0);
    }
    assert!(!app.should_exit());
    match app.popup() {
        Some(Popup::AddTask(f)) => assert_eq!(f.title(), "quit"),
        _ => panic!("the task form must stay open"),
    }
}

#[test]
fn adding_a_task_waits_for_its_write() {
    let mut app = app_with(vec![task(1, "a")]);
    app.handle_key(Key::Char('t'), 0);
    app.handle_key(Key::Char('a'), 0);
    app.handle_key(Key::Char('b'), 0);
    let staged = app.handle_key(Key::Enter, 0).expect("the new list must be written");
    assert_eq!(staged.len(), 2);
    assert_eq!(staged[1].title, "b");
    assert_eq!(app.tasks().len(), 1);
    assert!(app.has_pending_save());
    assert!(app.handle_key(Key::Char('q'), 0).is_none());
    assert!(!app.should_exit());
    app.finish_save(Ok(()));
    assert!(!app.has_pending_save());
    assert_eq!(app.tasks().len(), 2);
    assert_eq!(app.tasks()[1].title, "b");
    assert_eq!(selected(&app), Some(1));
}

#[test]
fn failed_write_shows_an_error_and_keeps_the_list() {
    let mut app = app_with(vec![task(1, "a")]);
    app.apply(Action::AddTask { task: task(2, "b") }, 0);
    app.finish_save(Err(SaveTaskError::FileWriteError(
        "tasks.json".to_string(),
        WriteFailure::MissingDirectory,
    )));
    assert_eq!(app.tasks().len(), 1);
    match app.popup() {
        Some(Popup::Error(p)) => {
            assert_eq!(p.content(), "Cannot write to 'tasks.json': parent directory does not exist")
        }
        _ => panic!("the failure must be shown"),
    }
    app.handle_key(Key::Esc, 0);
    assert!(app.popup().is_none());
}

#[test]
fn deleting_the_last_task_moves_the_selection_up() {
    let mut app = app_with(vec![task(1, "a"), task(2, "b")]);
    app.apply(Action::OpenPopup { popup: PopupRequest::TaskList { selected: 1 } }, 0);
    let staged = app.handle_key(Key::Char('d'), 0).expect("the new list must be written");
    assert_eq!(staged.len(), 1);
    app.finish_save(Ok(()));
    assert_eq!(app.tasks().len(), 1);
    assert_eq!(selected(&app), Some(0));
    app.handle_key(Key::Char('d'), 0);
    app.finish_save(Ok(()));
    assert!(app.tasks().is_empty());
    assert_eq!(selected(&app), None);
}

#[test]
fn opening_a_popup_replaces_the_open_one() {
    let mut app = app_with(Vec::new());
    app.handle_key(Key::Char('t'), 0);
    app.apply(Action::OpenPopup { popup: PopupRequest::Error { message: "x".to_string() } }, 0);
    assert!(matches!(app.popup(), Some(Popup::Error(_))));
    app.apply(Action::ClosePopup, 0);
    assert!(app.popup().is_none());
}
