use focus_tui::add_task::{AddTaskPopup, SelectedField};
use focus_tui::app::{Action, PopupRequest};
use focus_tui::error::ErrorPopup;
use focus_tui::keys::Key;
use focus_tui::task::{Task, TaskStatus};
use focus_tui::task_list::TaskListPopup;
use focus_tui::theme::{Rgb, Theme};
use focus_tui::welcome::{SelectedDuration, WelcomeScreen};

fn task(uuid: u128, title: &str) -> Task {
    Task { uuid, title: title.to_string(), status: TaskStatus::Todo }
}

#[test]
fn status_cycle_has_three_steps() {
    for s in [TaskStatus::Done, TaskStatus::Ongoing, TaskStatus::Todo] {
        assert_eq!(s.next().next().next(), s);
        assert_eq!(s.next().previous(), s);
    }
    assert_eq!(TaskStatus::Done.next(), TaskStatus::Ongoing);
    assert_eq!(TaskStatus::Todo.previous(), TaskStatus::Ongoing);
}

#[test]
fn status_names_and_symbols() {
    assert_eq!(TaskStatus::Ongoing.name(), "Ongoing");
    assert_eq!(TaskStatus::Done.emoji(), "✅");
    assert_eq!(TaskStatus::Todo.emoji(), "❌");
    assert_eq!(task(1, "Write spec").list_line(), "❌ Write spec");
}

#[test]
fn welcome_durations_never_go_below_one_minute() {
    let mut w = WelcomeScreen::new();
    assert_eq!(w.work_duration_minutes(), 45);
    assert_eq!(w.break_duration_minutes(), 10);
    for _ in 0..50 {
        w.handle_key(Key::Left);
    }
    assert_eq!(w.work_duration_minutes(), 1);
    w.handle_key(Key::Tab);
    assert_eq!(w.selected_duration(), SelectedDuration::Break);
    w.handle_key(Key::Right);
    assert_eq!(w.break_duration_minutes(), 11);
    w.handle_key(Key::Down);
    assert_eq!(w.selected_duration(), SelectedDuration::Work);
    match w.handle_key(Key::Enter) {
        Some(Action::SetDurations { work_duration_minutes, break_duration_minutes }) => {
            assert_eq!((work_duration_minutes, break_duration_minutes), (1, 11));
        }
        _ => panic!("Enter must confirm the durations"),
    }
}

#[test]
fn welcome_increase_saturates() {
    let mut w = WelcomeScreen::new();
    for _ in 0..3 {
        w.increase_break_duration();
    }
    assert_eq!(w.break_duration_minutes(), 13);
    w.decrease_break_duration();
    assert_eq!(w.break_duration_minutes(), 12);
    w.increase_work_duration();
    w.decrease_work_duration();
    assert_eq!(w.work_duration_minutes(), 45);
}

#[test]
fn selection_clamps_at_both_ends() {
    let tasks = vec![task(1, "a"), task(2, "b"), task(3, "c")];
    let mut p = TaskListPopup::new(tasks.len(), 2);
    assert!(p.handle_key(Key::Down, &tasks).is_none());
    assert_eq!(p.selected(), Some(2));
    p.handle_key(Key::Up, &tasks);
    p.handle_key(Key::Up, &tasks);
    p.handle_key(Key::Up, &tasks);
    assert_eq!(p.selected(), Some(0));
    assert_eq!(TaskListPopup::new(3, 9).selected(), Some(2));
    assert_eq!(TaskListPopup::new(0, 0).selected(), None);
}

#[test]
fn selection_fits_a_shrunk_list() {
    let mut p = TaskListPopup::new(3, 2);
    p.fit_to(2);
    assert_eq!(p.selected(), Some(1));
    p.fit_to(0);
    assert_eq!(p.selected(), None);
}

#[test]
fn task_list_keys() {
    let tasks = vec![task(7, "a"), task(8, "b")];
    let mut p = TaskListPopup::new(tasks.len(), 1);
    assert!(matches!(p.handle_key(Key::Esc, &tasks), Some(Action::ClosePopup)));
    assert!(matches!(p.handle_key(Key::Char('t'), &tasks), Some(Action::ClosePopup)));
    assert!(matches!(p.handle_key(Key::Char('d'), &tasks), Some(Action::DeleteTask { uuid: 8 })));
    assert!(matches!(
        p.handle_key(Key::Char('a'), &tasks),
        Some(Action::OpenPopup { popup: PopupRequest::AddTask { opened_on: 1 } })
    ));
    let empty: Vec<Task> = Vec::new();
    let mut q = TaskListPopup::new(0, 0);
    assert!(q.handle_key(Key::Char('d'), &empty).is_none());
}

#[test]
fn add_task_form_edits_title_and_status() {
    let mut f = AddTaskPopup::new(3);
    for c in "Writes".chars() {
        assert!(f.handle_key(Key::Char(c)).is_none());
    }
    f.handle_key(Key::Backspace);
    assert_eq!(f.title(), "Write");
    f.handle_key(Key::Tab);
    assert_eq!(f.selected_field(), SelectedField::Status);
    f.handle_key(Key::Down);
    assert_eq!(f.status(), TaskStatus::Done);
    f.handle_key(Key::Up);
    f.handle_key(Key::Up);
    assert_eq!(f.status(), TaskStatus::Ongoing);
    f.handle_key(Key::Char('x'));
    assert_eq!(f.title(), "Write");
    f.handle_key(Key::Right);
    assert!(f.is_editing_title());
}

#[test]
fn backspace_on_empty_title_does_nothing() {
    let mut f = AddTaskPopup::new(0);
    f.handle_key(Key::Backspace);
    assert_eq!(f.title(), "");
}

#[test]
fn add_task_form_submits_and_leaves() {
    let mut f = AddTaskPopup::new(4);
    f.handle_key(Key::Char('q'));
    match f.handle_key(Key::Enter) {
        Some(Action::AddTask { task }) => {
            assert_eq!(task.title, "q");
            assert_eq!(task.status, TaskStatus::Todo);
        }
        _ => panic!("Enter must submit the task"),
    }
    assert!(matches!(
        f.handle_key(Key::Esc),
        Some(Action::OpenPopup { popup: PopupRequest::TaskList { selected: 4 } })
    ));
    match f.submit(42) {
        Action::AddTask { task } => assert_eq!(task.uuid, 42),
        _ => panic!("submit must add a task"),
    }
}

#[test]
fn fresh_identifiers_differ() {
    let mut f = AddTaskPopup::new(0);
    let a = match f.handle_key(Key::Enter) {
        Some(Action::AddTask { task }) => task.uuid,
        _ => panic!("Enter must submit the task"),
    };
    let b = match f.handle_key(Key::Enter) {
        Some(Action::AddTask { task }) => task.uuid,
        _ => panic!("Enter must submit the task"),
    };
    assert_ne!(a, b);
    assert_eq!((a >> 76) & 0xf, 4);
}

#[test]
fn error_popup_closes_on_escape() {
    let p = ErrorPopup::new("boom".to_string());
    assert_eq!(p.content(), "boom");
    assert!(matches!(p.handle_key(Key::Esc), Some(Action::ClosePopup)));
    assert!(p.handle_key(Key::Enter).is_none());
}

#[test]
fn theme_accents() {
    let t = Theme::catppuccin_mocha();
    assert_eq!(t.countdown_color(&focus_tui::countdown::CountdownType::Break), Rgb { r: 137, g: 180, b: 250 });
    let (fg, bg) = Theme::catppuccin_latte().gauge_colors(&focus_tui::countdown::CountdownType::Work);
    assert_eq!(fg, Rgb { r: 64, g: 160, b: 43 });
    assert_eq!(bg, Rgb { r: 239, g: 241, b: 245 });
}
