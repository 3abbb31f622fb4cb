//! The controller: one screen, at most one popup over it, the task list, and
//! the intents that input handling produces.
use vstd::prelude::*;
use crate::add_task::{AddTaskModel, AddTaskPopup, SelectedField};
use crate::countdown::{CountdownModel, CountdownScreen, CountdownType, minutes_to_millis, other_phase};
use crate::error::ErrorPopup;
use crate::keys::Key;
use crate::storage::{SaveTaskError, TaskManager, after_add, after_delete, save_error_text, without_task};
use crate::task::{Task, TaskStatus};
use crate::task_list::{TaskListPopup, clamped, selection_after_key, task_list_intent, valid_selection};
use crate::welcome::{
    DEFAULT_BREAK_DURATION_MINUTES, DEFAULT_WORK_DURATION_MINUTES, SelectedDuration, WelcomeModel,
    WelcomeScreen,
};

verus! {

/// A popup that an intent asks to open; the controller builds it.
pub enum PopupRequest {
    /// The task list, with the task at this index selected.
    TaskList { selected: usize },
    /// The form that adds a task; leaving it returns to the task list at this index.
    AddTask { opened_on: usize },
    /// A message about a failure.
    Error { message: String },
}

/// What handling one key press asks of the controller.
pub enum Action {
    Quit,
    SetDurations { work_duration_minutes: u64, break_duration_minutes: u64 },
    AddTask { task: Task },
    DeleteTask { uuid: u128 },
    OpenPopup { popup: PopupRequest },
    ClosePopup,
}

/// The page under the popups. The welcome screen comes first; confirming it
/// leads to the countdown, which is never left.
pub enum Screen {
    Welcome(WelcomeScreen),
    Countdown(CountdownScreen),
}

/// The one popup that may lie over the screen.
pub enum Popup {
    TaskList(TaskListPopup),
    AddTask(AddTaskPopup),
    Error(ErrorPopup),
}

/// A change of the task list that waits for its write to finish.
pub enum PendingChange {
    Add(Task),
    Delete(u128),
}

/// The controller as plain values.
pub struct AppModel {
    pub screen: Screen,
    pub popup: Option<Popup>,
    pub tasks: Seq<Task>,
    pub work: u64,
    pub rest: u64,
    pub exit: bool,
    pub pending: Option<PendingChange>,
}

/// Whether the popup is the task form with its title field selected, where
/// typed characters belong to the title.
pub open spec fn editing_title(popup: Option<Popup>) -> bool {
    popup matches Some(Popup::AddTask(p)) && p@.field == SelectedField::Title
}

/// The intent of a shortcut that holds everywhere: `q` quits and, with no
/// popup open, `t` opens the task list. Neither applies while a title is
/// being typed, so that both letters can be part of it. `None` where the key
/// is no such shortcut.
pub open spec fn shortcut_intent(popup: Option<Popup>, key: Key) -> Option<Action> {
    if editing_title(popup) && key is Char {
        None
    } else if key == Key::Char('q') {
        Some(Action::Quit)
    } else if key == Key::Char('t') && popup is None {
        Some(Action::OpenPopup { popup: PopupRequest::TaskList { selected: 0 } })
    } else {
        None
    }
}

/// `after` and `r` are what the popup `before` becomes and asks for on `key`.
pub open spec fn popup_step(
    before: Popup,
    after: Popup,
    key: Key,
    tasks: Seq<Task>,
    r: Option<Action>,
) -> bool {
    match before {
        Popup::TaskList(p) => after matches Popup::TaskList(q) && q@ == selection_after_key(
            p@,
            key,
            tasks.len(),
        ) && r == task_list_intent(p@, key, tasks),
        Popup::AddTask(p) => after matches Popup::AddTask(q) && if key == Key::Esc {
            q@ == p@ && r == Some(
                Action::OpenPopup { popup: PopupRequest::TaskList { selected: p@.opened_on } },
            )
        } else if key == Key::Enter {
            q@ == p@ && (r matches Some(Action::AddTask { task }) && task.title@ == p@.title
                && task.status == p@.status)
        } else {
            q@ == p@.after_key(key) && r is None
        },
        Popup::Error(p) => after matches Popup::Error(q) && q@ == p@ && r == (if key == Key::Esc {
            Some(Action::ClosePopup)
        } else {
            None
        }),
    }
}

/// `after` and `r` are what the screen `before` becomes and asks for on `key` at `now`.
pub open spec fn screen_step(before: Screen, after: Screen, key: Key, r: Option<Action>, now: u64) -> bool {
    match before {
        Screen::Welcome(w) => after matches Screen::Welcome(v) && if key == Key::Enter {
            v@ == w@ && r == Some(
                Action::SetDurations {
                    work_duration_minutes: w@.work,
                    break_duration_minutes: w@.rest,
                },
            )
        } else {
            v@ == w@.after_key(key) && r is None
        },
        Screen::Countdown(c) => after matches Screen::Countdown(d) && r is None && d@ == if key
            == Key::Char(' ') {
            c@.toggled(now)
        } else {
            c@
        },
    }
}

/// The popup that `request` asks for over a list of `len` tasks.
pub open spec fn opened(popup: Popup, request: PopupRequest, len: nat) -> bool {
    match request {
        PopupRequest::TaskList { selected } => popup matches Popup::TaskList(p) && p@ == clamped(
            Some(selected),
            len,
        ),
        PopupRequest::AddTask { opened_on } => popup matches Popup::AddTask(p) && p@ == (AddTaskModel {
            opened_on,
            title: Seq::empty(),
            status: TaskStatus::Todo,
            field: SelectedField::Title,
        }),
        PopupRequest::Error { message } => popup matches Popup::Error(p) && p@ == message@,
    }
}

/// The countdown that confirming `work` and `rest` minutes starts at `now`.
pub open spec fn fresh_countdown(work: u64, rest: u64, now: u64) -> CountdownModel {
    CountdownModel {
        start: now,
        total: minutes_to_millis(work),
        paused_remaining: None,
        work: minutes_to_millis(work),
        rest: minutes_to_millis(rest),
        phase: CountdownType::Work,
    }
}

/// `after` and `staged` are what carrying out `action` at `now` makes of
/// `before`: see [`App::apply`].
pub open spec fn applied(
    before: AppModel,
    action: Action,
    now: u64,
    after: AppModel,
    staged: Option<Vec<Task>>,
) -> bool {
    match action {
        Action::Quit => after == (AppModel { exit: true, ..before }) && staged is None,
        Action::SetDurations { work_duration_minutes: w, break_duration_minutes: b } => {
            &&& staged is None
            &&& if w >= 1 && b >= 1 {
                &&& after.screen matches Screen::Countdown(c) && c@ == fresh_countdown(w, b, now)
                &&& after == (AppModel { screen: after.screen, work: w, rest: b, ..before })
            } else {
                after == before
            }
        },
        Action::AddTask { task } => if before.tasks.len() < usize::MAX {
            &&& after == (AppModel { pending: Some(PendingChange::Add(task)), ..before })
            &&& staged matches Some(v) && v@ == before.tasks.push(task)
        } else {
            after == before && staged is None
        },
        Action::DeleteTask { uuid } => {
            &&& after == (AppModel { pending: Some(PendingChange::Delete(uuid)), ..before })
            &&& staged matches Some(v) && v@ == without_task(before.tasks, uuid)
        },
        Action::OpenPopup { popup } => {
            &&& staged is None
            &&& after.popup matches Some(p) && opened(p, popup, before.tasks.len())
            &&& after == (AppModel { popup: after.popup, ..before })
        },
        Action::ClosePopup => after == (AppModel { popup: None, ..before }) && staged is None,
    }
}

/// `after` and `r` are what routing `key` at `now` makes of `before` and
/// asks for: a shortcut changes nothing and yields its intent; otherwise the
/// popup, if one is open, or else the screen handles the key.
pub open spec fn intent_step(before: AppModel, key: Key, now: u64, after: AppModel, r: Option<Action>) -> bool {
    if shortcut_intent(before.popup, key) is Some {
        after == before && r == shortcut_intent(before.popup, key)
    } else {
        match before.popup {
            Some(p) => {
                &&& after.popup matches Some(q) && popup_step(p, q, key, before.tasks, r)
                &&& after == (AppModel { popup: after.popup, ..before })
            },
            None => {
                &&& screen_step(before.screen, after.screen, key, r, now)
                &&& after == (AppModel { screen: after.screen, ..before })
            },
        }
    }
}

/// The controller: the current screen, at most one popup, the task list,
/// the chosen durations and whether to stop.
pub struct App {
    current_screen: Screen,
    current_popup: Option<Popup>,
    task_manager: TaskManager,
    work_duration_minutes: u64,
    break_duration_minutes: u64,
    exit: bool,
    pending: Option<PendingChange>,
}

impl View for App {
    type V = AppModel;

    closed spec fn view(&self) -> AppModel {
        AppModel {
            screen: self.current_screen,
            popup: self.current_popup,
            tasks: self.task_manager.tasks@,
            work: self.work_duration_minutes,
            rest: self.break_duration_minutes,
            exit: self.exit,
            pending: self.pending,
        }
    }
}

impl AppModel {
    /// The screen is in a valid state, durations are at least a minute, an
    /// open task list's selection fits the list, and a waiting addition has
    /// room for one more task.
    pub open spec fn wf(self) -> bool {
        &&& match self.screen {
            Screen::Welcome(w) => w@.wf(),
            Screen::Countdown(c) => c.wf(),
        }
        &&& self.work >= 1
        &&& self.rest >= 1
        &&& (self.popup matches Some(Popup::TaskList(p)) ==> valid_selection(p@, self.tasks.len()))
        &&& (self.pending matches Some(PendingChange::Add(_)) ==> self.tasks.len() < usize::MAX)
    }
}

impl App {
    /// The welcome screen, no popup, the default durations, over `task_manager`.
    pub fn new(task_manager: TaskManager) -> (r: Self)
        ensures
            r@.wf(),
            r@.screen matches Screen::Welcome(w) && w@ == (WelcomeModel {
                work: DEFAULT_WORK_DURATION_MINUTES,
                rest: DEFAULT_BREAK_DURATION_MINUTES,
                selected: SelectedDuration::Work,
            }),
            r@.popup is None,
            r@.tasks == task_manager.tasks@,
            r@.work == DEFAULT_WORK_DURATION_MINUTES,
            r@.rest == DEFAULT_BREAK_DURATION_MINUTES,
            !r@.exit,
            r@.pending is None,
    {
        App {
            current_screen: Screen::Welcome(WelcomeScreen::new()),
            current_popup: None,
            task_manager,
            work_duration_minutes: DEFAULT_WORK_DURATION_MINUTES,
            break_duration_minutes: DEFAULT_BREAK_DURATION_MINUTES,
            exit: false,
            pending: None,
        }
    }

    pub fn screen(&self) -> (r: &Screen)
        ensures
            *r == self@.screen,
    {
        &self.current_screen
    }

    pub fn popup(&self) -> (r: &Option<Popup>)
        ensures
            *r == self@.popup,
    {
        &self.current_popup
    }

    pub fn tasks(&self) -> (r: &Vec<Task>)
        ensures
            r@ == self@.tasks,
    {
        &self.task_manager.tasks
    }

    pub fn task_manager(&self) -> (r: &TaskManager)
        ensures
            r.tasks@ == self@.tasks,
    {
        &self.task_manager
    }

    pub fn work_duration_minutes(&self) -> (r: u64)
        ensures
            r == self@.work,
    {
        self.work_duration_minutes
    }

    pub fn break_duration_minutes(&self) -> (r: u64)
        ensures
            r == self@.rest,
    {
        self.break_duration_minutes
    }

    /// Whether the application should stop.
    pub fn should_exit(&self) -> (r: bool)
        ensures
            r == self@.exit,
    {
        self.exit
    }

    /// Whether a change of the task list waits for the outcome of its write.
    pub fn has_pending_save(&self) -> (r: bool)
        ensures
            r == (self@.pending is Some),
    {
        self.pending.is_some()
    }

    /// Advances the screen at `now`; popups do not tick. Where the countdown
    /// enters a new phase, that phase is returned so that it can be announced.
    pub fn tick(&mut self, now: u64) -> (r: Option<CountdownType>)
        requires
            old(self)@.wf(),
        ensures
            final(self)@.wf(),
            final(self)@ == (AppModel { screen: final(self)@.screen, ..old(self)@ }),
            match old(self)@.screen {
                Screen::Welcome(w) => final(self)@.screen == old(self)@.screen && r is None,
                Screen::Countdown(c) => final(self)@.screen matches Screen::Countdown(d) && d@
                    == c@.ticked(now) && r == (if c@.phase_ends(now) {
                    Some(other_phase(c@.phase))
                } else {
                    None
                }),
            },
    {
        match &mut self.current_screen {
            Screen::Welcome(_) => None,
            Screen::Countdown(c) => c.update(now),
        }
    }

    /// Routes `key` at `now` and returns the intent that results; see
    /// [`intent_step`].
    fn intent_for(&mut self, key: Key, now: u64) -> (r: Option<Action>)
        requires
            old(self)@.wf(),
        ensures
            final(self)@.wf(),
            intent_step(old(self)@, key, now, final(self)@, r),
    {
        let typing = match &self.current_popup {
            Some(Popup::AddTask(p)) => p.is_editing_title() && match key {
                Key::Char(_) => true,
                _ => false,
            },
            _ => false,
        };
        if !typing && key == Key::Char('q') {
            return Some(Action::Quit);
        }
        if !typing && key == Key::Char('t') && self.current_popup.is_none() {
            return Some(Action::OpenPopup { popup: PopupRequest::TaskList { selected: 0 } });
        }
        match &mut self.current_popup {
            Some(Popup::TaskList(p)) => p.handle_key(key, &self.task_manager.tasks),
            Some(Popup::AddTask(p)) => p.handle_key(key),
            Some(Popup::Error(p)) => p.handle_key(key),
            None => match &mut self.current_screen {
                Screen::Welcome(w) => w.handle_key(key),
                Screen::Countdown(c) => {
                    c.handle_key(key, now);
                    None
                },
            },
        }
    }

    /// Handles one key press at `now`: routes it (see [`intent_step`]) and
    /// carries out the intent that results (see [`App::apply`]). Where the
    /// task list is to change, the list to write is returned, and the change
    /// waits for [`App::finish_save`]; keys that come while it waits are
    /// ignored, so the list never sees two changes at once.
    pub fn handle_key(&mut self, key: Key, now: u64) -> (r: Option<Vec<Task>>)
        requires
            old(self)@.wf(),
        ensures
            final(self)@.wf(),
            old(self)@.pending is Some ==> final(self)@ == old(self)@ && r is None,
            old(self)@.pending is None ==> exists|mid: AppModel, a: Option<Action>|
                #[trigger] intent_step(old(self)@, key, now, mid, a) && match a {
                    None => final(self)@ == mid && r is None,
                    Some(action) => applied(mid, action, now, final(self)@, r),
                },
    {
        if self.pending.is_some() {
            return None;
        }
        let a = self.intent_for(key, now);
        let ghost mid = self@;
        let r = match a {
            None => None,
            Some(action) => self.apply(action, now),
        };
        assert(intent_step(old(self)@, key, now, mid, a));
        r
    }

    /// Builds the popup that `request` asks for and puts it in the one popup
    /// slot, replacing any popup that was open.
    fn open_popup(&mut self, request: PopupRequest)
        requires
            old(self)@.wf(),
        ensures
            final(self)@.wf(),
            final(self)@.popup matches Some(p) && opened(p, request, old(self)@.tasks.len()),
            final(self)@ == (AppModel { popup: final(self)@.popup, ..old(self)@ }),
    {
        let popup = match request {
            PopupRequest::TaskList { selected } => Popup::TaskList(
                TaskListPopup::new(self.task_manager.tasks.len(), selected),
            ),
            PopupRequest::AddTask { opened_on } => Popup::AddTask(AddTaskPopup::new(opened_on)),
            PopupRequest::Error { message } => Popup::Error(ErrorPopup::new(message)),
        };
        self.current_popup = Some(popup);
    }

    /// Carries out `action` at `now`.
    ///
    /// `Quit` sets the exit flag. `SetDurations` keeps the durations and
    /// replaces the screen with a countdown that starts at `now`; durations
    /// under a minute are refused and change nothing. `AddTask` and
    /// `DeleteTask` return the list to write and wait for the outcome of that
    /// write (see [`App::finish_save`]); the list in memory does not change
    /// yet. `OpenPopup` puts the requested popup in the slot, replacing any
    /// other; `ClosePopup` empties it.
    pub fn apply(&mut self, action: Action, now: u64) -> (r: Option<Vec<Task>>)
        requires
            old(self)@.wf(),
            old(self)@.pending is None,
        ensures
            final(self)@.wf(),
            applied(old(self)@, action, now, final(self)@, r),
    {
        match action {
            Action::Quit => {
                self.exit = true;
                None
            },
            Action::SetDurations { work_duration_minutes, break_duration_minutes } => {
                if work_duration_minutes >= 1 && break_duration_minutes >= 1 {
                    self.work_duration_minutes = work_duration_minutes;
                    self.break_duration_minutes = break_duration_minutes;
                    self.current_screen = Screen::Countdown(
                        CountdownScreen::new(work_duration_minutes, break_duration_minutes, now),
                    );
                }
                None
            },
            Action::AddTask { task } => {
                if self.task_manager.tasks.len() < usize::MAX {
                    let staged = self.task_manager.with_added(&task);
                    self.pending = Some(PendingChange::Add(task));
                    Some(staged)
                } else {
                    None
                }
            },
            Action::DeleteTask { uuid } => {
                let staged = self.task_manager.without(uuid);
                self.pending = Some(PendingChange::Delete(uuid));
                Some(staged)
            },
            Action::OpenPopup { popup } => {
                self.open_popup(popup);
                None
            },
            Action::ClosePopup => {
                self.current_popup = None;
                None
            },
        }
    }

    /// Completes the waiting change with the outcome of its write. On success
    /// the change reaches the list: an added task is shown selected in the
    /// task list, and after a deletion an open task list keeps a selection
    /// that fits. On failure the list stays as it was and the error's message
    /// is shown in a popup. Without a waiting change nothing happens.
    pub fn finish_save(&mut self, saved: Result<(), SaveTaskError>)
        requires
            old(self)@.wf(),
        ensures
            final(self)@.wf(),
            final(self)@.pending is None,
            final(self)@.screen == old(self)@.screen,
            final(self)@.work == old(self)@.work,
            final(self)@.rest == old(self)@.rest,
            final(self)@.exit == old(self)@.exit,
            match old(self)@.pending {
                None => final(self)@ == old(self)@,
                Some(PendingChange::Add(task)) => final(self)@.tasks == after_add(
                    old(self)@.tasks,
                    task,
                    saved is Ok,
                ),
                Some(PendingChange::Delete(uuid)) => final(self)@.tasks == after_delete(
                    old(self)@.tasks,
                    uuid,
                    saved is Ok,
                ),
            },
            match saved {
                Err(e) => old(self)@.pending is Some ==> (final(self)@.popup matches Some(
                    Popup::Error(p),
                ) && p@ == save_error_text(e)),
                Ok(()) => match old(self)@.pending {
                    Some(PendingChange::Add(_)) => final(self)@.popup matches Some(
                        Popup::TaskList(p),
                    ) && p@ == Some(old(self)@.tasks.len() as usize),
                    Some(PendingChange::Delete(_)) => match old(self)@.popup {
                        Some(Popup::TaskList(p)) => final(self)@.popup matches Some(
                            Popup::TaskList(q),
                        ) && q@ == clamped(p@, final(self)@.tasks.len()),
                        other => final(self)@.popup == other,
                    },
                    None => true,
                },
            },
    {
        let pending = self.pending.take();
        match pending {
            None => {},
            Some(PendingChange::Add(task)) => {
                match self.task_manager.add_task(task, saved) {
                    Ok(idx) => {
                        let p = TaskListPopup::new(self.task_manager.tasks.len(), idx);
                        self.current_popup = Some(Popup::TaskList(p));
                    },
                    Err(e) => {
                        self.current_popup = Some(Popup::Error(ErrorPopup::new(e.message())));
                    },
                }
            },
            Some(PendingChange::Delete(uuid)) => {
                match self.task_manager.delete_task(uuid, saved) {
                    Ok(()) => {
                        let len = self.task_manager.tasks.len();
                        if let Some(Popup::TaskList(p)) = &mut self.current_popup {
                            p.fit_to(len);
                        }
                    },
                    Err(e) => {
                        self.current_popup = Some(Popup::Error(ErrorPopup::new(e.message())));
                    },
                }
            },
        }
    }
}

/// The welcome screen is only ever left for the countdown, and the countdown
/// is never left: neither routing a key nor carrying out an intent brings a
/// countdown back to the welcome screen.
pub proof fn lemma_countdown_is_never_left(
    before: AppModel,
    key: Key,
    action: Action,
    now: u64,
    mid: AppModel,
    a: Option<Action>,
    after: AppModel,
    staged: Option<Vec<Task>>,
)
    requires
        before.screen is Countdown,
    ensures
        intent_step(before, key, now, mid, a) ==> mid.screen is Countdown,
        applied(before, action, now, after, staged) ==> after.screen is Countdown,
{
}

} // verus!
