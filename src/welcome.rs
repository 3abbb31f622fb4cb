//! The welcome screen, where the work and break durations are chosen.
use vstd::prelude::*;
use crate::app::Action;
use crate::keys::Key;

verus! {

/// The minutes that a work phase lasts unless changed.
pub const DEFAULT_WORK_DURATION_MINUTES: u64 = 45;

/// The minutes that a break lasts unless changed.
pub const DEFAULT_BREAK_DURATION_MINUTES: u64 = 10;

/// Which of the two durations the arrow keys change.
#[derive(Clone, Copy, Debug, PartialEq, Eq, Structural)]
pub enum SelectedDuration {
    Work,
    Break,
}

/// The welcome screen as plain values.
pub struct WelcomeModel {
    pub work: u64,
    pub rest: u64,
    pub selected: SelectedDuration,
}

/// One more minute, saturating at the largest `u64`.
pub open spec fn minute_more(m: u64) -> u64 {
    if m < u64::MAX {
        (m + 1) as u64
    } else {
        m
    }
}

/// One minute less, never below one minute.
pub open spec fn minute_less(m: u64) -> u64 {
    if m > 1 {
        (m - 1) as u64
    } else {
        1
    }
}

impl WelcomeModel {
    /// Both durations are at least a minute.
    pub open spec fn wf(self) -> bool {
        self.work >= 1 && self.rest >= 1
    }

    /// The screen after `key`, Enter aside.
    pub open spec fn after_key(self, key: Key) -> WelcomeModel {
        match key {
            Key::Tab | Key::Up | Key::Down => WelcomeModel {
                selected: match self.selected {
                    SelectedDuration::Work => SelectedDuration::Break,
                    SelectedDuration::Break => SelectedDuration::Work,
                },
                ..self
            },
            Key::Left => match self.selected {
                SelectedDuration::Work => WelcomeModel { work: minute_less(self.work), ..self },
                SelectedDuration::Break => WelcomeModel { rest: minute_less(self.rest), ..self },
            },
            Key::Right => match self.selected {
                SelectedDuration::Work => WelcomeModel { work: minute_more(self.work), ..self },
                SelectedDuration::Break => WelcomeModel { rest: minute_more(self.rest), ..self },
            },
            _ => self,
        }
    }
}

pub struct WelcomeScreen {
    work_duration_minutes: u64,
    break_duration_minutes: u64,
    selected_duration: SelectedDuration,
}

impl View for WelcomeScreen {
    type V = WelcomeModel;

    closed spec fn view(&self) -> WelcomeModel {
        WelcomeModel {
            work: self.work_duration_minutes,
            rest: self.break_duration_minutes,
            selected: self.selected_duration,
        }
    }
}

impl WelcomeScreen {
    /// The default durations, with the work duration selected.
    pub fn new() -> (r: Self)
        ensures
            r@ == (WelcomeModel {
                work: DEFAULT_WORK_DURATION_MINUTES,
                rest: DEFAULT_BREAK_DURATION_MINUTES,
                selected: SelectedDuration::Work,
            }),
            r@.wf(),
    {
        WelcomeScreen {
            work_duration_minutes: DEFAULT_WORK_DURATION_MINUTES,
            break_duration_minutes: DEFAULT_BREAK_DURATION_MINUTES,
            selected_duration: SelectedDuration::Work,
        }
    }

    pub fn work_duration_minutes(&self) -> (r: u64)
        ensures
            r == self@.work,
    {
        self.work_duration_minutes
    }

    pub fn break_duration_minutes(&self) -> (r: u64)
        ensures
            r == self@.rest,
    {
        self.break_duration_minutes
    }

    pub fn selected_duration(&self) -> (r: SelectedDuration)
        ensures
            r == self@.selected,
    {
        self.selected_duration
    }

    pub fn increase_work_duration(&mut self)
        ensures
            final(self)@ == (WelcomeModel { work: minute_more(old(self)@.work), ..old(self)@ }),
    {
        self.work_duration_minutes = self.work_duration_minutes.saturating_add(1);
    }

    pub fn decrease_work_duration(&mut self)
        ensures
            final(self)@ == (WelcomeModel { work: minute_less(old(self)@.work), ..old(self)@ }),
    {
        let m = self.work_duration_minutes.saturating_sub(1);
        self.work_duration_minutes = if m < 1 { 1 } else { m };
    }

    pub fn increase_break_duration(&mut self)
        ensures
            final(self)@ == (WelcomeModel { rest: minute_more(old(self)@.rest), ..old(self)@ }),
    {
        self.break_duration_minutes = self.break_duration_minutes.saturating_add(1);
    }

    pub fn decrease_break_duration(&mut self)
        ensures
            final(self)@ == (WelcomeModel { rest: minute_less(old(self)@.rest), ..old(self)@ }),
    {
        let m = self.break_duration_minutes.saturating_sub(1);
        self.break_duration_minutes = if m < 1 { 1 } else { m };
    }

    /// Enter confirms the chosen durations; Tab, Up and Down switch the
    /// selected duration; Left and Right change it by a minute.
    pub fn handle_key(&mut self, key: Key) -> (r: Option<Action>)
        ensures
            key == Key::Enter ==> final(self)@ == old(self)@ && r == Some(
                Action::SetDurations {
                    work_duration_minutes: old(self)@.work,
                    break_duration_minutes: old(self)@.rest,
                },
            ),
            key != Key::Enter ==> final(self)@ == old(self)@.after_key(key) && r is None,
            old(self)@.wf() ==> final(self)@.wf(),
    {
        match key {
            Key::Enter => Some(
                Action::SetDurations {
                    work_duration_minutes: self.work_duration_minutes,
                    break_duration_minutes: self.break_duration_minutes,
                },
            ),
            Key::Tab | Key::Up | Key::Down => {
                self.selected_duration = match self.selected_duration {
                    SelectedDuration::Work => SelectedDuration::Break,
                    SelectedDuration::Break => SelectedDuration::Work,
                };
                None
            },
            Key::Left => {
                match self.selected_duration {
                    SelectedDuration::Work => self.decrease_work_duration(),
                    SelectedDuration::Break => self.decrease_break_duration(),
                }
                None
            },
            Key::Right => {
                match self.selected_duration {
                    SelectedDuration::Work => self.increase_work_duration(),
                    SelectedDuration::Break => self.increase_break_duration(),
                }
                None
            },
            _ => None,
        }
    }
}

} // verus!
