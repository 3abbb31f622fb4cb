//! The countdown engine: a work phase and a break phase that follow each
//! other, with pause and resume.
//!
//! Time is a millisecond timestamp handed in by the caller (`now`); it is
//! expected to come from a monotonic clock. Durations are milliseconds.
use vstd::prelude::*;
use crate::keys::Key;

verus! {

/// Milliseconds in a minute.
pub const MILLIS_PER_MINUTE: u64 = 60000;

/// Minutes as milliseconds, saturating at the largest `u64`.
pub open spec fn minutes_to_millis(m: u64) -> u64 {
    if m * MILLIS_PER_MINUTE <= u64::MAX {
        (m * MILLIS_PER_MINUTE) as u64
    } else {
        u64::MAX
    }
}

/// The two phases of the timer.
#[derive(Clone, Copy, Debug, PartialEq, Eq, Structural)]
pub enum CountdownType {
    Work,
    Break,
}

/// The other phase.
pub open spec fn other_phase(p: CountdownType) -> CountdownType {
    match p {
        CountdownType::Work => CountdownType::Break,
        CountdownType::Break => CountdownType::Work,
    }
}

/// Time gone by between `start` and `now`; a `now` before `start` counts as none.
pub open spec fn elapsed(start: u64, now: u64) -> nat {
    if now >= start {
        (now - start) as nat
    } else {
        0
    }
}

/// `total - elapsed(start, now)`, or zero once that much time has gone by.
pub open spec fn saturating_remaining(total: u64, start: u64, now: u64) -> u64 {
    if elapsed(start, now) < total {
        (total - elapsed(start, now)) as u64
    } else {
        0
    }
}

/// The share of `total` that is done when `remaining` is left, in whole percent
/// rounded down.
pub open spec fn percent_done(total: u64, remaining: u64) -> int {
    (total - remaining) * 100 / (total as int)
}

/// The state of a countdown as plain values.
pub struct CountdownModel {
    /// The instant from which the running phase's elapsed time is counted.
    pub start: u64,
    /// The length of the current phase.
    pub total: u64,
    /// What was left when the countdown was paused; `None` while it runs.
    pub paused_remaining: Option<u64>,
    /// The configured length of a work phase.
    pub work: u64,
    /// The configured length of a break phase.
    pub rest: u64,
    /// The current phase.
    pub phase: CountdownType,
}

impl CountdownModel {
    pub open spec fn is_paused(self) -> bool {
        self.paused_remaining is Some
    }

    /// The configured length of phase `p`.
    pub open spec fn configured(self, p: CountdownType) -> u64 {
        match p {
            CountdownType::Work => self.work,
            CountdownType::Break => self.rest,
        }
    }

    /// Phases last at least a millisecond, the current one as configured, and
    /// a paused countdown never has more left than its phase's length.
    pub open spec fn wf(self) -> bool {
        &&& self.work >= 1
        &&& self.rest >= 1
        &&& self.total == self.configured(self.phase)
        &&& (self.paused_remaining matches Some(r) ==> r <= self.total)
    }

    /// What is left of the current phase at `now`.
    pub open spec fn remaining(self, now: u64) -> u64 {
        match self.paused_remaining {
            Some(r) => r,
            None => saturating_remaining(self.total, self.start, now),
        }
    }

    /// The state after the pause key is pressed at `now`: a running countdown
    /// keeps what is left; a paused one moves its start forward so that the
    /// time spent paused does not count.
    pub open spec fn toggled(self, now: u64) -> CountdownModel {
        match self.paused_remaining {
            Some(r) => CountdownModel {
                start: if now >= self.total - r { (now - (self.total - r)) as u64 } else { 0 },
                paused_remaining: None,
                ..self
            },
            None => CountdownModel {
                paused_remaining: Some(saturating_remaining(self.total, self.start, now)),
                ..self
            },
        }
    }

    /// Whether a tick at `now` ends the current phase.
    pub open spec fn phase_ends(self, now: u64) -> bool {
        !self.is_paused() && self.remaining(now) == 0
    }

    /// The state after a tick at `now`: a running phase that has no time left
    /// gives way to the other phase, which starts at `now`.
    pub open spec fn ticked(self, now: u64) -> CountdownModel {
        if self.phase_ends(now) {
            CountdownModel {
                start: now,
                total: self.configured(other_phase(self.phase)),
                paused_remaining: None,
                phase: other_phase(self.phase),
                ..self
            }
        } else {
            self
        }
    }
}

/// The countdown screen: the engine's state and the two configured lengths.
pub struct CountdownScreen {
    start_time: u64,
    total_duration: u64,
    is_paused: bool,
    remaining_time_when_paused: Option<u64>,
    work_duration: u64,
    break_duration: u64,
    countdown_type: CountdownType,
}

impl View for CountdownScreen {
    type V = CountdownModel;

    closed spec fn view(&self) -> CountdownModel {
        CountdownModel {
            start: self.start_time,
            total: self.total_duration,
            paused_remaining: self.remaining_time_when_paused,
            work: self.work_duration,
            rest: self.break_duration,
            phase: self.countdown_type,
        }
    }
}

fn minutes_as_millis(m: u64) -> (r: u64)
    ensures
        r == minutes_to_millis(m),
{
    if m <= u64::MAX / MILLIS_PER_MINUTE {
        assert(m * MILLIS_PER_MINUTE <= u64::MAX) by (nonlinear_arith)
            requires
                m <= u64::MAX / MILLIS_PER_MINUTE,
                MILLIS_PER_MINUTE == 60000,
        ;
        m * MILLIS_PER_MINUTE
    } else {
        assert(m * MILLIS_PER_MINUTE > u64::MAX) by (nonlinear_arith)
            requires
                m > u64::MAX / MILLIS_PER_MINUTE,
                MILLIS_PER_MINUTE == 60000,
        ;
        u64::MAX
    }
}

fn saturating_left(total: u64, start: u64, now: u64) -> (r: u64)
    ensures
        r == saturating_remaining(total, start, now),
{
    let gone: u64 = now.saturating_sub(start);
    total.saturating_sub(gone)
}

impl CountdownScreen {
    /// The engine's invariant, with the paused flag in step with the snapshot.
    pub closed spec fn wf(&self) -> bool {
        &&& self@.wf()
        &&& self.is_paused == (self.remaining_time_when_paused is Some)
    }

    /// A running work phase that starts at `now`.
    pub fn new(work_duration_minutes: u64, break_duration_minutes: u64, now: u64) -> (r: Self)
        requires
            work_duration_minutes >= 1,
            break_duration_minutes >= 1,
        ensures
            r.wf(),
            r@ == (CountdownModel {
                start: now,
                total: minutes_to_millis(work_duration_minutes),
                paused_remaining: None,
                work: minutes_to_millis(work_duration_minutes),
                rest: minutes_to_millis(break_duration_minutes),
                phase: CountdownType::Work,
            }),
    {
        let work = minutes_as_millis(work_duration_minutes);
        let rest = minutes_as_millis(break_duration_minutes);
        CountdownScreen {
            start_time: now,
            total_duration: work,
            is_paused: false,
            remaining_time_when_paused: None,
            work_duration: work,
            break_duration: rest,
            countdown_type: CountdownType::Work,
        }
    }

    /// What is left of the current phase at `now`.
    pub fn remaining_duration(&self, now: u64) -> (r: u64)
        ensures
            r == self@.remaining(now),
    {
        match self.remaining_time_when_paused {
            Some(remaining_time) => remaining_time,
            None => saturating_left(self.total_duration, self.start_time, now),
        }
    }

    pub fn is_paused(&self) -> (r: bool)
        requires
            self.wf(),
        ensures
            r == self@.is_paused(),
    {
        self.is_paused
    }

    pub fn countdown_type(&self) -> (r: CountdownType)
        ensures
            r == self@.phase,
    {
        self.countdown_type
    }

    pub fn total_duration(&self) -> (r: u64)
        ensures
            r == self@.total,
    {
        self.total_duration
    }

    /// Pauses a running countdown, or resumes a paused one.
    pub fn toggle_pause(&mut self, now: u64)
        requires
            old(self).wf(),
        ensures
            final(self).wf(),
            final(self)@ == old(self)@.toggled(now),
    {
        if self.is_paused {
            if let Some(remaining_time) = self.remaining_time_when_paused {
                let elapsed_before_pause = self.total_duration - remaining_time;
                self.start_time = now.saturating_sub(elapsed_before_pause);
            }
            self.remaining_time_when_paused = None;
            self.is_paused = false;
        } else {
            self.remaining_time_when_paused = Some(
                saturating_left(self.total_duration, self.start_time, now),
            );
            self.is_paused = true;
        }
    }

    /// The space bar pauses and resumes; every other key is ignored.
    pub fn handle_key(&mut self, key: Key, now: u64)
        requires
            old(self).wf(),
        ensures
            final(self).wf(),
            final(self)@ == (if key == Key::Char(' ') {
                old(self)@.toggled(now)
            } else {
                old(self)@
            }),
    {
        if let Key::Char(' ') = key {
            self.toggle_pause(now);
        }
    }

    /// Advances the timer at `now`. When a running phase has no time left,
    /// the other phase starts at `now` with its configured length, and that
    /// phase is returned so that its start can be announced.
    pub fn update(&mut self, now: u64) -> (r: Option<CountdownType>)
        requires
            old(self).wf(),
        ensures
            final(self).wf(),
            final(self)@ == old(self)@.ticked(now),
            r == (if old(self)@.phase_ends(now) {
                Some(other_phase(old(self)@.phase))
            } else {
                None
            }),
    {
        if !self.is_paused && self.remaining_duration(now) == 0 {
            self.countdown_type = match self.countdown_type {
                CountdownType::Work => CountdownType::Break,
                CountdownType::Break => CountdownType::Work,
            };
            self.total_duration = match self.countdown_type {
                CountdownType::Work => self.work_duration,
                CountdownType::Break => self.break_duration,
            };
            self.start_time = now;
            self.remaining_time_when_paused = None;
            Some(self.countdown_type)
        } else {
            None
        }
    }

    /// The share of the current phase that is done at `now`, in whole percent.
    pub fn percent_complete(&self, now: u64) -> (r: u64)
        requires
            self.wf(),
        ensures
            r == percent_done(self@.total, self@.remaining(now)),
            r <= 100,
    {
        let total = self.total_duration;
        let remaining = self.remaining_duration(now);
        proof {
            lemma_remaining_at_most_total(self@, now);
            lemma_percent_bounded(total, remaining);
        }
        let done: u128 = (total - remaining) as u128;
        let r: u128 = done * 100 / (total as u128);
        r as u64
    }

    /// What is left at `now`, in whole seconds, as hours, minutes and seconds.
    pub fn remaining_clock(&self, now: u64) -> (r: (u64, u64, u64))
        ensures
            r.0 == self@.remaining(now) / 1000 / 3600,
            r.1 == self@.remaining(now) / 1000 / 60 % 60,
            r.2 == self@.remaining(now) / 1000 % 60,
    {
        let seconds: u64 = self.remaining_duration(now) / 1000;
        (seconds / 3600, seconds / 60 % 60, seconds % 60)
    }
}

impl CountdownType {
    /// The label of the phase's progress gauge.
    pub fn label(&self) -> (r: String)
        ensures
            r@ == (match *self {
                CountdownType::Work => "Work countdown"@,
                CountdownType::Break => "Break countdown"@,
            }),
    {
        match self {
            CountdownType::Work => String::from_str("Work countdown"),
            CountdownType::Break => String::from_str("Break countdown"),
        }
    }

    /// The summary of the notice that announces the start of the phase.
    pub fn notice_summary(&self) -> (r: String)
        ensures
            r@ == (match *self {
                CountdownType::Work => "Work time started"@,
                CountdownType::Break => "Break time started"@,
            }),
    {
        match self {
            CountdownType::Work => String::from_str("Work time started"),
            CountdownType::Break => String::from_str("Break time started"),
        }
    }

    /// The body of the notice that announces the start of the phase.
    pub fn notice_body(&self) -> (r: String)
        ensures
            r@ == (match *self {
                CountdownType::Work => "The work countdown has started, please focus!"@,
                CountdownType::Break => "The break countdown has started, please take some time to relax!"@,
            }),
    {
        match self {
            CountdownType::Work => String::from_str("The work countdown has started, please focus!"),
            CountdownType::Break => String::from_str(
                "The break countdown has started, please take some time to relax!",
            ),
        }
    }
}

/// What is left never exceeds the phase's length, and while the countdown
/// runs it is the length less the elapsed time, or zero once the length has
/// gone by: it never goes below zero, however much time has passed.
pub proof fn lemma_remaining_at_most_total(s: CountdownModel, now: u64)
    requires
        s.wf(),
    ensures
        0 <= s.remaining(now) <= s.total,
        !s.is_paused() ==> s.remaining(now) == (if elapsed(s.start, now) < s.total {
            s.total - elapsed(s.start, now)
        } else {
            0
        }),
{
}

/// Pausing at `paused_at` and resuming at any later `resumed_at` leaves
/// exactly what was left at the pause, and nothing runs off while paused.
pub proof fn lemma_pause_resume_keeps_remaining(
    s: CountdownModel,
    paused_at: u64,
    resumed_at: u64,
)
    requires
        s.wf(),
        !s.is_paused(),
        paused_at <= resumed_at,
    ensures
        s.toggled(paused_at).remaining(resumed_at) == s.remaining(paused_at),
        !s.toggled(paused_at).toggled(resumed_at).is_paused(),
        s.toggled(paused_at).toggled(resumed_at).remaining(resumed_at) == s.remaining(paused_at),
{
}

/// The share done is a whole percentage between 0 and 100 whenever the
/// phase lasts at least one unit and no more than it is left.
pub proof fn lemma_percent_bounded(total: u64, remaining: u64)
    requires
        total >= 1,
        remaining <= total,
    ensures
        0 <= percent_done(total, remaining) <= 100,
{
    let done: int = total - remaining;
    assert(0 <= done * 100 / (total as int) <= 100) by (nonlinear_arith)
        requires
            0 <= done <= total,
            total >= 1,
    ;
}

/// Ticks keep the invariant, and a phase change swaps the phase and starts
/// the new one, fully ahead, with its configured length.
pub proof fn lemma_tick_switches_phase(s: CountdownModel, now: u64)
    requires
        s.wf(),
        s.phase_ends(now),
    ensures
        s.ticked(now).wf(),
        s.ticked(now).phase == other_phase(s.phase),
        s.ticked(now).total == s.configured(other_phase(s.phase)),
        s.ticked(now).remaining(now) == s.ticked(now).total,
        !s.ticked(now).phase_ends(now),
{
}

} // verus!
