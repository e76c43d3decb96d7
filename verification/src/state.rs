//! The shared timer record and the operations that the countdown loop and
//! the user-facing controls perform on it.
//!
//! Every operation takes the whole record and leaves it in a consistent
//! state, so a caller that serializes the operations (for instance behind a
//! mutex) never exposes a partial update.

use vstd::prelude::*;

verus! {

/// The default work interval: 25 minutes.
pub const DEFAULT_WORK_SECONDS: usize = 1500;

/// The fixed break interval: 5 minutes.
pub const DEFAULT_BREAK_SECONDS: usize = 300;

/// The duration adjustment step, and the floor below which the work
/// interval cannot be decreased.
pub const DURATION_STEP_SECONDS: usize = 60;

/// The countdown timer: configured interval lengths, the remaining time,
/// the current phase and whether the countdown is running.
#[derive(Clone, Copy, PartialEq, Eq, Structural, Debug)]
pub struct TimerState {
    /// Length of the work interval, user-adjustable in steps of one minute.
    pub work_duration_seconds: usize,
    /// Length of the break interval, fixed.
    pub break_duration_seconds: usize,
    /// Seconds left in the current phase.
    pub remaining_seconds: usize,
    /// Current phase: `false` is work, `true` is break.
    pub on_break: bool,
    /// Whether the countdown is actively decrementing.
    pub running: bool,
}

/// One user-facing or clock-driven operation on the timer.
#[derive(Clone, Copy, PartialEq, Eq, Structural, Debug)]
pub enum TimerAction {
    /// One one-second step of the countdown loop.
    Tick,
    /// The "+1 min" control.
    IncreaseDuration,
    /// The "-1 min" control.
    DecreaseDuration,
    /// The "Start/Stop" control.
    ToggleRunning,
    /// The "Reset" control.
    Reset,
}

impl TimerState {
    /// Consistency of the record: the break interval is positive, and the
    /// work interval — only ever moved in whole steps — is a multiple of
    /// the step and never sinks below the adjustment floor of one step.
    pub open spec fn wf(self) -> bool {
        &&& self.work_duration_seconds >= DURATION_STEP_SECONDS
        &&& self.work_duration_seconds % DURATION_STEP_SECONDS == 0
        &&& self.break_duration_seconds > 0
    }

    /// Room to add one more step to the work interval without overflowing.
    pub open spec fn can_grow(self) -> bool {
        self.work_duration_seconds + DURATION_STEP_SECONDS <= usize::MAX
    }

    /// What one countdown tick yields: nothing while stopped; otherwise a
    /// decrement, or at zero a phase flip with the next phase's full
    /// duration.
    pub open spec fn spec_tick(self) -> TimerState {
        if !self.running {
            self
        } else if self.remaining_seconds > 0 {
            TimerState { remaining_seconds: (self.remaining_seconds - 1) as usize, ..self }
        } else if self.on_break {
            TimerState { remaining_seconds: self.work_duration_seconds, on_break: false, ..self }
        } else {
            TimerState { remaining_seconds: self.break_duration_seconds, on_break: true, ..self }
        }
    }

    /// What "+1 min" yields: one step more work time, and the countdown
    /// reset to the new full duration.
    pub open spec fn spec_increase_duration(self) -> TimerState {
        TimerState {
            work_duration_seconds: (self.work_duration_seconds + DURATION_STEP_SECONDS) as usize,
            remaining_seconds: (self.work_duration_seconds + DURATION_STEP_SECONDS) as usize,
            ..self
        }
    }

    /// What "-1 min" yields: one step less work time, floored at one step,
    /// and the countdown reset to the resulting duration.
    pub open spec fn spec_decrease_duration(self) -> TimerState {
        if self.work_duration_seconds > DURATION_STEP_SECONDS {
            TimerState {
                work_duration_seconds: (self.work_duration_seconds
                    - DURATION_STEP_SECONDS) as usize,
                remaining_seconds: (self.work_duration_seconds - DURATION_STEP_SECONDS) as usize,
                ..self
            }
        } else {
            TimerState { remaining_seconds: self.work_duration_seconds, ..self }
        }
    }

    /// What "Start/Stop" yields: the running flag flipped.
    pub open spec fn spec_toggle_running(self) -> TimerState {
        TimerState { running: !self.running, ..self }
    }

    /// What "Reset" yields: stopped, in the work phase, with the full work
    /// duration remaining.
    pub open spec fn spec_reset(self) -> TimerState {
        TimerState {
            remaining_seconds: self.work_duration_seconds,
            on_break: false,
            running: false,
            ..self
        }
    }

    /// What each action yields, as one transition function.
    pub open spec fn spec_apply(self, action: TimerAction) -> TimerState {
        match action {
            TimerAction::Tick => self.spec_tick(),
            TimerAction::IncreaseDuration => self.spec_increase_duration(),
            TimerAction::DecreaseDuration => self.spec_decrease_duration(),
            TimerAction::ToggleRunning => self.spec_toggle_running(),
            TimerAction::Reset => self.spec_reset(),
        }
    }

    /// The starting state: work phase, stopped, with the default work
    /// interval fully remaining.
    pub fn new() -> (s: TimerState)
        ensures
            s.work_duration_seconds == DEFAULT_WORK_SECONDS,
            s.break_duration_seconds == DEFAULT_BREAK_SECONDS,
            s.remaining_seconds == DEFAULT_WORK_SECONDS,
            !s.on_break,
            !s.running,
            s.wf(),
    {
        TimerState {
            work_duration_seconds: DEFAULT_WORK_SECONDS,
            break_duration_seconds: DEFAULT_BREAK_SECONDS,
            remaining_seconds: DEFAULT_WORK_SECONDS,
            on_break: false,
            running: false,
        }
    }

    /// One one-second step of the countdown loop. While stopped it changes
    /// nothing; while running it decrements the remaining time, and at zero
    /// it flips the phase exactly once and loads the next phase's duration.
    pub fn tick(&mut self)
        ensures
            *final(self) == old(self).spec_tick(),
    {
        if self.running {
            if self.remaining_seconds > 0 {
                self.remaining_seconds = self.remaining_seconds - 1;
            } else if self.on_break {
                self.remaining_seconds = self.work_duration_seconds;
                self.on_break = false;
            } else {
                self.remaining_seconds = self.break_duration_seconds;
                self.on_break = true;
            }
        }
    }

    /// Whether one more step fits the machine word, so that
    /// `increase_duration` may be called.
    pub fn can_increase(&self) -> (r: bool)
        ensures
            r == self.can_grow(),
    {
        self.work_duration_seconds <= usize::MAX - DURATION_STEP_SECONDS
    }

    /// The "+1 min" control: adds exactly one step to the work interval and
    /// resets the countdown to the new full duration, whether or not the
    /// timer is running.
    pub fn increase_duration(&mut self)
        requires
            old(self).can_grow(),
        ensures
            *final(self) == old(self).spec_increase_duration(),
    {
        self.work_duration_seconds = self.work_duration_seconds + DURATION_STEP_SECONDS;
        self.remaining_seconds = self.work_duration_seconds;
    }

    /// The "-1 min" control: subtracts one step from the work interval
    /// unless that would take it below the floor, and resets the countdown
    /// to the resulting duration.
    pub fn decrease_duration(&mut self)
        ensures
            *final(self) == old(self).spec_decrease_duration(),
    {
        if self.work_duration_seconds > DURATION_STEP_SECONDS {
            self.work_duration_seconds = self.work_duration_seconds - DURATION_STEP_SECONDS;
        }
        self.remaining_seconds = self.work_duration_seconds;
    }

    /// The "Start/Stop" control: flips the running flag and nothing else.
    pub fn toggle_running(&mut self)
        ensures
            *final(self) == old(self).spec_toggle_running(),
    {
        self.running = !self.running;
    }

    /// The "Reset" control: stops the countdown, returns to the work phase
    /// and restores the full work duration, from any prior state.
    pub fn reset(&mut self)
        ensures
            *final(self) == old(self).spec_reset(),
    {
        self.running = false;
        self.on_break = false;
        self.remaining_seconds = self.work_duration_seconds;
    }
}

/// Every action maps a consistent state to a consistent state; the interval
/// lengths it yields fit the machine word, so no action can overflow.
pub proof fn lemma_action_preserves_wf(s: TimerState, action: TimerAction)
    requires
        s.wf(),
        action is IncreaseDuration ==> s.can_grow(),
    ensures
        s.spec_apply(action).wf(),
{
}

/// Any two operations invoked back to back — the serialization a mutex
/// imposes on two concurrent control actions, in either order — pass
/// through whole, consistent states only: the state after the first action
/// and the state after the second both satisfy the record's consistency
/// condition, with every field defined.
pub proof fn lemma_serialized_actions_consistent(
    s: TimerState,
    first: TimerAction,
    second: TimerAction,
)
    requires
        s.wf(),
        first is IncreaseDuration ==> s.can_grow(),
        second is IncreaseDuration ==> s.spec_apply(first).can_grow(),
    ensures
        s.spec_apply(first).wf(),
        s.spec_apply(first).spec_apply(second).wf(),
{
    lemma_action_preserves_wf(s, first);
    lemma_action_preserves_wf(s.spec_apply(first), second);
}

} // verus!
