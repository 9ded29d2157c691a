use vstd::prelude::*;

verus! {

/// The coarse state of a standalone pomodoro session.
#[derive(Debug, Clone)]
pub enum TimerState {
    STOPPED,
    RUNNING,
    PAUSED,
    IDLE,
}

/// Whether a standalone session counts work or a break.
#[derive(Debug, Clone)]
pub enum SessionType {
    WORK,
    BREAK,
}

/// A standalone pomodoro: one configured duration and a tick-counted elapsed
/// figure, both in seconds, with a coarse state.
#[derive(Debug, Clone)]
pub struct Pomodoro {
    // Configuration
    pub duration: u64,
    // State
    pub timer_state: TimerState,
    pub session_type: SessionType,
    // Timing
    pub elapsed: u64,
    // Settings
    pub current_task: Option<String>,
    pub auto_continue: bool,
    pub enable_notification: bool,
}

impl Default for Pomodoro {
    fn default() -> (r: Self)
        ensures
            r.duration == 1500,
            r.timer_state is IDLE,
            r.session_type is WORK,
            r.elapsed == 0,
            r.current_task is None,
            r.auto_continue,
            r.enable_notification,
    {
        Self {
            duration: 1500,  // 25 minutes
            timer_state: TimerState::IDLE,
            session_type: SessionType::WORK,
            elapsed: 0,
            current_task: None,
            auto_continue: true,
            enable_notification: true,
        }
    }
}

impl Pomodoro {
    pub fn get_duration(&self) -> (d: u64)
        ensures
            d == self.duration,
    {
        self.duration
    }

    pub fn set_duration(&mut self, duration: u64)
        ensures
            *final(self) == (Pomodoro { duration, ..*old(self) }),
    {
        self.duration = duration
    }

    /// Begin running from any state; a session already running keeps running.
    pub fn start(&mut self)
        ensures
            *final(self) == (Pomodoro { timer_state: TimerState::RUNNING, ..*old(self) }),
    {
        match self.timer_state {
            TimerState::RUNNING => {},
            TimerState::PAUSED | TimerState::STOPPED | TimerState::IDLE => {
                self.timer_state = TimerState::RUNNING;
            },
        }
    }

    pub fn start_current_session(&mut self)
        ensures
            *final(self) == (Pomodoro { timer_state: TimerState::RUNNING, ..*old(self) }),
    {
        self.timer_state = TimerState::RUNNING;
    }

    /// One tick: while running, one second of elapsed time accrues.
    pub fn update(&mut self)
        requires
            old(self).timer_state is RUNNING ==> old(self).elapsed < u64::MAX,
        ensures
            *final(self) == (Pomodoro {
                elapsed: if old(self).timer_state is RUNNING {
                    (old(self).elapsed + 1) as u64
                } else {
                    old(self).elapsed
                },
                ..*old(self)
            }),
    {
        if let TimerState::RUNNING = self.timer_state {
            self.elapsed = self.elapsed + 1;
        }
    }

    pub fn complete_session(&mut self)
        ensures
            *final(self) == (Pomodoro { timer_state: TimerState::STOPPED, ..*old(self) }),
    {
        self.timer_state = TimerState::STOPPED;
    }
}

} // verus!
