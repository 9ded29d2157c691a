use crate::events::{
    completed_event, paused_event, push_capped, resumed_event, started_event, terminated_event,
    LogEvent, MAX_EMIT_EVENTS,
};
use crate::sys;
use vstd::prelude::*;

verus! {

/// A named duration profile: each preset fixes one (work, break) pair of
/// durations, and selecting a preset is the only way the pair changes.
#[derive(Debug, Clone, Copy, PartialEq, Eq, Structural)]
pub enum Preset {
    Short,
    Long,
    Test,
}

impl Default for Preset {
    fn default() -> (r: Self)
        ensures
            r == Preset::Short,
    {
        Preset::Short
    }
}

impl Preset {
    pub open spec fn spec_label(self) -> Seq<char> {
        match self {
            Preset::Short => "Short"@,
            Preset::Long => "Long"@,
            Preset::Test => "Test"@,
        }
    }

    /// The preset's display name.
    pub fn label(&self) -> (s: String)
        ensures
            s@ == self.spec_label(),
    {
        match self {
            Preset::Short => "Short".to_owned(),
            Preset::Long => "Long".to_owned(),
            Preset::Test => "Test".to_owned(),
        }
    }
}

/// Whether the current or next session is a work or a break interval.
#[derive(Debug, Clone, Copy, PartialEq, Eq, Structural)]
pub enum TimerMode {
    Work,
    Break,
}

impl Default for TimerMode {
    fn default() -> (r: Self)
        ensures
            r == TimerMode::Work,
    {
        TimerMode::Work
    }
}

impl TimerMode {
    pub open spec fn spec_toggle(self) -> TimerMode {
        match self {
            TimerMode::Work => TimerMode::Break,
            TimerMode::Break => TimerMode::Work,
        }
    }

    /// Modes flip deterministically: Work to Break and Break to Work.
    pub fn toggle(self) -> (r: Self)
        ensures
            r == self.spec_toggle(),
    {
        match self {
            TimerMode::Work => TimerMode::Break,
            TimerMode::Break => TimerMode::Work,
        }
    }

    pub open spec fn spec_duration(self, d: Durations) -> u64 {
        match self {
            TimerMode::Work => d.work,
            TimerMode::Break => d.brk,
        }
    }

    /// The configured full duration of this mode under the given profile.
    pub fn duration(self, d: &Durations) -> (r: u64)
        ensures
            r == self.spec_duration(*d),
    {
        match self {
            TimerMode::Work => d.work,
            TimerMode::Break => d.brk,
        }
    }

    pub open spec fn spec_label(self) -> Seq<char> {
        match self {
            TimerMode::Work => "Work"@,
            TimerMode::Break => "Break"@,
        }
    }

    /// The mode's display name.
    pub fn label(&self) -> (s: String)
        ensures
            s@ == self.spec_label(),
    {
        match self {
            TimerMode::Work => "Work".to_owned(),
            TimerMode::Break => "Break".to_owned(),
        }
    }
}

/// The (work, break) durations of a preset, in seconds.
#[derive(Debug, Clone, Copy, PartialEq, Eq, Structural)]
pub struct Durations {
    pub work: u64,
    pub brk: u64,
}

impl Durations {
    pub open spec fn spec_for_preset(p: Preset) -> Durations {
        match p {
            // 25 / 5 minutes
            Preset::Short => Durations { work: 1500, brk: 300 },
            // 50 / 10 minutes
            Preset::Long => Durations { work: 3000, brk: 600 },
            // 5 / 5 seconds
            Preset::Test => Durations { work: 5, brk: 5 },
        }
    }

    /// The fixed duration pair that the preset names.
    pub fn for_preset(p: Preset) -> (d: Self)
        ensures
            d == Durations::spec_for_preset(p),
    {
        match p {
            Preset::Short => Durations { work: 1500, brk: 300 },
            Preset::Long => Durations { work: 3000, brk: 600 },
            Preset::Test => Durations { work: 5, brk: 5 },
        }
    }
}

impl Default for Durations {
    fn default() -> (r: Self)
        ensures
            r == Durations::spec_for_preset(Preset::Short),
    {
        Durations::for_preset(Preset::Short)
    }
}

/// A read-only snapshot of the engine, built on demand and safe to hand out.
#[derive(Debug, Clone)]
pub struct TimerStatus {
    pub mode: String,
    pub remaining: u64,
    pub preset: String,
    pub is_paused: bool,
    pub is_idle: bool,
    pub is_running: bool,
    pub task: String,
}

/// The abstract state of the engine: every field of [`Timer`], with the event
/// log as a sequence.
#[verifier::ext_equal]
pub struct TimerView {
    pub started_at: Option<u64>,
    pub remaining: u64,
    pub mode: TimerMode,
    pub preset: Preset,
    pub durs: Durations,
    pub paused: bool,
    pub idle: bool,
    pub auto_continue: bool,
    pub task: String,
    pub id: Option<u128>,
    pub events: Seq<LogEvent>,
}

/// The run state that the pair (`started_at`, `paused`) encodes.
#[derive(Debug, Clone, Copy, PartialEq, Eq, Structural)]
pub enum RunState {
    Idle,
    Running,
    Paused,
}

pub open spec fn run_state(v: TimerView) -> RunState {
    if v.started_at is Some {
        RunState::Running
    } else if v.paused {
        RunState::Paused
    } else {
        RunState::Idle
    }
}

/// The configuration part of well-formedness: the duration pair consistent
/// with the preset, and the event log within its bound. This part alone is
/// what `reset` needs to restore the rest.
pub open spec fn config_inv(v: TimerView) -> bool {
    &&& v.durs == Durations::spec_for_preset(v.preset)
    &&& v.events.len() <= MAX_EMIT_EVENTS
}

/// The well-formedness of an engine state: never running and paused at once,
/// a session identifier held exactly while not idle, the duration pair
/// consistent with the preset, the banked time within the mode's configured
/// duration, and the event log within its bound.
pub open spec fn inv(v: TimerView) -> bool {
    &&& !(v.started_at is Some && v.paused)
    &&& (v.id is Some <==> !v.idle)
    &&& (v.idle ==> v.started_at is None && !v.paused)
    &&& config_inv(v)
    &&& v.remaining <= v.mode.spec_duration(v.durs)
}

/// The live remaining seconds of state `v` at clock sample `now`: the banked
/// figure while not running, and the banked figure less the time elapsed
/// since the session started (never below zero) while running.
pub open spec fn live_remaining(v: TimerView, now: u64) -> u64 {
    match v.started_at {
        Some(t0) => {
            if now < t0 {
                v.remaining
            } else if now - t0 >= v.remaining {
                0u64
            } else {
                (v.remaining - (now - t0)) as u64
            }
        },
        None => v.remaining,
    }
}

/// The state after `reset`: idle, no session, no pause, and the banked time
/// restored to the active mode's configured full duration.
pub open spec fn reset_spec(v: TimerView) -> TimerView {
    TimerView {
        idle: true,
        remaining: v.mode.spec_duration(v.durs),
        started_at: None,
        id: None,
        paused: false,
        ..v
    }
}

/// The state after draining: the event log empty, everything else unchanged.
pub open spec fn drained(v: TimerView) -> TimerView {
    TimerView { events: Seq::<LogEvent>::empty(), ..v }
}

/// The session timer engine. It owns the current mode, preset and duration
/// pair, the banked remaining time, the optional start sample of a running
/// session, the idle / paused flags, the task label, the active session
/// identifier, and the bounded event log.
///
/// The engine keeps no clock of its own: every time-dependent operation takes
/// `now`, a sample of a monotonic clock in seconds, and two samples are only
/// ever compared by their difference.
#[derive(Debug, Clone)]
pub struct Timer {
    started_at: Option<u64>,
    remaining: u64,
    mode: TimerMode,
    timeset: Preset,
    durs: Durations,
    paused: bool,
    idle: bool,
    auto_continue: bool,
    task_name: String,
    id: Option<u128>,
    events: Vec<LogEvent>,
}

impl View for Timer {
    type V = TimerView;

    closed spec fn view(&self) -> TimerView {
        TimerView {
            started_at: self.started_at,
            remaining: self.remaining,
            mode: self.mode,
            preset: self.timeset,
            durs: self.durs,
            paused: self.paused,
            idle: self.idle,
            auto_continue: self.auto_continue,
            task: self.task_name,
            id: self.id,
            events: self.events@,
        }
    }
}

impl Timer {
    pub open spec fn wf(self) -> bool {
        inv(self@)
    }

    /// A fresh engine: work mode under the short preset, the full work
    /// duration banked, idle, auto-continue on, no task, no session, an empty
    /// log.
    pub fn new() -> (t: Self)
        ensures
            t.wf(),
            t@.mode == TimerMode::Work,
            t@.preset == Preset::Short,
            t@.durs == Durations::spec_for_preset(Preset::Short),
            t@.remaining == 1500,
            t@.started_at is None,
            !t@.paused,
            t@.idle,
            t@.auto_continue,
            t@.task@ == Seq::<char>::empty(),
            t@.id is None,
            t@.events == Seq::<LogEvent>::empty(),
    {
        let durs = Durations::default();
        let mode = TimerMode::Work;
        Self {
            started_at: None,
            remaining: mode.duration(&durs),
            mode,
            timeset: Preset::default(),
            durs,
            paused: false,
            idle: true,
            auto_continue: true,
            task_name: String::new(),
            id: None,
            events: Vec::new(),
        }
    }

    /// Append one event to the log, evicting the oldest entry first when the
    /// bound would be exceeded.
    fn emit(&mut self, event: LogEvent)
        requires
            old(self)@.events.len() <= MAX_EMIT_EVENTS,
        ensures
            final(self)@ == (TimerView { events: push_capped(old(self)@.events, event), ..old(self)@ }),
    {
        self.events.push(event);
        if self.events.len() > MAX_EMIT_EVENTS {
            self.events.remove(0);
            proof {
                assert(self.events@ =~= push_capped(old(self)@.events, event));
            }
        }
        proof {
            assert(self@ =~= (TimerView { events: push_capped(old(self)@.events, event), ..old(self)@ }));
        }
    }

    /// Detach and return the whole current log; the log is empty immediately
    /// after, and safe to call when empty.
    pub fn drain_events(&mut self) -> (evs: Vec<LogEvent>)
        ensures
            evs@ == old(self)@.events,
            final(self)@ == drained(old(self)@),
            final(self)@.events.len() == 0,
            old(self).wf() ==> final(self).wf(),
    {
        let mut taken: Vec<LogEvent> = Vec::new();
        core::mem::swap(&mut taken, &mut self.events);
        proof {
            assert(self@ =~= drained(old(self)@));
        }
        taken
    }

    /// The identifier of the active session.
    fn current_id(&self) -> (r: u128)
        requires
            self@.id is Some,
        ensures
            r == self@.id->0,
    {
        self.id.unwrap()
    }

    pub fn is_running(&self) -> (r: bool)
        ensures
            r == (self@.started_at is Some),
    {
        self.started_at.is_some()
    }

    pub fn is_paused(&self) -> (r: bool)
        ensures
            r == self@.paused,
    {
        self.paused
    }

    pub fn is_idle(&self) -> (r: bool)
        ensures
            r == self@.idle,
    {
        self.idle
    }

    /// Return to idle in the current mode: the banked time becomes the mode's
    /// configured full duration, and the session, pause flag and start sample
    /// are cleared. No event is emitted: a reset is a hard abandonment.
    pub fn reset(&mut self)
        requires
            config_inv(old(self)@),
        ensures
            final(self).wf(),
            final(self)@ == reset_spec(old(self)@),
            final(self)@.idle,
            !final(self)@.paused,
            final(self)@.started_at is None,
            final(self)@.remaining == old(self)@.mode.spec_duration(old(self)@.durs),
    {
        self.idle = true;
        self.remaining = self.mode.duration(&self.durs);
        self.started_at = None;
        self.id = None;
        self.paused = false;
        proof {
            assert(self@ =~= reset_spec(old(self)@));
        }
    }

    /// The live remaining seconds at clock sample `now`; a pure read.
    pub fn get_remaining(&self, now: u64) -> (r: u64)
        ensures
            r == live_remaining(self@, now),
    {
        match self.started_at {
            Some(t0) => {
                let elapsed = if now >= t0 {
                    now - t0
                } else {
                    0
                };
                if elapsed >= self.remaining {
                    0
                } else {
                    self.remaining - elapsed
                }
            },
            None => self.remaining,
        }
    }

    pub fn get_mode(&self) -> (m: &TimerMode)
        ensures
            *m == self@.mode,
    {
        &self.mode
    }

    pub fn get_task_name(&self) -> (t: &str)
        ensures
            t@ == self@.task@,
    {
        self.task_name.as_str()
    }

    pub fn get_preset(&self) -> (p: &Preset)
        ensures
            *p == self@.preset,
    {
        &self.timeset
    }

    /// The duration pair of the active preset.
    pub fn get_durations(&self) -> (d: Durations)
        ensures
            d == self@.durs,
    {
        self.durs
    }

    /// Replace the task label; it takes effect for the current session's
    /// future events, not retroactively for already-emitted ones.
    pub fn set_task_name(&mut self, new_task_name: &str)
        ensures
            final(self)@.task@ == new_task_name@,
            final(self)@ == (TimerView { task: final(self)@.task, ..old(self)@ }),
            old(self).wf() ==> final(self).wf(),
    {
        self.task_name = new_task_name.to_owned();
    }
}

pub open spec fn next_run_state(s: RunState) -> RunState {
    match s {
        RunState::Idle => RunState::Running,
        RunState::Running => RunState::Paused,
        RunState::Paused => RunState::Running,
    }
}

/// The state after starting a session from `pre` at clock sample `now`, with
/// fresh session identifier `fid` and a `Started` record stamped `at`.
pub open spec fn started_step(pre: TimerView, now: u64, fid: u128, at: i64) -> TimerView {
    TimerView {
        started_at: Some(now),
        idle: false,
        paused: false,
        id: Some(fid),
        events: push_capped(pre.events, started_event(fid, pre.mode, pre.task, at, pre.remaining)),
        ..pre
    }
}

/// The state after pausing the running session of `pre` at clock sample
/// `now`: the live remaining time is banked and a `Paused` record stamped
/// `at` carries the same figure.
pub open spec fn paused_step(pre: TimerView, now: u64, at: i64) -> TimerView {
    TimerView {
        started_at: None,
        paused: true,
        remaining: live_remaining(pre, now),
        events: push_capped(
            pre.events,
            paused_event(pre.id->0, pre.task, at, live_remaining(pre, now)),
        ),
        ..pre
    }
}

/// The state after resuming the paused session of `pre` at clock sample
/// `now`, with a `Resumed` record stamped `at`.
pub open spec fn resumed_step(pre: TimerView, now: u64, at: i64) -> TimerView {
    TimerView {
        started_at: Some(now),
        paused: false,
        events: push_capped(
            pre.events,
            resumed_event(pre.id->0, pre.task, at, pre.remaining),
        ),
        ..pre
    }
}

/// How one `toggle` at clock sample `now` relates the state before (`pre`) to
/// the state after (`post`). The fresh session identifier and the wall-clock
/// stamp of the emitted record are not functions of the state, so they are
/// quantified.
pub open spec fn toggle_post(pre: TimerView, post: TimerView, now: u64) -> bool {
    match run_state(pre) {
        RunState::Idle => exists |fid: u128, at: i64| post == started_step(pre, now, fid, at),
        RunState::Running => exists |at: i64| post == paused_step(pre, now, at),
        RunState::Paused => exists |at: i64| post == resumed_step(pre, now, at),
    }
}

/// The `Terminated` record for abandoning the active session of `pre` at
/// clock sample `now`: it carries the live remaining time and the worked
/// share of the mode's configured duration.
pub open spec fn terminated_for(pre: TimerView, at: i64, now: u64) -> LogEvent {
    terminated_event(
        pre.id->0,
        pre.task,
        at,
        live_remaining(pre, now),
        (pre.mode.spec_duration(pre.durs) - live_remaining(pre, now)) as u64,
    )
}

/// The state of `pre` with a `Terminated` record stamped `at` appended.
pub open spec fn terminated_step(pre: TimerView, now: u64, at: i64) -> TimerView {
    TimerView { events: push_capped(pre.events, terminated_for(pre, at, now)), ..pre }
}

/// The state after `switch_mode` abandons the active session of `pre`: the
/// `Terminated` record appended, the mode flipped, the engine reset.
pub open spec fn switched_step(pre: TimerView, now: u64, at: i64) -> TimerView {
    reset_spec(TimerView { mode: pre.mode.spec_toggle(), ..terminated_step(pre, now, at) })
}

/// How `switch_mode` relates the state before to the state after: a
/// `Terminated` record is emitted exactly when a session was active, then the
/// mode flips and the engine resets.
pub open spec fn switch_mode_post(pre: TimerView, post: TimerView, now: u64) -> bool {
    if pre.id is Some {
        exists |at: i64| post == switched_step(pre, now, at)
    } else {
        post == reset_spec(TimerView { mode: pre.mode.spec_toggle(), ..pre })
    }
}

/// How `set_preset` relates the state before to the state after: selecting
/// the current preset changes nothing and emits nothing; otherwise a
/// `Terminated` record is emitted exactly when a session was active, the new
/// duration pair is adopted, and the engine resets.
pub open spec fn set_preset_post(pre: TimerView, post: TimerView, p: Preset, now: u64) -> bool {
    if pre.preset == p {
        post == pre
    } else if pre.id is Some {
        exists |at: i64| post == preset_step(pre, p, now, at)
    } else {
        post == reset_spec(
            TimerView { preset: p, durs: Durations::spec_for_preset(p), ..pre },
        )
    }
}

/// The state after `set_preset` abandons the active session of `pre` and
/// adopts preset `p`: the `Terminated` record appended, the new duration pair
/// in force, the engine reset.
pub open spec fn preset_step(pre: TimerView, p: Preset, now: u64, at: i64) -> TimerView {
    reset_spec(
        TimerView {
            preset: p,
            durs: Durations::spec_for_preset(p),
            ..terminated_step(pre, now, at)
        },
    )
}

/// The state right after a natural completion at wall-clock stamp `at`: a
/// `Completed` record appended (carrying the full configured duration of the
/// finished mode), the mode flipped, the engine reset.
pub open spec fn completed_step(pre: TimerView, at: i64) -> TimerView {
    reset_spec(
        TimerView {
            mode: pre.mode.spec_toggle(),
            events: push_capped(
                pre.events,
                completed_event(pre.id->0, pre.task, at, pre.mode.spec_duration(pre.durs)),
            ),
            ..pre
        },
    )
}

/// The completed branch of [`update_post`], for one wall-clock stamp `at`.
pub open spec fn update_completed(pre: TimerView, post: TimerView, at: i64, now: u64) -> bool {
    if pre.auto_continue {
        toggle_post(completed_step(pre, at), post, now)
    } else {
        post == completed_step(pre, at)
    }
}

/// How one tick of `update` at clock sample `now` relates the state before to
/// the state after: a no-op unless a running session's banked time has been
/// consumed, in which case a `Completed` record is emitted, the mode flips,
/// the engine resets, and — when auto-continue is set — the next session
/// starts at once.
pub open spec fn update_post(pre: TimerView, post: TimerView, now: u64) -> bool {
    match pre.started_at {
        Some(t0) => {
            let elapsed: int = if now >= t0 {
                now - t0
            } else {
                0
            };
            if pre.remaining > elapsed {
                post == pre
            } else {
                exists |at: i64| update_completed(pre, post, at, now)
            }
        },
        None => post == pre,
    }
}

impl Timer {
    /// Begin a session: sample the clock into the start field, assign a fresh
    /// session identifier, clear the idle and paused flags, and record a
    /// `Started` event.
    fn start(&mut self, now: u64)
        requires
            old(self).wf(),
            old(self)@.started_at is None,
            !old(self)@.paused,
        ensures
            final(self).wf(),
            exists |fid: u128, at: i64| final(self)@ == started_step(old(self)@, now, fid, at),
    {
        self.idle = false;
        self.started_at = Some(now);
        let fid = sys::fresh_session_id();
        self.id = Some(fid);
        self.paused = false;
        let at = sys::wall_now();
        let remaining = self.get_remaining(now);
        let ev = LogEvent::Started {
            id: fid,
            timer_type: self.mode,
            task: self.task_name.clone(),
            at,
            remaining,
        };
        self.emit(ev);
        proof {
            assert(self@ =~= started_step(old(self)@, now, fid, at));
        }
    }

    /// Resume a paused session: re-sample the clock into the start field,
    /// clear the paused flag, and record a `Resumed` event.
    fn resume(&mut self, now: u64)
        requires
            old(self).wf(),
            old(self)@.paused,
            old(self)@.started_at is None,
        ensures
            final(self).wf(),
            exists |at: i64| final(self)@ == resumed_step(old(self)@, now, at),
    {
        self.started_at = Some(now);
        let at = sys::wall_now();
        let remaining = self.get_remaining(now);
        let id = self.current_id();
        let ev = LogEvent::Resumed { id, task: self.task_name.clone(), at, remaining };
        self.emit(ev);
        self.paused = false;
        proof {
            assert(self@ =~= resumed_step(old(self)@, now, at));
        }
    }

    /// Suspend a running session: record a `Paused` event carrying the live
    /// remaining time, bank that figure, clear the start field, and set the
    /// paused flag.
    fn stop(&mut self, now: u64)
        requires
            old(self).wf(),
            old(self)@.started_at is Some,
        ensures
            final(self).wf(),
            exists |at: i64| final(self)@ == paused_step(old(self)@, now, at),
    {
        let live = self.get_remaining(now);
        let at = sys::wall_now();
        let id = self.current_id();
        let ev = LogEvent::Paused { id, task: self.task_name.clone(), at, remaining: live };
        self.emit(ev);
        self.started_at = None;
        self.remaining = live;
        self.paused = true;
        proof {
            assert(self@ =~= paused_step(old(self)@, now, at));
        }
    }

    /// The single entry point for start / pause / resume: from idle it starts
    /// a session, from running it pauses, from paused it resumes. The run
    /// state advances as [`next_run_state`] says, and the defect state
    /// (running and paused at once) is never produced.
    pub fn toggle(&mut self, now: u64)
        requires
            old(self).wf(),
        ensures
            final(self).wf(),
            toggle_post(old(self)@, final(self)@, now),
            run_state(final(self)@) == next_run_state(run_state(old(self)@)),
            !(final(self)@.started_at is Some && final(self)@.paused),
    {
        match (self.is_running(), self.is_paused()) {
            (false, false) => {
                // Idle: start a session.
                self.start(now);
                proof {
                    let (fid, at) = choose |fid: u128, at: i64|
                        self@ == started_step(old(self)@, now, fid, at);
                    assert(run_state(self@) == RunState::Running);
                }
            },
            (true, false) => {
                // Running: pause it.
                self.stop(now);
                proof {
                    let at = choose |at: i64| self@ == paused_step(old(self)@, now, at);
                    assert(run_state(self@) == RunState::Paused);
                }
            },
            (false, true) => {
                // Paused: resume it.
                self.resume(now);
                proof {
                    let at = choose |at: i64| self@ == resumed_step(old(self)@, now, at);
                    assert(run_state(self@) == RunState::Running);
                }
            },
            (true, true) => {
                // Running and paused at once: a defect state that the
                // invariant rules out, so this arm is unreachable; the
                // correction mirrors what the engine would do if it were not.
                self.paused = false;
            },
        }
    }

    /// Record a `Terminated` event for the active session: it carries the
    /// live remaining time and the worked share of the configured duration.
    pub fn persist_termination(&mut self, now: u64)
        requires
            old(self).wf(),
            old(self)@.id is Some,
        ensures
            final(self).wf(),
            exists |at: i64| final(self)@ == terminated_step(old(self)@, now, at),
    {
        let live = self.get_remaining(now);
        let at = sys::wall_now();
        let id = self.current_id();
        let dur = self.mode.duration(&self.durs);
        let ev = LogEvent::Terminated {
            id,
            task: self.task_name.clone(),
            at,
            remaining: live,
            work_secs: dur - live,
        };
        self.emit(ev);
        proof {
            assert(self@ =~= terminated_step(old(self)@, now, at));
        }
    }

    /// Abandon any active session (emitting `Terminated`), flip the mode, and
    /// reset to the new mode's configured duration.
    pub fn switch_mode(&mut self, now: u64)
        requires
            old(self).wf(),
        ensures
            final(self).wf(),
            switch_mode_post(old(self)@, final(self)@, now),
    {
        let ghost pre = old(self)@;
        if self.id.is_some() {
            self.persist_termination(now);
        }
        let ghost mid = self@;
        self.mode = self.mode.toggle();
        self.reset();
        proof {
            if pre.id is Some {
                let at = choose |at: i64| mid == terminated_step(pre, now, at);
                assert(self@ =~= switched_step(pre, now, at));
            } else {
                assert(self@ =~= reset_spec(TimerView { mode: pre.mode.spec_toggle(), ..pre }));
            }
        }
    }

    /// Adopt a preset: a no-op when `p` is already active; otherwise any
    /// active session is abandoned with a `Terminated` record (exactly as in
    /// `switch_mode`), the new duration pair takes effect, and the engine
    /// resets.
    pub fn set_preset(&mut self, p: Preset, now: u64)
        requires
            old(self).wf(),
        ensures
            final(self).wf(),
            set_preset_post(old(self)@, final(self)@, p, now),
    {
        let ghost pre = old(self)@;
        if self.timeset == p {
            return;
        }
        if self.id.is_some() {
            self.persist_termination(now);
        }
        let ghost mid = self@;
        let new = Durations::for_preset(p);
        self.durs = new;
        self.timeset = p;
        self.reset();
        proof {
            if pre.id is Some {
                let at = choose |at: i64| mid == terminated_step(pre, now, at);
                assert(self@ =~= preset_step(pre, p, now, at));
            } else {
                assert(self@ =~= reset_spec(
                    TimerView { preset: p, durs: Durations::spec_for_preset(p), ..pre },
                ));
            }
        }
    }

    /// Flip the mode and reset, without a `Terminated` record: used when a
    /// session ends naturally.
    fn complete_and_switch(&mut self)
        requires
            old(self).wf(),
        ensures
            final(self).wf(),
            final(self)@ == reset_spec(
                TimerView { mode: old(self)@.mode.spec_toggle(), ..old(self)@ },
            ),
    {
        self.mode = self.mode.toggle();
        self.reset();
        proof {
            assert(self@ =~= reset_spec(
                TimerView { mode: old(self)@.mode.spec_toggle(), ..old(self)@ },
            ));
        }
    }

    /// One tick of the periodic completion check: only observable while
    /// running and only once the banked time is consumed, in which case a
    /// `Completed` event is recorded, a best-effort notification is sent, the
    /// mode flips and the engine resets — immediately starting the next
    /// session when auto-continue is set.
    pub fn update(&mut self, now: u64)
        requires
            old(self).wf(),
        ensures
            final(self).wf(),
            update_post(old(self)@, final(self)@, now),
    {
        let ghost pre = old(self)@;
        match self.started_at {
            Some(t0) => {
                let elapsed = if now >= t0 {
                    now - t0
                } else {
                    0
                };
                if self.remaining > elapsed {
                    return;
                }
                let at = sys::wall_now();
                let id = self.current_id();
                let work_secs = self.mode.duration(&self.durs);
                let ev = LogEvent::Completed { id, task: self.task_name.clone(), at, work_secs };
                self.emit(ev);
                let mode_name = self.mode.label();
                sys::notify_completion(mode_name.as_str(), self.task_name.as_str());
                self.complete_and_switch();
                proof {
                    assert(self@ =~= completed_step(pre, at));
                }
                if self.auto_continue {
                    self.toggle(now);
                }
                proof {
                    assert(update_completed(pre, self@, at, now));
                }
            },
            None => {},
        }
    }

    /// Assemble the read-only snapshot for clock sample `now`.
    pub fn get_timer_status(&self, now: u64) -> (st: TimerStatus)
        ensures
            status_matches(self@, st, now),
    {
        TimerStatus {
            task: self.get_task_name().to_owned(),
            remaining: self.get_remaining(now),
            preset: self.get_preset().label(),
            is_paused: self.is_paused(),
            is_idle: self.is_idle(),
            is_running: self.is_running(),
            mode: self.get_mode().label(),
        }
    }
}

/// What a faithful snapshot of state `v` at clock sample `now` holds.
pub open spec fn status_matches(v: TimerView, st: TimerStatus, now: u64) -> bool {
    &&& st.mode@ == v.mode.spec_label()
    &&& st.remaining == live_remaining(v, now)
    &&& st.preset@ == v.preset.spec_label()
    &&& st.is_paused == v.paused
    &&& st.is_idle == v.idle
    &&& st.is_running == (v.started_at is Some)
    &&& st.task@ == v.task@
}

/// A single `toggle` never lands on idle, and from wherever it lands the next
/// `toggle` moves again: the run state cycles
/// Idle→Running→Paused→Running→Paused→…
pub proof fn lemma_toggle_cycles(s: RunState)
    ensures
        next_run_state(s) != RunState::Idle,
        next_run_state(next_run_state(s)) != next_run_state(s),
        s != RunState::Running ==> next_run_state(s) == RunState::Running,
        s == RunState::Running ==> next_run_state(s) == RunState::Paused,
{
}

/// Any pair of states that one `toggle` relates advances the run state as
/// [`next_run_state`] says, and the state after is never simultaneously
/// running and paused.
pub proof fn lemma_toggle_post_run_state(pre: TimerView, post: TimerView, now: u64)
    requires
        toggle_post(pre, post, now),
    ensures
        run_state(post) == next_run_state(run_state(pre)),
        !(post.started_at is Some && post.paused),
{
    match run_state(pre) {
        RunState::Idle => {
            let (fid, at) = choose |fid: u128, at: i64| post == started_step(pre, now, fid, at);
        },
        RunState::Running => {
            let at = choose |at: i64| post == paused_step(pre, now, at);
        },
        RunState::Paused => {
            let at = choose |at: i64| post == resumed_step(pre, now, at);
        },
    }
}

/// The live remaining time never increases as the clock advances, never
/// exceeds the banked figure, and is constant while not running.
pub proof fn lemma_remaining_monotonic(v: TimerView, n1: u64, n2: u64)
    requires
        n1 <= n2,
    ensures
        live_remaining(v, n2) <= live_remaining(v, n1),
        live_remaining(v, n1) <= v.remaining,
        v.started_at is None ==> live_remaining(v, n2) == live_remaining(v, n1),
{
}

/// Draining yields every retained event exactly once: the log is empty right
/// after a drain, so a second drain yields nothing, and the two drains
/// together yield exactly the events retained before the first.
pub proof fn lemma_drain_round_trip(v: TimerView)
    ensures
        drained(v).events.len() == 0,
        v.events + drained(v).events == v.events,
        drained(drained(v)) == drained(v),
{
    assert(v.events + Seq::<LogEvent>::empty() =~= v.events);
    assert(drained(drained(v)) =~= drained(v));
}

} // verus!
