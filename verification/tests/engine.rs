use pomo::events::LogEvent;
use pomo::timer::{Durations, Preset, Timer, TimerMode};

#[test]
fn timer_mode_toggle() {
    let mut ts = TimerMode::default();
    assert_eq!(ts, TimerMode::Work);
    ts = ts.toggle();
    assert_eq!(ts, TimerMode::Break);
    ts = ts.toggle();
    assert_eq!(ts, TimerMode::Work);
}

#[test]
fn init_timer_mode() {
    let t = Timer::new();
    assert_eq!(*t.get_mode(), TimerMode::Work);
    assert_eq!(t.get_remaining(0), 25 * 60);
    assert_eq!(t.get_durations(), Durations::default());
}

#[test]
fn durations_for_preset() {
    assert_eq!(Durations::for_preset(Preset::Short), Durations { work: 1500, brk: 300 });
    assert_eq!(Durations::for_preset(Preset::Long), Durations { work: 3000, brk: 600 });
    assert_eq!(Durations::for_preset(Preset::Test), Durations { work: 5, brk: 5 });
}

#[test]
fn fresh_engine_first_toggle() {
    // A fresh engine is idle in work mode with the full 25 minutes banked;
    // one toggle starts a session without consuming any time, and queues a
    // single Started event.
    let mut t = Timer::new();
    assert!(t.is_idle());
    assert!(!t.is_running());
    assert!(!t.is_paused());
    t.toggle(0);
    assert!(t.is_running());
    assert!(!t.is_idle());
    assert!(!t.is_paused());
    assert_eq!(t.get_remaining(0), 1500);
    let events = t.drain_events();
    assert_eq!(events.len(), 1);
    match &events[0] {
        LogEvent::Started { timer_type, task, remaining, .. } => {
            assert_eq!(*timer_type, TimerMode::Work);
            assert_eq!(task, "");
            assert_eq!(*remaining, 1500);
        }
        other => panic!("expected Started, got {:?}", other),
    }
}

#[test]
fn pause_resume_remaining() {
    // Start, run 10 seconds, pause: 1490 left. Resume, run 5 more: 1485.
    let mut t = Timer::new();
    t.toggle(0);
    t.toggle(10);
    assert!(t.is_paused());
    assert_eq!(t.get_remaining(10), 1490);
    assert_eq!(t.get_remaining(500), 1490);
    t.toggle(20);
    assert!(t.is_running());
    assert_eq!(t.get_remaining(25), 1485);
    let events = t.drain_events();
    assert_eq!(events.len(), 3);
    let id0 = match &events[0] {
        LogEvent::Started { id, .. } => *id,
        other => panic!("expected Started, got {:?}", other),
    };
    match &events[1] {
        LogEvent::Paused { id, remaining, .. } => {
            assert_eq!(*id, id0);
            assert_eq!(*remaining, 1490);
        }
        other => panic!("expected Paused, got {:?}", other),
    }
    match &events[2] {
        LogEvent::Resumed { id, remaining, .. } => {
            assert_eq!(*id, id0);
            assert_eq!(*remaining, 1490);
        }
        other => panic!("expected Resumed, got {:?}", other),
    }
}

#[test]
fn remaining_never_negative() {
    let mut t = Timer::new();
    t.toggle(0);
    assert_eq!(t.get_remaining(100_000), 0);
}

#[test]
fn reset_restores_full_duration() {
    let mut t = Timer::new();
    t.toggle(0);
    t.toggle(600);
    t.reset();
    assert!(t.is_idle());
    assert!(!t.is_running());
    assert!(!t.is_paused());
    assert_eq!(t.get_remaining(600), 1500);
}

#[test]
fn update_before_completion_is_noop() {
    let mut t = Timer::new();
    t.set_preset(Preset::Test, 0);
    t.toggle(0);
    t.drain_events();
    t.update(3);
    assert!(t.is_running());
    assert_eq!(*t.get_mode(), TimerMode::Work);
    assert_eq!(t.get_remaining(3), 2);
    assert!(t.drain_events().is_empty());
}

#[test]
fn natural_completion_auto_continues() {
    // Test preset: 5-second work. After 5 simulated seconds a tick completes
    // the session: exactly one Completed event, the mode flips to Break, and
    // auto-continue starts the next session at once.
    let mut t = Timer::new();
    t.set_preset(Preset::Test, 0);
    t.toggle(0);
    t.drain_events();
    t.update(5);
    assert_eq!(*t.get_mode(), TimerMode::Break);
    assert!(t.is_running());
    assert!(!t.is_idle());
    let events = t.drain_events();
    let completed: Vec<&LogEvent> = events
        .iter()
        .filter(|e| matches!(e, LogEvent::Completed { .. }))
        .collect();
    assert_eq!(completed.len(), 1);
    match completed[0] {
        LogEvent::Completed { work_secs, .. } => assert_eq!(*work_secs, 5),
        _ => unreachable!(),
    }
    match events.last().unwrap() {
        LogEvent::Started { timer_type, remaining, .. } => {
            assert_eq!(*timer_type, TimerMode::Break);
            assert_eq!(*remaining, 5);
        }
        other => panic!("expected Started, got {:?}", other),
    }
}

#[test]
fn drain_round_trip() {
    let mut t = Timer::new();
    t.toggle(0);
    t.toggle(1);
    t.toggle(2);
    let first = t.drain_events();
    assert_eq!(first.len(), 3);
    let second = t.drain_events();
    assert!(second.is_empty());
}

#[test]
fn drain_on_empty_log() {
    let mut t = Timer::new();
    assert!(t.drain_events().is_empty());
}

#[test]
fn set_preset_same_is_noop() {
    let mut t = Timer::new();
    t.toggle(0);
    t.drain_events();
    t.set_preset(Preset::Short, 10);
    assert!(t.is_running());
    assert_eq!(t.get_remaining(10), 1490);
    assert!(t.drain_events().is_empty());
}

#[test]
fn set_preset_terminates_active_session() {
    let mut t = Timer::new();
    t.toggle(0);
    t.drain_events();
    t.set_preset(Preset::Long, 100);
    assert!(t.is_idle());
    assert_eq!(*t.get_preset(), Preset::Long);
    assert_eq!(t.get_remaining(100), 3000);
    let events = t.drain_events();
    assert_eq!(events.len(), 1);
    match &events[0] {
        LogEvent::Terminated { remaining, work_secs, .. } => {
            assert_eq!(*remaining, 1400);
            assert_eq!(*work_secs, 100);
        }
        other => panic!("expected Terminated, got {:?}", other),
    }
}

#[test]
fn switch_mode_terminates_and_flips() {
    let mut t = Timer::new();
    t.toggle(0);
    t.drain_events();
    t.switch_mode(60);
    assert_eq!(*t.get_mode(), TimerMode::Break);
    assert!(t.is_idle());
    assert_eq!(t.get_remaining(60), 300);
    let events = t.drain_events();
    assert_eq!(events.len(), 1);
    match &events[0] {
        LogEvent::Terminated { remaining, work_secs, .. } => {
            assert_eq!(*remaining, 1440);
            assert_eq!(*work_secs, 60);
        }
        other => panic!("expected Terminated, got {:?}", other),
    }
}

#[test]
fn switch_mode_idle_emits_nothing() {
    let mut t = Timer::new();
    t.switch_mode(0);
    assert_eq!(*t.get_mode(), TimerMode::Break);
    assert_eq!(t.get_remaining(0), 300);
    assert!(t.drain_events().is_empty());
}

#[test]
fn persist_termination_books_worked_time() {
    let mut t = Timer::new();
    t.set_preset(Preset::Test, 0);
    t.toggle(0);
    t.drain_events();
    t.persist_termination(2);
    let events = t.drain_events();
    assert_eq!(events.len(), 1);
    match &events[0] {
        LogEvent::Terminated { remaining, work_secs, .. } => {
            assert_eq!(*remaining, 3);
            assert_eq!(*work_secs, 2);
        }
        other => panic!("expected Terminated, got {:?}", other),
    }
}

#[test]
fn task_name_flows_into_events() {
    let mut t = Timer::new();
    t.set_task_name("write report");
    assert_eq!(t.get_task_name(), "write report");
    t.toggle(0);
    let events = t.drain_events();
    match &events[0] {
        LogEvent::Started { task, .. } => assert_eq!(task, "write report"),
        other => panic!("expected Started, got {:?}", other),
    }
}

#[test]
fn event_log_evicts_oldest_at_cap() {
    // 1001 toggles emit 1001 events; the log keeps the newest 1000.
    let mut t = Timer::new();
    let mut now: u64 = 0;
    for _ in 0..1001 {
        t.toggle(now);
        now += 1;
    }
    let events = t.drain_events();
    assert_eq!(events.len(), 1000);
    // The evicted entry is the very first Started; the oldest kept entry is
    // the Paused that followed it.
    assert!(matches!(events[0], LogEvent::Paused { .. }));
}

#[test]
fn status_snapshot_reflects_state() {
    let mut t = Timer::new();
    t.set_task_name("deep work");
    t.toggle(0);
    let st = t.get_timer_status(10);
    assert_eq!(st.mode, "Work");
    assert_eq!(st.preset, "Short");
    assert_eq!(st.remaining, 1490);
    assert!(st.is_running);
    assert!(!st.is_idle);
    assert!(!st.is_paused);
    assert_eq!(st.task, "deep work");
}
