use crate::timer::TimerMode;
use vstd::prelude::*;

verus! {

/// Upper bound on retained log entries: once a new entry would push the log
/// past this size, the oldest entry is dropped first.
pub const MAX_EMIT_EVENTS: usize = 1000;

/// One lifecycle transition of the session engine. Each record carries the
/// session identifier, the task label at the time of the event, a wall-clock
/// timestamp in seconds since the Unix epoch, and a duration figure: the
/// remaining seconds at the moment of the event for `Started` / `Paused` /
/// `Resumed` / `Terminated`, and worked seconds for `Terminated` /
/// `Completed`.
#[derive(Debug, Clone, PartialEq)]
pub enum LogEvent {
    Idle,
    Started { id: u128, timer_type: TimerMode, task: String, at: i64, remaining: u64 },
    Paused { id: u128, task: String, at: i64, remaining: u64 },
    Resumed { id: u128, task: String, at: i64, remaining: u64 },
    Terminated { id: u128, task: String, at: i64, remaining: u64, work_secs: u64 },
    Completed { id: u128, task: String, at: i64, work_secs: u64 },
}

impl Default for LogEvent {
    fn default() -> (r: Self)
        ensures
            r == LogEvent::Idle,
    {
        LogEvent::Idle
    }
}

/// The log after appending `e`: the sequence grows by one, except that the
/// oldest entry is evicted when the bound would be exceeded.
pub open spec fn push_capped(evs: Seq<LogEvent>, e: LogEvent) -> Seq<LogEvent> {
    let p = evs.push(e);
    if p.len() > MAX_EMIT_EVENTS {
        p.subrange(1, p.len() as int)
    } else {
        p
    }
}

/// Appending always ends with the new entry, and grows the log by one entry
/// until the bound is reached, after which the length stays at the bound.
pub proof fn lemma_push_capped(evs: Seq<LogEvent>, e: LogEvent)
    ensures
        push_capped(evs, e).last() == e,
        evs.len() < MAX_EMIT_EVENTS ==> push_capped(evs, e) == evs.push(e),
        evs.len() >= MAX_EMIT_EVENTS ==> push_capped(evs, e).len() == evs.len(),
        evs.len() <= MAX_EMIT_EVENTS ==> push_capped(evs, e).len() <= MAX_EMIT_EVENTS,
{
}

pub open spec fn started_event(
    id: u128,
    mode: TimerMode,
    task: String,
    at: i64,
    remaining: u64,
) -> LogEvent {
    LogEvent::Started { id, timer_type: mode, task, at, remaining }
}

pub open spec fn paused_event(id: u128, task: String, at: i64, remaining: u64) -> LogEvent {
    LogEvent::Paused { id, task, at, remaining }
}

pub open spec fn resumed_event(id: u128, task: String, at: i64, remaining: u64) -> LogEvent {
    LogEvent::Resumed { id, task, at, remaining }
}

pub open spec fn terminated_event(
    id: u128,
    task: String,
    at: i64,
    remaining: u64,
    work_secs: u64,
) -> LogEvent {
    LogEvent::Terminated { id, task, at, remaining, work_secs }
}

pub open spec fn completed_event(id: u128, task: String, at: i64, work_secs: u64) -> LogEvent {
    LogEvent::Completed { id, task, at, work_secs }
}

} // verus!
