use crate::timer::{
    inv, paused_step, reset_spec, run_state, set_preset_post, status_matches, switch_mode_post,
    toggle_post, Preset, RunState, Timer, TimerStatus, TimerView,
};
use vstd::prelude::*;

verus! {

/// The closed set of commands that a transport may deliver. An unrecognized
/// wire payload is a transport-level decoding failure and never becomes a
/// `Request`.
#[derive(Debug, Clone)]
pub enum Request {
    GetStatus,
    Start,
    Pause,
    Resume,
    Reset,
    SwitchMode,
    SetTask(String),
    SetPreset(Preset),
    Ping,
}

/// The closed set of response shapes. `Error` is produced only by transports,
/// for payloads that never reach the dispatcher.
#[derive(Debug, Clone)]
pub enum Response {
    Okay,
    Status(TimerStatus),
    Error(String),
    Pong,
}

/// Wire helper: the body of a set-task request.
pub struct SetTaskRequest {
    pub task: String,
}

/// Wire helper: the body of a set-preset request.
pub struct SetPresetRequest {
    pub preset: Preset,
}

/// How one dispatched command relates the engine state before (`pre`) to the
/// state after (`post`): each command maps to at most one engine call, and a
/// transition request that does not apply in the current state is a safe
/// no-op, never an error.
pub open spec fn request_post(pre: TimerView, post: TimerView, request: Request, now: u64) -> bool {
    match request {
        Request::Ping => post == pre,
        Request::GetStatus => post == pre,
        Request::Start => if pre.idle || pre.paused {
            toggle_post(pre, post, now)
        } else {
            post == pre
        },
        Request::Pause => if pre.started_at is Some && !pre.paused {
            toggle_post(pre, post, now)
        } else {
            post == pre
        },
        Request::Resume => if pre.paused {
            toggle_post(pre, post, now)
        } else {
            post == pre
        },
        Request::Reset => post == reset_spec(pre),
        Request::SwitchMode => switch_mode_post(pre, post, now),
        Request::SetTask(name) => post.task@ == name@ && post == (TimerView {
            task: post.task,
            ..pre
        }),
        Request::SetPreset(p) => set_preset_post(pre, post, p, now),
    }
}

/// What the response to each command holds: `Pong` for a ping, a faithful
/// snapshot for a status query, and `Okay` for everything else — never an
/// `Error`.
pub open spec fn response_matches(
    pre: TimerView,
    request: Request,
    resp: Response,
    now: u64,
) -> bool {
    match request {
        Request::Ping => resp is Pong,
        Request::GetStatus => resp matches Response::Status(st) && status_matches(pre, st, now),
        _ => resp is Okay,
    }
}

/// Apply one command to the engine and produce its response. Callers serialize
/// access: at most one command is applied at any instant, so the state seen
/// here is the state the command acts on.
pub fn process_request(timer: &mut Timer, request: Request, now: u64) -> (resp: Response)
    requires
        old(timer).wf(),
    ensures
        final(timer).wf(),
        request_post(old(timer)@, final(timer)@, request, now),
        response_matches(old(timer)@, request, resp, now),
{
    match request {
        Request::Ping => Response::Pong,
        Request::Start => {
            if timer.is_idle() || timer.is_paused() {
                timer.toggle(now);
            }
            Response::Okay
        },
        Request::Pause => {
            if timer.is_running() && !timer.is_paused() {
                timer.toggle(now);
            }
            Response::Okay
        },
        Request::Reset => {
            timer.reset();
            Response::Okay
        },
        Request::SetTask(name) => {
            timer.set_task_name(name.as_str());
            Response::Okay
        },
        Request::GetStatus => Response::Status(timer.get_timer_status(now)),
        Request::SetPreset(preset) => {
            timer.set_preset(preset, now);
            Response::Okay
        },
        Request::SwitchMode => {
            timer.switch_mode(now);
            Response::Okay
        },
        Request::Resume => {
            if timer.is_paused() {
                timer.toggle(now);
            }
            Response::Okay
        },
    }
}

/// Two `Pause` commands applied in turn to a running session — the order in
/// which two concurrent callers pass the serialization boundary — bank the
/// time and emit exactly one `Paused` record on the first command, while the
/// second is a safe no-op; both commands answer `Okay` by
/// [`response_matches`].
pub proof fn lemma_double_pause(
    pre: TimerView,
    mid: TimerView,
    post: TimerView,
    n1: u64,
    n2: u64,
)
    requires
        inv(pre),
        run_state(pre) == RunState::Running,
        request_post(pre, mid, Request::Pause, n1),
        request_post(mid, post, Request::Pause, n2),
    ensures
        exists |at: i64| mid == paused_step(pre, n1, at),
        post == mid,
{
    let at = choose |at: i64| mid == paused_step(pre, n1, at);
    assert(mid.started_at is None);
}

} // verus!
