use pomo::input::{AppMode, TaskInput};
use pomo::pomodoro::{Pomodoro, SessionType, TimerState};
use pomo::utils::{fmt_duration, KeyCommand};

#[test]
fn fmt_duration_values() {
    assert_eq!(fmt_duration(0), "00:00");
    assert_eq!(fmt_duration(65), "01:05");
    assert_eq!(fmt_duration(1500), "25:00");
    assert_eq!(fmt_duration(599), "09:59");
    assert_eq!(fmt_duration(6000), "100:00");
}

#[test]
fn key_command_descriptions() {
    assert_eq!(KeyCommand::InputTask.description(), "Input current task name");
    assert_eq!(KeyCommand::Reset.description(), "Reset timer");
    assert_eq!(KeyCommand::Toggle.description(), "Start/Pause");
    assert_eq!(KeyCommand::SwitchMode.description(), "Switch Work/Break");
    assert_eq!(KeyCommand::SetLong.description(), "Set Long session (50/10)[m]");
    assert_eq!(KeyCommand::SetShort.description(), "Set Short session (25/5)[m]");
    assert_eq!(KeyCommand::SetTest.description(), "Set Test session (5/5)[s]");
    assert_eq!(KeyCommand::ToggleHint.description(), "Close Hint Page");
    assert_eq!(KeyCommand::Quit.description(), "Quit");
}

#[test]
fn key_command_displays() {
    assert_eq!(KeyCommand::InputTask.key_display(), "i");
    assert_eq!(KeyCommand::Reset.key_display(), "r");
    assert_eq!(KeyCommand::Toggle.key_display(), "Space");
    assert_eq!(KeyCommand::SwitchMode.key_display(), "s");
    assert_eq!(KeyCommand::SetLong.key_display(), "+");
    assert_eq!(KeyCommand::SetShort.key_display(), "-");
    assert_eq!(KeyCommand::SetTest.key_display(), "`");
    assert_eq!(KeyCommand::ToggleHint.key_display(), "?");
    assert_eq!(KeyCommand::Quit.key_display(), "q");
}

#[test]
fn app_mode_toggles() {
    let m = AppMode::default();
    assert_eq!(m, AppMode::Normal);
    let m = m.toggle();
    assert_eq!(m, AppMode::Input);
    let m = m.toggle();
    assert_eq!(m, AppMode::Normal);
}

#[test]
fn task_input_editing() {
    let mut input = TaskInput::new();
    input.enter_char('a');
    input.enter_char('b');
    input.enter_char('d');
    input.move_cursor_left();
    input.enter_char('c');
    let task = input.confirm_task();
    assert_eq!(task, "abcd");
    // Confirming hands the text out exactly once.
    assert_eq!(input.confirm_task(), "");
}

#[test]
fn task_input_delete_and_break() {
    let mut input = TaskInput::new();
    input.enter_char('x');
    input.enter_char('y');
    input.delete_char();
    assert_eq!(input.confirm_task(), "x");
    input.enter_char('z');
    input.break_input();
    assert_eq!(input.confirm_task(), "");
}

#[test]
fn task_input_delete_at_left_edge() {
    let mut input = TaskInput::new();
    input.enter_char('a');
    input.move_cursor_left();
    input.delete_char();
    assert_eq!(input.confirm_task(), "a");
}

#[test]
fn task_input_byte_index_counts_utf8() {
    let mut input = TaskInput::new();
    input.enter_char('a');
    input.enter_char('\u{00e9}');
    input.enter_char('\u{4e2d}');
    input.enter_char('b');
    // Cursor sits after the four characters: 1 + 2 + 3 + 1 bytes.
    assert_eq!(input.byte_index(), 7);
    input.move_cursor_left();
    assert_eq!(input.byte_index(), 6);
    input.move_cursor_left();
    assert_eq!(input.byte_index(), 3);
    input.move_cursor_left();
    assert_eq!(input.byte_index(), 1);
    input.move_cursor_left();
    assert_eq!(input.byte_index(), 0);
}

#[test]
fn pomodoro_lifecycle() {
    let mut p = Pomodoro::default();
    assert_eq!(p.get_duration(), 1500);
    assert!(matches!(p.timer_state, TimerState::IDLE));
    assert!(matches!(p.session_type, SessionType::WORK));
    p.set_duration(300);
    assert_eq!(p.get_duration(), 300);
    p.update();
    assert_eq!(p.elapsed, 0);
    p.start();
    assert!(matches!(p.timer_state, TimerState::RUNNING));
    p.update();
    p.update();
    assert_eq!(p.elapsed, 2);
    p.complete_session();
    assert!(matches!(p.timer_state, TimerState::STOPPED));
    p.start_current_session();
    assert!(matches!(p.timer_state, TimerState::RUNNING));
}
