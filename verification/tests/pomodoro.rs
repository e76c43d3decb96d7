use pomodoro::format::{format_status, format_time};
use pomodoro::render::{snapshot, start_stop_notice, status_line, timer_line};
use pomodoro::state::TimerState;

fn state(work: usize, brk: usize, remaining: usize, on_break: bool, running: bool) -> TimerState {
    TimerState {
        work_duration_seconds: work,
        break_duration_seconds: brk,
        remaining_seconds: remaining,
        on_break,
        running,
    }
}

#[test]
fn format_time_examples() {
    assert_eq!(format_time(0), "00:00");
    assert_eq!(format_time(65), "01:05");
    assert_eq!(format_time(3599), "59:59");
    assert_eq!(format_time(3600), "60:00");
}

#[test]
fn format_time_round_values() {
    assert_eq!(format_time(1), "00:01");
    assert_eq!(format_time(59), "00:59");
    assert_eq!(format_time(60), "01:00");
    assert_eq!(format_time(1500), "25:00");
    assert_eq!(format_time(1560), "26:00");
}

#[test]
fn format_time_shape_below_hundred_minutes() {
    for n in 0..6000usize {
        let s = format_time(n);
        assert_eq!(s.len(), 5);
        let b = s.as_bytes();
        assert!(b[0].is_ascii_digit());
        assert!(b[1].is_ascii_digit());
        assert_eq!(b[2], b':');
        assert!(b[3].is_ascii_digit());
        assert!(b[4].is_ascii_digit());
    }
}

#[test]
fn format_time_three_digit_minutes() {
    assert_eq!(format_time(6000), "100:00");
    assert_eq!(format_time(45296), "754:56");
}

#[test]
fn format_status_cases() {
    assert_eq!(format_status(false, false), "Timer is paused");
    assert_eq!(format_status(true, false), "Timer is paused");
    assert_eq!(format_status(true, true), "On Break!");
    assert_eq!(format_status(false, true), "Working!");
}

#[test]
fn starting_state() {
    let s = TimerState::new();
    assert_eq!(s.work_duration_seconds, 1500);
    assert_eq!(s.remaining_seconds, 1500);
    assert_eq!(s.break_duration_seconds, 300);
    assert!(!s.on_break);
    assert!(!s.running);
}

#[test]
fn tick_decrements_while_running() {
    let mut s = state(1500, 300, 1500, false, true);
    s.tick();
    assert_eq!(s, state(1500, 300, 1499, false, true));
}

#[test]
fn tick_at_zero_enters_break() {
    let mut s = state(1500, 300, 0, false, true);
    s.tick();
    assert!(s.on_break);
    assert_eq!(s.remaining_seconds, 300);
    assert!(s.running);
    assert_eq!(s.work_duration_seconds, 1500);
}

#[test]
fn tick_at_zero_leaves_break() {
    let mut s = state(1500, 300, 0, true, true);
    s.tick();
    assert!(!s.on_break);
    assert_eq!(s.remaining_seconds, 1500);
    assert!(s.running);
}

#[test]
fn tick_while_stopped_changes_nothing() {
    let mut a = state(1500, 300, 0, true, false);
    let before_a = a;
    a.tick();
    assert_eq!(a, before_a);

    let mut b = state(120, 300, 7, false, false);
    let before_b = b;
    b.tick();
    assert_eq!(b, before_b);
}

#[test]
fn decrease_at_floor_is_noop() {
    let mut s = state(60, 300, 45, false, true);
    s.decrease_duration();
    assert_eq!(s.work_duration_seconds, 60);
    assert_eq!(s.remaining_seconds, 60);
}

#[test]
fn decrease_above_floor_subtracts_step() {
    let mut s = state(120, 300, 90, false, false);
    s.decrease_duration();
    assert_eq!(s.work_duration_seconds, 60);
    assert_eq!(s.remaining_seconds, 60);
}

#[test]
fn increase_adds_step_and_resets_countdown() {
    let mut s = state(1500, 300, 4, false, false);
    s.increase_duration();
    assert_eq!(s.work_duration_seconds, 1560);
    assert_eq!(s.remaining_seconds, 1560);

    let mut r = state(1500, 300, 4, true, true);
    r.increase_duration();
    assert_eq!(r.work_duration_seconds, 1560);
    assert_eq!(r.remaining_seconds, 1560);
    assert!(r.running);
    assert!(r.on_break);
}

#[test]
fn toggle_running_flips_only_the_flag() {
    let mut s = state(1500, 300, 77, true, false);
    s.toggle_running();
    assert_eq!(s, state(1500, 300, 77, true, true));
    s.toggle_running();
    assert_eq!(s, state(1500, 300, 77, true, false));
}

#[test]
fn reset_from_any_state() {
    let mut s = state(1560, 300, 3, true, true);
    s.reset();
    assert!(!s.running);
    assert!(!s.on_break);
    assert_eq!(s.remaining_seconds, 1560);
    assert_eq!(s.work_duration_seconds, 1560);

    let mut q = state(60, 300, 0, false, false);
    q.reset();
    assert_eq!(q, state(60, 300, 60, false, false));
}

#[test]
fn serialized_control_actions_stay_consistent() {
    let mut s = TimerState::new();
    s.increase_duration();
    s.decrease_duration();
    assert_eq!(s, state(1500, 300, 1500, false, false));

    let mut q = TimerState::new();
    q.toggle_running();
    q.reset();
    assert_eq!(q, state(1500, 300, 1500, false, false));
}

#[test]
fn can_increase_probe() {
    let s = state(1500, 300, 1500, false, false);
    assert!(s.can_increase());
    let huge = state(usize::MAX - 59, 300, 0, false, false);
    assert!(!huge.can_increase());
}

#[test]
fn timer_line_labels_the_time() {
    assert_eq!(timer_line(65), "Time: 01:05");
    assert_eq!(timer_line(0), "Time: 00:00");
}

#[test]
fn status_line_labels_the_status() {
    assert_eq!(status_line(false, true), "Status: Working!");
    assert_eq!(status_line(true, true), "Status: On Break!");
    assert_eq!(status_line(false, false), "Status: Timer is paused");
}

#[test]
fn start_stop_notice_texts() {
    assert_eq!(start_stop_notice(true), "Timer is running...");
    assert_eq!(start_stop_notice(false), "Timer is paused.");
}

#[test]
fn snapshot_reads_the_three_display_fields() {
    let s = state(1500, 300, 42, true, true);
    assert_eq!(snapshot(&s), (42, true, true));
}
