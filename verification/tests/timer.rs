use polybar_timer::codec::{format_timestamp, parse_timestamp};
use polybar_timer::display::render_line;
use polybar_timer::ops::{cancel, create, increase, tail_step, toggle};
use polybar_timer::state::TimerState;

const NOW: u64 = 1_700_000_000;

#[test]
fn create_sets_expiry_to_now_plus_duration() {
    let s = create(NOW, 60);
    assert_eq!(s, TimerState::Running { expiry: NOW + 60 });
}

#[test]
fn create_saturates_at_max() {
    let s = create(u64::MAX - 5, 100);
    assert_eq!(s, TimerState::Running { expiry: u64::MAX });
}

#[test]
fn increase_extends_unexpired_timer_by_exact_amount() {
    let s = TimerState::Running { expiry: NOW + 300 };
    let r = increase(s, NOW, 45);
    assert_eq!(r, TimerState::Running { expiry: NOW + 345 });
}

#[test]
fn increase_keeps_pause_mark_when_extending() {
    let s = TimerState::Paused { expiry: NOW + 300, paused_at: NOW + 10 };
    let r = increase(s, NOW + 20, 45);
    assert_eq!(r, TimerState::Paused { expiry: NOW + 345, paused_at: NOW + 10 });
}

#[test]
fn increase_on_expired_timer_restarts_from_now() {
    let s = TimerState::Running { expiry: NOW - 100 };
    let r = increase(s, NOW, 30);
    assert_eq!(r, TimerState::Running { expiry: NOW + 30 });
}

#[test]
fn increase_with_no_timer_creates_one() {
    let r = increase(TimerState::Idle, NOW, 30);
    assert_eq!(r, create(NOW, 30));
    assert_eq!(r, TimerState::Running { expiry: NOW + 30 });
}

#[test]
fn toggle_pauses_a_running_timer() {
    let s = TimerState::Running { expiry: NOW + 300 };
    let r = toggle(s, NOW + 20);
    assert_eq!(r, TimerState::Paused { expiry: NOW + 300, paused_at: NOW + 20 });
}

#[test]
fn toggle_round_trip_advances_expiry_by_paused_time() {
    let s = create(NOW, 300);
    let paused = toggle(s, NOW + 20);
    let resumed = toggle(paused, NOW + 30);
    assert_eq!(resumed, TimerState::Running { expiry: NOW + 310 });
}

#[test]
fn toggle_resume_with_no_elapsed_time_changes_nothing_but_the_pause() {
    let s = TimerState::Paused { expiry: NOW + 300, paused_at: NOW + 20 };
    let r = toggle(s, NOW + 20);
    assert_eq!(r, TimerState::Running { expiry: NOW + 300 });
}

#[test]
fn toggle_resume_tolerates_a_clock_running_backwards() {
    let s = TimerState::Paused { expiry: NOW + 300, paused_at: NOW + 20 };
    let r = toggle(s, NOW + 5);
    assert_eq!(r, TimerState::Running { expiry: NOW + 300 });
}

#[test]
fn toggle_resume_of_a_long_expired_timer_restarts_it() {
    let s = TimerState::Paused { expiry: NOW - 500, paused_at: NOW - 400 };
    let r = toggle(s, NOW);
    assert_eq!(r, TimerState::Running { expiry: NOW + 400 });
}

#[test]
fn toggle_without_a_timer_does_nothing() {
    assert_eq!(toggle(TimerState::Idle, NOW), TimerState::Idle);
}

#[test]
fn cancel_is_idempotent() {
    let once = cancel(TimerState::Running { expiry: NOW + 60 });
    assert_eq!(once, TimerState::Idle);
    let twice = cancel(once);
    assert_eq!(twice, TimerState::Idle);
    assert_eq!(cancel(TimerState::Idle), TimerState::Idle);
}

#[test]
fn no_timer_exists_after_cancel_or_cleanup_or_before_create() {
    assert!(!TimerState::Idle.active());
    let cancelled = cancel(TimerState::Paused { expiry: NOW, paused_at: NOW });
    assert!(!cancelled.active());
    let step = tail_step(TimerState::Running { expiry: NOW }, NOW);
    assert!(step.notify);
    assert!(!step.next.active());
}

#[test]
fn tail_counts_down_fires_once_and_removes_the_timer() {
    let mut state = create(NOW, 60);
    let mut notifications = 0;
    let mut last_line = String::new();
    let mut now = NOW;
    while state.active() {
        let step = tail_step(state, now);
        last_line = render_line("\u{23f5}", "\u{23f8}", step.paused, step.remaining);
        if step.notify {
            notifications += 1;
        }
        state = step.next;
        now += 1;
    }
    assert_eq!(now, NOW + 61);
    assert_eq!(notifications, 1);
    assert_eq!(last_line, "\u{23f5} 00:00");
    assert!(!state.active());
}

#[test]
fn tail_remaining_is_frozen_while_paused() {
    let s = TimerState::Paused { expiry: NOW + 300, paused_at: NOW + 40 };
    let step = tail_step(s, NOW + 200);
    assert_eq!(step.remaining, 260);
    assert!(step.paused);
    assert!(!step.notify);
    assert_eq!(step.next, s);
}

#[test]
fn tail_kills_a_paused_timer_with_nothing_left() {
    let s = TimerState::Paused { expiry: NOW, paused_at: NOW + 5 };
    let step = tail_step(s, NOW + 10);
    assert_eq!(step.remaining, 0);
    assert!(step.notify);
    assert_eq!(step.next, TimerState::Idle);
}

#[test]
fn pause_and_resume_preserve_remaining_time() {
    let s = create(NOW, 300);
    let before = tail_step(s, NOW + 20).remaining;
    let paused = toggle(s, NOW + 20);
    let resumed = toggle(paused, NOW + 30);
    let after = tail_step(resumed, NOW + 30).remaining;
    assert_eq!(before, after);
    assert_eq!(after, 280);
}

#[test]
fn format_writes_plain_decimal_digits() {
    assert_eq!(format_timestamp(0), b"0".to_vec());
    assert_eq!(format_timestamp(7), b"7".to_vec());
    assert_eq!(format_timestamp(1_234_567_890), b"1234567890".to_vec());
    assert_eq!(format_timestamp(u64::MAX), b"18446744073709551615".to_vec());
}

#[test]
fn parse_reads_back_every_formatted_timestamp() {
    for n in [0, 1, 9, 10, 59, 60, NOW, u64::MAX - 1, u64::MAX] {
        assert_eq!(parse_timestamp(&format_timestamp(n)), Some(n));
    }
}

#[test]
fn parse_accepts_leading_zeros() {
    assert_eq!(parse_timestamp(&b"007".to_vec()), Some(7));
    assert_eq!(parse_timestamp(&b"0".to_vec()), Some(0));
}

#[test]
fn parse_rejects_what_is_not_a_plain_decimal_number() {
    assert_eq!(parse_timestamp(&b"".to_vec()), None);
    assert_eq!(parse_timestamp(&b"12a".to_vec()), None);
    assert_eq!(parse_timestamp(&b"-5".to_vec()), None);
    assert_eq!(parse_timestamp(&b"+5".to_vec()), None);
    assert_eq!(parse_timestamp(&b" 5".to_vec()), None);
    assert_eq!(parse_timestamp(&b"5 ".to_vec()), None);
}

#[test]
fn parse_rejects_values_too_large_for_a_timestamp() {
    assert_eq!(parse_timestamp(&b"18446744073709551616".to_vec()), None);
    assert_eq!(parse_timestamp(&b"99999999999999999999999".to_vec()), None);
}

#[test]
fn render_pads_minutes_and_seconds_to_two_digits() {
    assert_eq!(render_line("R", "P", false, 0), "R 00:00");
    assert_eq!(render_line("R", "P", false, 5), "R 00:05");
    assert_eq!(render_line("R", "P", false, 65), "R 01:05");
    assert_eq!(render_line("R", "P", false, 600), "R 10:00");
    assert_eq!(render_line("R", "P", false, 3599), "R 59:59");
}

#[test]
fn render_does_not_wrap_minutes_at_sixty() {
    assert_eq!(render_line("R", "P", false, 6000), "R 100:00");
    assert_eq!(render_line("R", "P", false, 3600), "R 60:00");
}

#[test]
fn render_picks_the_icon_from_the_pause_flag() {
    assert_eq!(render_line("\u{23f5}", "\u{23f8}", false, 61), "\u{23f5} 01:01");
    assert_eq!(render_line("\u{23f5}", "\u{23f8}", true, 61), "\u{23f8} 01:01");
}
