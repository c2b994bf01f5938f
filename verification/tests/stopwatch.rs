use stopwatch::app::App;
use stopwatch::format::format_millis_field;
use stopwatch::format::format_minutes_seconds;
use stopwatch::input::command_of;
use stopwatch::input::Command;
use stopwatch::input::InputEvent;
use stopwatch::input::KeyCode;
use stopwatch::input::KeyKind;
use stopwatch::timer::TimerState;

fn press(code: KeyCode) -> InputEvent {
    InputEvent::Key { code, kind: KeyKind::Press }
}

fn release(code: KeyCode) -> InputEvent {
    InputEvent::Key { code, kind: KeyKind::Release }
}

#[test]
fn elapsed_monotonic_while_running() {
    let t = TimerState::init(100);
    assert_eq!(t.elapsed_at(100), 0);
    assert_eq!(t.elapsed_at(150), 50);
    assert_eq!(t.elapsed_at(200), 100);
}

#[test]
fn elapsed_constant_while_paused() {
    let mut t = TimerState::init(0);
    t.pause_at(70);
    assert_eq!(t.elapsed_at(70), 70);
    assert_eq!(t.elapsed_at(500), 70);
    assert_eq!(t.elapsed_at(9_000), 70);
}

#[test]
fn elapsed_excludes_paused_spans() {
    let mut t = TimerState::init(0);
    t.pause_at(40);
    t.resume_at(100);
    assert_eq!(t.elapsed_at(100), 40);
    assert_eq!(t.elapsed_at(160), 100);
}

#[test]
fn pause_resume_round_trip_keeps_elapsed() {
    let mut t = TimerState::init(0);
    t.pause_at(1_000);
    t.resume_at(1_000);
    assert_eq!(t.elapsed_at(1_000), 1_000);
    assert_eq!(t.elapsed_at(2_500), 2_500);
}

#[test]
fn reset_is_idempotent() {
    let mut once = TimerState::init(0);
    once.pause_at(30);
    once.resume_at(50);
    let mut twice = once;
    once.reset_at(90);
    twice.reset_at(90);
    twice.reset_at(90);
    assert_eq!(once, twice);
    assert_eq!(once.elapsed_at(90), 0);
    assert_eq!(twice.elapsed_at(90), 0);
}

#[test]
fn reset_while_paused_stays_at_zero() {
    let mut t = TimerState::init(0);
    t.pause_at(50);
    t.reset_at(80);
    assert!(t.paused);
    assert_eq!(t.elapsed_at(200), 0);
    assert_eq!(format_minutes_seconds(t.elapsed_at(200)).as_str(), "00:00");
    assert_eq!(format_millis_field(t.elapsed_at(200)).as_str(), ":000");
    t.resume_at(300);
    assert_eq!(t.elapsed_at(450), 150);
}

#[test]
fn toggle_twice_restores_run_state_and_elapsed() {
    let mut t = TimerState::init(0);
    t.toggle_at(10);
    assert!(t.paused);
    t.toggle_at(10);
    assert!(!t.paused);
    assert_eq!(t.elapsed_at(10), 10);
    assert_eq!(t.elapsed_at(25), 25);

    let mut p = TimerState::init(0);
    p.pause_at(5);
    p.toggle_at(8);
    assert!(!p.paused);
    p.toggle_at(8);
    assert!(p.paused);
    assert_eq!(p.elapsed_at(8), 5);
    assert_eq!(p.elapsed_at(99), 5);
}

#[test]
fn formats_last_moment_of_first_minute() {
    assert_eq!(format_minutes_seconds(59_999_000_000).as_str(), "00:59");
    assert_eq!(format_millis_field(59_999_000_000).as_str(), ":999");
}

#[test]
fn formats_first_moment_of_second_minute() {
    assert_eq!(format_minutes_seconds(60_000_000_000).as_str(), "01:00");
    assert_eq!(format_millis_field(60_000_000_000).as_str(), ":000");
}

#[test]
fn formats_one_hour_as_sixty_minutes() {
    assert_eq!(format_minutes_seconds(3_600_000_000_000).as_str(), "60:00");
    assert_eq!(format_millis_field(3_600_000_000_000).as_str(), ":000");
}

#[test]
fn formats_zero() {
    assert_eq!(format_minutes_seconds(0).as_str(), "00:00");
    assert_eq!(format_millis_field(0).as_str(), ":000");
}

#[test]
fn formats_minutes_beyond_two_digits() {
    assert_eq!(format_minutes_seconds(6_000_000_000_000).as_str(), "100:00");
    assert_eq!(format_millis_field(6_000_000_000_000).as_str(), ":000");
}

#[test]
fn formats_submillisecond_remainder_truncated() {
    assert_eq!(format_minutes_seconds(1_234_567_890).as_str(), "00:01");
    assert_eq!(format_millis_field(1_234_567_890).as_str(), ":234");
}

#[test]
fn quit_keys_map_to_quit() {
    assert_eq!(command_of(&press(KeyCode::Char('q'))), Command::Quit);
    assert_eq!(command_of(&press(KeyCode::Esc)), Command::Quit);
}

#[test]
fn space_and_r_map_to_toggle_and_reset() {
    assert_eq!(command_of(&press(KeyCode::Char(' '))), Command::Toggle);
    assert_eq!(command_of(&press(KeyCode::Char('r'))), Command::Reset);
}

#[test]
fn other_input_is_ignored() {
    assert_eq!(command_of(&press(KeyCode::Char('x'))), Command::Ignore);
    assert_eq!(command_of(&press(KeyCode::Char('Q'))), Command::Ignore);
    assert_eq!(command_of(&press(KeyCode::Other)), Command::Ignore);
    assert_eq!(command_of(&InputEvent::Other), Command::Ignore);
}

#[test]
fn key_release_and_repeat_are_ignored() {
    assert_eq!(command_of(&release(KeyCode::Char(' '))), Command::Ignore);
    assert_eq!(command_of(&release(KeyCode::Char('q'))), Command::Ignore);
    let repeat = InputEvent::Key { code: KeyCode::Char(' '), kind: KeyKind::Repeat };
    assert_eq!(command_of(&repeat), Command::Ignore);
}

#[test]
fn quit_press_sets_quit_flag() {
    let mut app = App::new();
    assert!(!app.should_quit);
    app.handle_event(&press(KeyCode::Char('q')));
    assert!(app.should_quit);
}

#[test]
fn escape_press_sets_quit_flag() {
    let mut app = App::new();
    app.handle_event(&press(KeyCode::Esc));
    assert!(app.should_quit);
}

#[test]
fn space_release_does_not_toggle() {
    let mut app = App::new();
    app.handle_event(&release(KeyCode::Char(' ')));
    assert!(!app.timer.paused);
    assert!(!app.should_quit);
    app.handle_event(&press(KeyCode::Char(' ')));
    assert!(app.timer.paused);
    app.handle_event(&release(KeyCode::Char(' ')));
    assert!(app.timer.paused);
}

#[test]
fn real_clock_elapsed_is_monotonic() {
    let app = App::new();
    let first = app.get_current_timer();
    let second = app.get_current_timer();
    assert!(second >= first);
}

#[test]
fn real_clock_paused_elapsed_is_frozen() {
    let mut app = App::new();
    app.pause_timer();
    let first = app.get_current_timer();
    let second = app.get_current_timer();
    assert_eq!(first, second);
    assert_eq!(first, app.timer.accumulated_nanos);
}

#[test]
fn real_clock_reset_while_paused_displays_zero() {
    let mut app = App::new();
    app.toggle_timer();
    assert!(app.timer.paused);
    app.handle_event(&press(KeyCode::Char('r')));
    assert_eq!(app.get_current_timer(), 0);
    assert_eq!(app.display_seconds().as_str(), "00:00");
    assert_eq!(app.display_millis().as_str(), ":000");
}

#[test]
fn unpause_after_pause_keeps_running_state() {
    let mut app = App::new();
    app.pause_timer();
    assert!(app.timer.paused);
    app.unpause_timer();
    assert!(!app.timer.paused);
    app.unpause_timer();
    assert!(!app.timer.paused);
}
