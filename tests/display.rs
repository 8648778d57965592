use leaffront::backend::{Backend, BackendError, NullBackend};
use leaffront::clock::is_night_at;
use leaffront::config::{Day, Night, Sleep};
use leaffront::input::GlutinInput;
use leaffront::state::{brightness_for, day_suffix, next_state, Message, ScreenState};

const HOUR: u32 = 3600;

#[test]
fn night_across_midnight() {
    assert!(is_night_at(22, 7, 23 * HOUR, 0));
    assert!(is_night_at(22, 7, 3 * HOUR, 0));
    assert!(!is_night_at(22, 7, 12 * HOUR, 0));
    assert!(!is_night_at(22, 7, 7 * HOUR, 0));
    assert!(!is_night_at(22, 7, 22 * HOUR, 0));
    assert!(is_night_at(22, 7, 22 * HOUR, 1));
}

#[test]
fn night_within_one_day() {
    assert!(is_night_at(1, 5, 3 * HOUR, 0));
    assert!(!is_night_at(1, 5, 6 * HOUR, 0));
    assert!(!is_night_at(1, 5, 0, 0));
}

#[test]
fn messages_alternate() {
    assert!(Message::Date.next() == Message::Weather);
    assert!(Message::Weather.next() == Message::Date);
    assert!(ScreenState::Day(Message::Date) != ScreenState::Night);
}

#[test]
fn null_backend_has_nothing() {
    let mut b = NullBackend::new().unwrap();
    assert!(b.get_notification().is_none());
    assert_eq!(BackendError::RedisFail, BackendError::RedisFail);
}

#[test]
fn config_values() {
    let s = Sleep { sleep_hour: 22, wakeup_hour: 7 };
    let n = Night { move_secs: 5, night_tap_cooldown: 3, brightness: 10 };
    let d = Day { background_secs: 60, subtitle_secs: 10, brightness: 255 };
    assert_eq!((s.sleep_hour, n.brightness, d.brightness), (22, 10, 255));
}

#[test]
fn input_tracks_pointer_and_close() {
    let mut i = GlutinInput::new();
    assert!(!i.is_mouse_down());
    assert!(i.do_continue());
    i.mouse_input(true);
    i.cursor_moved(12, 34);
    assert!(i.is_mouse_down());
    assert_eq!(i.get_mouse_pos(), (12, 34));
    i.cursor_moved(-1, 0);
    assert_eq!(i.get_mouse_pos(), (usize::MAX, 0));
    i.close_requested();
    assert!(!i.do_continue());
}

#[test]
fn day_goes_to_night_after_cooldown() {
    let day = ScreenState::Day(Message::Weather);
    assert!(next_state(day, false, true, true, false) == Some(ScreenState::Night));
    assert!(next_state(day, false, false, true, false) == None);
    assert!(next_state(day, false, false, true, true) == Some(ScreenState::Day(Message::Date)));
    assert!(next_state(day, false, true, false, false) == None);
}

#[test]
fn night_wakes_on_tap_or_morning() {
    let night = ScreenState::Night;
    assert!(next_state(night, true, false, true, false) == Some(ScreenState::Day(Message::Date)));
    assert!(next_state(night, false, false, false, false) == Some(ScreenState::Day(Message::Date)));
    assert!(next_state(night, false, true, true, true) == None);
}

#[test]
fn brightness_follows_mode() {
    let d = Day { background_secs: 60, subtitle_secs: 10, brightness: 200 };
    let n = Night { move_secs: 5, night_tap_cooldown: 3, brightness: 12 };
    assert_eq!(brightness_for(ScreenState::Night, &d, &n), 12);
    assert_eq!(brightness_for(ScreenState::Day(Message::Date), &d, &n), 200);
}

#[test]
fn ordinal_suffixes() {
    let got: Vec<&str> = [1, 2, 3, 4, 11, 12, 13, 21, 22, 23, 30, 31].iter().map(|d| day_suffix(*d)).collect();
    assert_eq!(got, vec!["st", "nd", "rd", "th", "th", "th", "th", "st", "nd", "rd", "th", "st"]);
}

#[test]
fn leap_second_stays_in_its_second() {
    // 06:59:60.5 is still before a night ending at 07:00
    assert!(is_night_at(22, 7, 7 * HOUR - 1, 1_500_000_000));
    assert!(!is_night_at(22, 7, 7 * HOUR, 0));
}
