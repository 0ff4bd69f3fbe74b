use retro_pet::session::{
    set_message, Action, Session, MESSAGE_HOLD_NS, MOOD_HOLD_NS, SAVE_EVERY_NS,
};

const SECOND: u64 = 1_000_000_000;

#[test]
fn set_message_shows_text_for_four_seconds() {
    let mut message = String::from("old");
    let mut until = 0u64;
    set_message(&mut message, &mut until, "Crunch crunch. Much better.", 7 * SECOND);
    assert_eq!(message, "Crunch crunch. Much better.");
    assert_eq!(until, 11 * SECOND);
    assert_eq!(MESSAGE_HOLD_NS, 4 * SECOND);
}

#[test]
fn new_and_returning_pets_are_greeted() {
    let fresh = Session::start(false, 0);
    assert_eq!(fresh.message, "A tiny friend blinks at you.");
    assert!(fresh.save_dirty);
    assert_eq!(fresh.message_until, 4 * SECOND);
    let back = Session::start(true, SECOND);
    assert_eq!(back.message, "Welcome back. It remembers you.");
    assert!(!back.save_dirty);
    assert_eq!((back.last_tick, back.last_save), (SECOND, SECOND));
}

#[test]
fn clock_reports_elapsed_time() {
    let mut s = Session::start(true, 10);
    assert_eq!(s.advance_clock(110), 100);
    assert_eq!(s.last_tick, 110);
    assert_eq!(s.advance_clock(50), 0);
    assert_eq!(s.last_tick, 50);
}

#[test]
fn mood_replaces_only_an_expired_message() {
    let mut s = Session::start(true, 0);
    let due = s.after_update(4 * SECOND, "It bounces in place.");
    assert!(!due);
    assert!(s.save_dirty);
    assert_eq!(s.message, "Welcome back. It remembers you.");
    s.after_update(4 * SECOND + 1, "It bounces in place.");
    assert_eq!(s.message, "It bounces in place.");
    assert_eq!(s.message_until, 4 * SECOND + 1 + MOOD_HOLD_NS);
}

#[test]
fn periodic_save_every_five_seconds() {
    let mut s = Session::start(true, 0);
    assert!(!s.after_update(SAVE_EVERY_NS - 1, "x"));
    assert!(s.after_update(SAVE_EVERY_NS, "x"));
    assert!(s.wants_save());
    s.record_save(Ok(()), SAVE_EVERY_NS);
    assert!(!s.wants_save());
    assert_eq!(s.last_save, SAVE_EVERY_NS);
    assert!(!s.after_update(2 * SAVE_EVERY_NS - 1, "x"));
    assert!(s.after_update(2 * SAVE_EVERY_NS, "x"));
}

#[test]
fn failed_save_keeps_changes_and_says_why() {
    let mut s = Session::start(false, 0);
    s.record_save(Err(String::from("disk full")), 6 * SECOND);
    assert!(s.save_dirty);
    assert_eq!(s.message, "Save failed: disk full");
    assert_eq!(s.message_until, 10 * SECOND);
    assert_eq!(s.last_save, 6 * SECOND);
}

#[test]
fn actions_change_stats_and_speak() {
    let feed = Action::Feed.effect();
    assert_eq!((feed.food, feed.happiness, feed.energy, feed.cleanliness), (22, 0, 4, -5));
    let play = Action::Play.effect();
    assert_eq!((play.food, play.happiness, play.energy, play.cleanliness), (-8, 19, -13, 0));
    let nap = Action::Nap.effect();
    assert_eq!((nap.food, nap.happiness, nap.energy, nap.cleanliness), (-5, 0, 28, 0));
    let wash = Action::Wash.effect();
    assert_eq!((wash.food, wash.happiness, wash.energy, wash.cleanliness), (0, 3, 0, 30));
    assert_eq!(Action::Nap.message(), "A quick snooze restores some spark.");
    assert_eq!(Action::Wash.message(), "Fresh pixels, clear mind.");
}

#[test]
fn action_message_outlasts_mood_lines() {
    let mut s = Session::start(true, 0);
    s.record_save(Ok(()), 0);
    s.record_action(Action::Play, 10 * SECOND);
    assert!(s.save_dirty);
    assert_eq!(s.message, "Bleep! Your pet hops around.");
    s.after_update(14 * SECOND, "It taps at the screen.");
    assert_eq!(s.message, "Bleep! Your pet hops around.");
    s.after_update(14 * SECOND + 1, "It taps at the screen.");
    assert_eq!(s.message, "It taps at the screen.");
}
