//! The bookkeeping of a play session: the message under the screen, how long it stays,
//! and when the pet is written to disk. Clock readings are nanoseconds on one
//! monotonic clock; the caller reads the clock and performs the saves.

use vstd::prelude::*;
use vstd::string::*;

verus! {

/// How long a greeting, an action's message or a failed save's message stays up.
pub const MESSAGE_HOLD_NS: u64 = 4_000_000_000;

/// How long a mood line stays up before the next one replaces it.
pub const MOOD_HOLD_NS: u64 = 3_000_000_000;

/// The least time between two saves on the periodic path.
pub const SAVE_EVERY_NS: u64 = 5_000_000_000;

/// Something the player does for the pet.
#[derive(Clone, Copy, Debug, PartialEq, Eq, Structural)]
pub enum Action {
    Feed,
    Play,
    Nap,
    Wash,
}

/// A change to each of the four stats, in whole points, before clamping.
#[derive(Clone, Copy, Debug, PartialEq, Eq, Structural)]
pub struct StatChange {
    pub food: i32,
    pub happiness: i32,
    pub energy: i32,
    pub cleanliness: i32,
}

pub open spec fn change(food: int, happiness: int, energy: int, cleanliness: int) -> StatChange {
    StatChange {
        food: food as i32,
        happiness: happiness as i32,
        energy: energy as i32,
        cleanliness: cleanliness as i32,
    }
}

impl Action {
    pub open spec fn spec_effect(self) -> StatChange {
        match self {
            Action::Feed => change(22, 0, 4, -5),
            Action::Play => change(-8, 19, -13, 0),
            Action::Nap => change(-5, 0, 28, 0),
            Action::Wash => change(0, 3, 0, 30),
        }
    }

    /// What the action does to each stat; a stat with no change is left untouched.
    pub fn effect(self) -> (delta: StatChange)
        ensures
            delta == self.spec_effect(),
    {
        match self {
            Action::Feed => StatChange { food: 22, happiness: 0, energy: 4, cleanliness: -5 },
            Action::Play => StatChange { food: -8, happiness: 19, energy: -13, cleanliness: 0 },
            Action::Nap => StatChange { food: -5, happiness: 0, energy: 28, cleanliness: 0 },
            Action::Wash => StatChange { food: 0, happiness: 3, energy: 0, cleanliness: 30 },
        }
    }

    pub open spec fn spec_message(self) -> Seq<char> {
        match self {
            Action::Feed => "Crunch crunch. Much better."@,
            Action::Play => "Bleep! Your pet hops around."@,
            Action::Nap => "A quick snooze restores some spark."@,
            Action::Wash => "Fresh pixels, clear mind."@,
        }
    }

    /// The message shown after the action.
    pub fn message(self) -> (text: &'static str)
        ensures
            text@ == self.spec_message(),
    {
        match self {
            Action::Feed => "Crunch crunch. Much better.",
            Action::Play => "Bleep! Your pet hops around.",
            Action::Nap => "A quick snooze restores some spark.",
            Action::Wash => "Fresh pixels, clear mind.",
        }
    }
}

/// Shows `text` until [`MESSAGE_HOLD_NS`] after `now`.
pub fn set_message(message: &mut String, message_until: &mut u64, text: &str, now: u64)
    requires
        now + MESSAGE_HOLD_NS <= u64::MAX,
    ensures
        final(message)@ == text@,
        *final(message_until) == now + MESSAGE_HOLD_NS,
{
    *message = text.to_owned();
    *message_until = now + MESSAGE_HOLD_NS;
}

/// The state of a session between two frames.
pub struct Session {
    /// When the stats were last brought up to date.
    pub last_tick: u64,
    /// When a save was last attempted.
    pub last_save: u64,
    /// Whether the pet has changed since it was last written.
    pub save_dirty: bool,
    /// The line shown under the screen.
    pub message: String,
    /// Until when the message is kept before a mood line may replace it.
    pub message_until: u64,
}

/// A session as plain values.
pub struct SessionView {
    pub last_tick: u64,
    pub last_save: u64,
    pub save_dirty: bool,
    pub message: Seq<char>,
    pub message_until: u64,
}

impl View for Session {
    type V = SessionView;

    open spec fn view(&self) -> SessionView {
        SessionView {
            last_tick: self.last_tick,
            last_save: self.last_save,
            save_dirty: self.save_dirty,
            message: self.message@,
            message_until: self.message_until,
        }
    }
}

pub open spec fn greeting(loaded_existing_pet: bool) -> Seq<char> {
    if loaded_existing_pet {
        "Welcome back. It remembers you."@
    } else {
        "A tiny friend blinks at you."@
    }
}

/// A session that begins at `now`: a pet read back from disk is greeted as an old friend and
/// counts as saved; a new pet still has to be written.
pub open spec fn started(loaded_existing_pet: bool, now: u64) -> SessionView {
    SessionView {
        last_tick: now,
        last_save: now,
        save_dirty: !loaded_existing_pet,
        message: greeting(loaded_existing_pet),
        message_until: (now + MESSAGE_HOLD_NS) as u64,
    }
}

/// Time passed since `since`, or none if the clock reads earlier than that.
pub open spec fn elapsed_since(since: u64, now: u64) -> u64 {
    if now >= since {
        (now - since) as u64
    } else {
        0
    }
}

/// The session once the clock has moved to `now` and the stats have been brought up to it,
/// with `mood` the pet's mood line after that.
pub open spec fn ticked(s: SessionView, now: u64, mood: Seq<char>) -> SessionView {
    if now > s.message_until {
        SessionView {
            last_tick: now,
            save_dirty: true,
            message: mood,
            message_until: (now + MOOD_HOLD_NS) as u64,
            ..s
        }
    } else {
        SessionView { last_tick: now, save_dirty: true, ..s }
    }
}

/// Whether the periodic save is due at `now`.
pub open spec fn save_due(s: SessionView, now: u64) -> bool {
    elapsed_since(s.last_save, now) >= SAVE_EVERY_NS
}

pub open spec fn failure_message(error: Seq<char>) -> Seq<char> {
    "Save failed: "@ + error
}

/// The session after a save attempted at `now` came back with `outcome`.
pub open spec fn saved(s: SessionView, outcome: Result<(), Seq<char>>, now: u64) -> SessionView {
    match outcome {
        Ok(()) => SessionView { save_dirty: false, last_save: now, ..s },
        Err(error) => SessionView {
            last_save: now,
            message: failure_message(error),
            message_until: (now + MESSAGE_HOLD_NS) as u64,
            ..s
        },
    }
}

/// The session after the player performed `action` at `now`.
pub open spec fn acted(s: SessionView, action: Action, now: u64) -> SessionView {
    SessionView {
        save_dirty: true,
        message: action.spec_message(),
        message_until: (now + MESSAGE_HOLD_NS) as u64,
        ..s
    }
}

pub open spec fn outcome_view(outcome: Result<(), String>) -> Result<(), Seq<char>> {
    match outcome {
        Ok(()) => Ok(()),
        Err(error) => Err(error@),
    }
}

impl Session {
    pub fn start(loaded_existing_pet: bool, now: u64) -> (session: Session)
        requires
            now + MESSAGE_HOLD_NS <= u64::MAX,
        ensures
            session@ == started(loaded_existing_pet, now),
    {
        let text = if loaded_existing_pet {
            "Welcome back. It remembers you."
        } else {
            "A tiny friend blinks at you."
        };
        Session {
            last_tick: now,
            last_save: now,
            save_dirty: !loaded_existing_pet,
            message: text.to_owned(),
            message_until: now + MESSAGE_HOLD_NS,
        }
    }

    /// Moves the clock to `now` and returns the time the stats have to catch up on.
    pub fn advance_clock(&mut self, now: u64) -> (elapsed: u64)
        ensures
            elapsed == elapsed_since(old(self).last_tick, now),
            final(self)@ == (SessionView { last_tick: now, ..old(self)@ }),
    {
        let elapsed = if now >= self.last_tick {
            now - self.last_tick
        } else {
            0
        };
        self.last_tick = now;
        elapsed
    }

    /// After the stats were brought up to `now`: the pet has changed, an expired message gives
    /// way to `mood`, and the result says whether the periodic save is due.
    pub fn after_update(&mut self, now: u64, mood: &str) -> (due: bool)
        requires
            now + MOOD_HOLD_NS <= u64::MAX,
        ensures
            final(self)@ == ticked(old(self)@, now, mood@),
            due == save_due(old(self)@, now),
    {
        self.last_tick = now;
        self.save_dirty = true;
        if now > self.message_until {
            self.message = mood.to_owned();
            self.message_until = now + MOOD_HOLD_NS;
        }
        now >= self.last_save && now - self.last_save >= SAVE_EVERY_NS
    }

    /// Whether a save has anything to write; a clean session is not saved.
    pub fn wants_save(&self) -> (wanted: bool)
        ensures
            wanted == self.save_dirty,
    {
        self.save_dirty
    }

    /// Takes note of a save attempted at `now`.
    pub fn record_save(&mut self, outcome: Result<(), String>, now: u64)
        requires
            now + MESSAGE_HOLD_NS <= u64::MAX,
        ensures
            final(self)@ == saved(old(self)@, outcome_view(outcome), now),
    {
        match outcome {
            Ok(()) => {
                self.save_dirty = false;
                self.last_save = now;
            },
            Err(error) => {
                let mut text = "Save failed: ".to_owned();
                text.append(error.as_str());
                self.message = text;
                self.message_until = now + MESSAGE_HOLD_NS;
                self.last_save = now;
            },
        }
    }

    /// Takes note of an action the player performed at `now`.
    pub fn record_action(&mut self, action: Action, now: u64)
        requires
            now + MESSAGE_HOLD_NS <= u64::MAX,
        ensures
            final(self)@ == acted(old(self)@, action, now),
    {
        self.save_dirty = true;
        set_message(&mut self.message, &mut self.message_until, action.message(), now);
    }
}

/// A save attempt, whatever its outcome, holds off the periodic save: a tick within
/// [`SAVE_EVERY_NS`] of the attempt does not find a save due.
pub proof fn saves_are_spaced(
    s: SessionView,
    outcome: Result<(), Seq<char>>,
    saved_at: u64,
    now: u64,
)
    requires
        saved_at <= now < saved_at + SAVE_EVERY_NS,
    ensures
        !save_due(saved(s, outcome, saved_at), now),
{
}

/// A tick always leaves the pet with changes to write, so the save that follows it writes.
pub proof fn tick_leaves_changes_to_save(s: SessionView, now: u64, mood: Seq<char>)
    ensures
        ticked(s, now, mood).save_dirty,
{
}

/// A successful save leaves nothing to write; a failed one keeps the changes and says so.
pub proof fn save_outcome_is_reported(s: SessionView, error: Seq<char>, now: u64)
    ensures
        !saved(s, Ok(()), now).save_dirty,
        saved(s, Err(error), now).save_dirty == s.save_dirty,
        saved(s, Err(error), now).message == failure_message(error),
{
}

/// The message of an action stays up through every tick until [`MESSAGE_HOLD_NS`] have passed;
/// a tick after that replaces it with the mood line.
pub proof fn action_message_is_held(
    s: SessionView,
    action: Action,
    acted_at: u64,
    now: u64,
    mood: Seq<char>,
)
    requires
        acted_at + MESSAGE_HOLD_NS <= u64::MAX,
    ensures
        now <= acted_at + MESSAGE_HOLD_NS ==> ticked(acted(s, action, acted_at), now, mood).message
            == action.spec_message(),
        now > acted_at + MESSAGE_HOLD_NS ==> ticked(acted(s, action, acted_at), now, mood).message
            == mood,
{
}

/// A pet read back from disk starts saved; a new one starts with changes to write.
pub proof fn only_new_pets_start_unsaved(now: u64)
    ensures
        !started(true, now).save_dirty,
        started(false, now).save_dirty,
{
}

/// The periodic save is due exactly when at least [`SAVE_EVERY_NS`] have passed since the last
/// save: never earlier, and at every reading from then on.
pub proof fn save_is_due_once_interval_passed(s: SessionView, now: u64, later: u64)
    ensures
        now >= s.last_save + SAVE_EVERY_NS ==> save_due(s, now),
        now < s.last_save + SAVE_EVERY_NS ==> !save_due(s, now),
        save_due(s, now) && now <= later ==> save_due(s, later),
{
}

} // verus!
