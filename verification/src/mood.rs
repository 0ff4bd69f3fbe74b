//! How a pet's stats read: the line it says, the face it makes and the stage of life it is in.

use vstd::prelude::*;
use crate::pet::Personality;

verus! {

/// A stat under this many points is low enough for the pet to complain about it.
pub const COMPLAINT_BELOW: u32 = 20;

/// An average of the four stats above this many points makes the pet glow.
pub const GLOWING_ABOVE: u32 = 78;

/// An average, or an energy, under this many points shows on the pet's face.
pub const FACE_LOW_BELOW: u32 = 25;

/// A happiness above this many points makes the pet smile.
pub const SMILE_ABOVE: u32 = 72;

/// Seconds of a pet's age that make one day of its life.
pub const SECONDS_PER_DAY: u32 = 90;

/// What the mood line reads of the stats: each field is one comparison against
/// [`COMPLAINT_BELOW`] (a stat under it) or [`GLOWING_ABOVE`] (the average above it).
#[derive(Clone, Copy, Debug, PartialEq, Eq, Structural)]
pub struct Vitals {
    pub food_low: bool,
    pub energy_low: bool,
    pub cleanliness_low: bool,
    pub happiness_low: bool,
    pub average_high: bool,
}

/// The line a pet says, given its personality and what its stats read.
pub open spec fn spec_mood_line(personality: Personality, vitals: Vitals) -> Seq<char> {
    if vitals.food_low {
        "It points at its empty snack meter."@
    } else if vitals.energy_low {
        "It wobbles sleepily."@
    } else if vitals.cleanliness_low {
        "It could use a scrub."@
    } else if vitals.happiness_low {
        "It misses playtime."@
    } else if vitals.average_high {
        match personality {
            Personality::Chipper => "It practically glows with excitement."@,
            Personality::Sleepy => "It looks deeply cozy."@,
            Personality::Curious => "It studies you with bright eyes."@,
            Personality::Fussy => "It accepts your care with dignity."@,
        }
    } else {
        match personality {
            Personality::Chipper => "It bounces in place."@,
            Personality::Sleepy => "It watches the room quietly."@,
            Personality::Curious => "It taps at the screen."@,
            Personality::Fussy => "It waits for better service."@,
        }
    }
}

/// The needs come first, in the order food, energy, cleanliness, happiness;
/// only a pet with none of them speaks in its personality's voice.
pub fn mood_line(personality: Personality, vitals: Vitals) -> (line: &'static str)
    ensures
        line@ == spec_mood_line(personality, vitals),
{
    if vitals.food_low {
        "It points at its empty snack meter."
    } else if vitals.energy_low {
        "It wobbles sleepily."
    } else if vitals.cleanliness_low {
        "It could use a scrub."
    } else if vitals.happiness_low {
        "It misses playtime."
    } else if vitals.average_high {
        match personality {
            Personality::Chipper => "It practically glows with excitement.",
            Personality::Sleepy => "It looks deeply cozy.",
            Personality::Curious => "It studies you with bright eyes.",
            Personality::Fussy => "It accepts your care with dignity.",
        }
    } else {
        match personality {
            Personality::Chipper => "It bounces in place.",
            Personality::Sleepy => "It watches the room quietly.",
            Personality::Curious => "It taps at the screen.",
            Personality::Fussy => "It waits for better service.",
        }
    }
}

/// The expression drawn on a pet.
#[derive(Clone, Copy, Debug, PartialEq, Eq, Structural)]
pub enum Face {
    Happy,
    Neutral,
    Sad,
    Sleepy,
}

/// What the face reads of the stats: the average and the energy against
/// [`FACE_LOW_BELOW`], the happiness against [`SMILE_ABOVE`].
#[derive(Clone, Copy, Debug, PartialEq, Eq, Structural)]
pub struct Expression {
    pub average_low: bool,
    pub energy_low: bool,
    pub happiness_high: bool,
}

pub open spec fn spec_face(expression: Expression) -> Face {
    if expression.average_low {
        Face::Sad
    } else if expression.energy_low {
        Face::Sleepy
    } else if expression.happiness_high {
        Face::Happy
    } else {
        Face::Neutral
    }
}

/// A neglected pet looks sad whatever else holds; a tired one looks sleepy;
/// otherwise it smiles when happy enough.
pub fn face(expression: Expression) -> (shown: Face)
    ensures
        shown == spec_face(expression),
{
    if expression.average_low {
        Face::Sad
    } else if expression.energy_low {
        Face::Sleepy
    } else if expression.happiness_high {
        Face::Happy
    } else {
        Face::Neutral
    }
}

/// The stages of life, numbered in the order a pet goes through them.
pub open spec fn stage_rank(day: u32) -> int {
    if 1 <= day <= 2 {
        0
    } else if 3 <= day <= 5 {
        1
    } else {
        2
    }
}

pub open spec fn spec_stage(day: u32) -> Seq<char> {
    if 1 <= day <= 2 {
        "Baby"@
    } else if 3 <= day <= 5 {
        "Kid"@
    } else {
        "Pal"@
    }
}

/// The name of the stage of life a pet is in on the given day (days count from one).
pub fn stage_for_day(day: u32) -> (stage: &'static str)
    ensures
        stage@ == spec_stage(day),
{
    match day {
        1..=2 => "Baby",
        3..=5 => "Kid",
        _ => "Pal",
    }
}

pub open spec fn stage_name(rank: int) -> Seq<char> {
    if rank == 0 {
        "Baby"@
    } else if rank == 1 {
        "Kid"@
    } else {
        "Pal"@
    }
}

/// A pet only grows up: from day one on, a later day is never in an earlier stage of life.
pub proof fn stages_only_advance(earlier: u32, later: u32)
    requires
        1 <= earlier <= later,
    ensures
        spec_stage(earlier) == stage_name(stage_rank(earlier)),
        spec_stage(later) == stage_name(stage_rank(later)),
        stage_rank(earlier) <= stage_rank(later),
{
}

/// Hunger speaks first: a hungry pet asks for food whatever its other stats and personality.
pub proof fn hunger_speaks_first(personality: Personality, vitals: Vitals)
    requires
        vitals.food_low,
    ensures
        spec_mood_line(personality, vitals) == "It points at its empty snack meter."@,
{
}

/// A pet speaks in its personality's voice only when none of its stats is low.
pub proof fn personality_shows_only_when_content(first: Personality, second: Personality, vitals: Vitals)
    requires
        vitals.food_low || vitals.energy_low || vitals.cleanliness_low || vitals.happiness_low,
    ensures
        spec_mood_line(first, vitals) == spec_mood_line(second, vitals),
{
}

/// A neglected pet looks sad, however much energy or happiness it has.
pub proof fn neglect_shows_as_sadness(expression: Expression)
    requires
        expression.average_low,
    ensures
        spec_face(expression) == Face::Sad,
{
}

/// No stat of the pet is low.
pub open spec fn content(vitals: Vitals) -> bool {
    !vitals.food_low && !vitals.energy_low && !vitals.cleanliness_low && !vitals.happiness_low
}

/// A content pet whose average is high glows, in its personality's words; one whose average is
/// not high says something calmer, and never the same words.
pub proof fn glowing_pets_say_so(personality: Personality, vitals: Vitals)
    requires
        content(vitals),
    ensures
        vitals.average_high ==> spec_mood_line(Personality::Chipper, vitals)
            == "It practically glows with excitement."@,
        vitals.average_high ==> spec_mood_line(Personality::Sleepy, vitals)
            == "It looks deeply cozy."@,
        vitals.average_high ==> spec_mood_line(Personality::Curious, vitals)
            == "It studies you with bright eyes."@,
        vitals.average_high ==> spec_mood_line(Personality::Fussy, vitals)
            == "It accepts your care with dignity."@,
        !vitals.average_high ==> spec_mood_line(Personality::Chipper, vitals)
            == "It bounces in place."@,
        !vitals.average_high ==> spec_mood_line(Personality::Sleepy, vitals)
            == "It watches the room quietly."@,
        !vitals.average_high ==> spec_mood_line(Personality::Curious, vitals)
            == "It taps at the screen."@,
        !vitals.average_high ==> spec_mood_line(Personality::Fussy, vitals)
            == "It waits for better service."@,
        spec_mood_line(personality, Vitals { average_high: true, ..vitals }) != spec_mood_line(
            personality,
            Vitals { average_high: false, ..vitals },
        ),
{
    reveal_strlit("It practically glows with excitement.");
    reveal_strlit("It looks deeply cozy.");
    reveal_strlit("It studies you with bright eyes.");
    reveal_strlit("It accepts your care with dignity.");
    reveal_strlit("It bounces in place.");
    reveal_strlit("It watches the room quietly.");
    reveal_strlit("It taps at the screen.");
    reveal_strlit("It waits for better service.");
    let glow = spec_mood_line(personality, Vitals { average_high: true, ..vitals });
    let calm = spec_mood_line(personality, Vitals { average_high: false, ..vitals });
    if glow == calm {
        assert(glow.len() == calm.len());
        assert(glow[3] == calm[3]);
        assert(glow[4] == calm[4]);
    }
}

/// A pet that is not neglected but is tired looks sleepy, however happy it is; a pet that is
/// neither neglected nor tired smiles exactly when happy enough, and otherwise looks neutral.
pub proof fn tired_pets_look_sleepy(expression: Expression)
    ensures
        !expression.average_low && expression.energy_low ==> spec_face(expression) == Face::Sleepy,
        !expression.average_low && !expression.energy_low && expression.happiness_high
            ==> spec_face(expression) == Face::Happy,
        !expression.average_low && !expression.energy_low && !expression.happiness_high
            ==> spec_face(expression) == Face::Neutral,
{
}

} // verus!
