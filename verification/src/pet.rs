//! The traits a pet is born with.

use vstd::prelude::*;

verus! {

/// The temperament of a pet; it decides starting stats, decay and mood lines.
#[derive(Clone, Copy, Debug, PartialEq, Eq, Structural)]
pub enum Personality {
    Chipper,
    Sleepy,
    Curious,
    Fussy,
}

impl Personality {
    /// The name shown for this personality.
    pub open spec fn spec_label(self) -> Seq<char> {
        match self {
            Personality::Chipper => "Chipper"@,
            Personality::Sleepy => "Sleepy"@,
            Personality::Curious => "Curious"@,
            Personality::Fussy => "Fussy"@,
        }
    }

    pub fn label(self) -> (text: &'static str)
        ensures
            text@ == self.spec_label(),
    {
        match self {
            Personality::Chipper => "Chipper",
            Personality::Sleepy => "Sleepy",
            Personality::Curious => "Curious",
            Personality::Fussy => "Fussy",
        }
    }
}

/// The outline a pet's body is drawn with.
#[derive(Clone, Copy, Debug, PartialEq, Eq, Structural)]
pub enum BodyShape {
    Round,
    Tall,
    Squat,
    Pointy,
}

/// How a pet's open eyes are drawn.
#[derive(Clone, Copy, Debug, PartialEq, Eq, Structural)]
pub enum EyeStyle {
    Dots,
    Tall,
    Wide,
}

/// The colour scheme of a pet.
#[derive(Clone, Copy, Debug, PartialEq, Eq, Structural)]
pub enum Palette {
    Moss,
    Seafoam,
    Gold,
    Plum,
    Blue,
}

/// An opaque colour given by its red, green and blue channels.
#[derive(Clone, Copy, Debug, PartialEq, Eq, Structural)]
pub struct Rgb {
    pub r: u8,
    pub g: u8,
    pub b: u8,
}

pub open spec fn rgb(r: u8, g: u8, b: u8) -> Rgb {
    Rgb { r, g, b }
}

/// The three colours of a palette: outline ink, body fill and highlight.
#[derive(Clone, Copy, Debug, PartialEq, Eq, Structural)]
pub struct Colors {
    pub ink: Rgb,
    pub body: Rgb,
    pub light: Rgb,
}

impl Palette {
    pub open spec fn spec_colors(self) -> Colors {
        match self {
            Palette::Moss => Colors { ink: rgb(35, 50, 36), body: rgb(73, 100, 61), light: rgb(101, 134, 76) },
            Palette::Seafoam => Colors { ink: rgb(31, 58, 52), body: rgb(70, 128, 107), light: rgb(111, 174, 145) },
            Palette::Gold => Colors { ink: rgb(62, 50, 25), body: rgb(146, 113, 47), light: rgb(205, 163, 73) },
            Palette::Plum => Colors { ink: rgb(50, 35, 55), body: rgb(103, 68, 118), light: rgb(145, 95, 160) },
            Palette::Blue => Colors { ink: rgb(28, 44, 64), body: rgb(64, 105, 145), light: rgb(96, 146, 188) },
        }
    }

    pub fn colors(self) -> (colors: Colors)
        ensures
            colors == self.spec_colors(),
    {
        match self {
            Palette::Moss => Colors {
                ink: Rgb { r: 35, g: 50, b: 36 },
                body: Rgb { r: 73, g: 100, b: 61 },
                light: Rgb { r: 101, g: 134, b: 76 },
            },
            Palette::Seafoam => Colors {
                ink: Rgb { r: 31, g: 58, b: 52 },
                body: Rgb { r: 70, g: 128, b: 107 },
                light: Rgb { r: 111, g: 174, b: 145 },
            },
            Palette::Gold => Colors {
                ink: Rgb { r: 62, g: 50, b: 25 },
                body: Rgb { r: 146, g: 113, b: 47 },
                light: Rgb { r: 205, g: 163, b: 73 },
            },
            Palette::Plum => Colors {
                ink: Rgb { r: 50, g: 35, b: 55 },
                body: Rgb { r: 103, g: 68, b: 118 },
                light: Rgb { r: 145, g: 95, b: 160 },
            },
            Palette::Blue => Colors {
                ink: Rgb { r: 28, g: 44, b: 64 },
                body: Rgb { r: 64, g: 105, b: 145 },
                light: Rgb { r: 96, g: 146, b: 188 },
            },
        }
    }
}

/// One value for each of the four stats, in whole points.
#[derive(Clone, Copy, Debug, PartialEq, Eq, Structural)]
pub struct StatPoints {
    pub food: u32,
    pub happiness: u32,
    pub energy: u32,
    pub cleanliness: u32,
}

pub open spec fn points(food: u32, happiness: u32, energy: u32, cleanliness: u32) -> StatPoints {
    StatPoints { food, happiness, energy, cleanliness }
}

impl Personality {
    /// The stats a newborn pet of this personality starts from, before a random
    /// jitter of at most five points either way is added to each.
    pub open spec fn spec_base_stats(self) -> StatPoints {
        match self {
            Personality::Chipper => points(78, 88, 82, 76),
            Personality::Sleepy => points(80, 72, 94, 78),
            Personality::Curious => points(76, 82, 86, 74),
            Personality::Fussy => points(84, 70, 80, 90),
        }
    }

    pub fn base_stats(self) -> (stats: StatPoints)
        ensures
            stats == self.spec_base_stats(),
    {
        match self {
            Personality::Chipper => StatPoints { food: 78, happiness: 88, energy: 82, cleanliness: 76 },
            Personality::Sleepy => StatPoints { food: 80, happiness: 72, energy: 94, cleanliness: 78 },
            Personality::Curious => StatPoints { food: 76, happiness: 82, energy: 86, cleanliness: 74 },
            Personality::Fussy => StatPoints { food: 84, happiness: 70, energy: 80, cleanliness: 90 },
        }
    }

    /// How fast each stat drains, in thousandths of a point per second.
    pub open spec fn spec_decay_per_mille(self) -> StatPoints {
        match self {
            Personality::Chipper => points(200, 90, 130, 90),
            Personality::Sleepy => points(150, 110, 80, 80),
            Personality::Curious => points(180, 130, 110, 90),
            Personality::Fussy => points(170, 140, 100, 120),
        }
    }

    pub fn decay_per_mille(self) -> (rates: StatPoints)
        ensures
            rates == self.spec_decay_per_mille(),
    {
        match self {
            Personality::Chipper => StatPoints { food: 200, happiness: 90, energy: 130, cleanliness: 90 },
            Personality::Sleepy => StatPoints { food: 150, happiness: 110, energy: 80, cleanliness: 80 },
            Personality::Curious => StatPoints { food: 180, happiness: 130, energy: 110, cleanliness: 90 },
            Personality::Fussy => StatPoints { food: 170, happiness: 140, energy: 100, cleanliness: 120 },
        }
    }
}

/// A stat under this many points leaves the pet hungry or grubby enough to lose happiness over time.
pub const NEGLECT_BELOW: u32 = 25;

/// Extra happiness lost per second while hungry, in thousandths of a point.
pub const HUNGER_SADNESS_PER_MILLE: u32 = 100;

/// Extra happiness lost per second while grubby, in thousandths of a point.
pub const GRIME_SADNESS_PER_MILLE: u32 = 80;

/// The lowest and highest value a stat can take.
pub const STAT_MIN: u32 = 0;

pub const STAT_MAX: u32 = 100;

/// Each personality has a label of its own.
pub proof fn labels_are_distinct(first: Personality, second: Personality)
    requires
        first != second,
    ensures
        first.spec_label() != second.spec_label(),
{
    reveal_strlit("Chipper");
    reveal_strlit("Sleepy");
    reveal_strlit("Curious");
    reveal_strlit("Fussy");
    if first.spec_label() == second.spec_label() {
        assert(first.spec_label()[0] == second.spec_label()[0]);
        assert(first.spec_label()[1] == second.spec_label()[1]);
    }
}

/// Each personality drains its stats at the rates of its table, in thousandths of a point per
/// second: Chipper 200, 90, 130, 90; Sleepy 150, 110, 80, 80; Curious 180, 130, 110, 90;
/// Fussy 170, 140, 100, 120 (food, happiness, energy, cleanliness). Food drains fastest for
/// every personality, at 0.15 points a second or more.
pub proof fn decay_rates_by_personality(personality: Personality)
    ensures
        Personality::Chipper.spec_decay_per_mille() == (StatPoints { food: 200, happiness: 90, energy: 130, cleanliness: 90 }),
        Personality::Sleepy.spec_decay_per_mille() == (StatPoints { food: 150, happiness: 110, energy: 80, cleanliness: 80 }),
        Personality::Curious.spec_decay_per_mille() == (StatPoints { food: 180, happiness: 130, energy: 110, cleanliness: 90 }),
        Personality::Fussy.spec_decay_per_mille() == (StatPoints { food: 170, happiness: 140, energy: 100, cleanliness: 120 }),
        personality.spec_decay_per_mille().food >= 150,
        personality.spec_decay_per_mille().food > personality.spec_decay_per_mille().happiness,
        personality.spec_decay_per_mille().food > personality.spec_decay_per_mille().energy,
        personality.spec_decay_per_mille().food > personality.spec_decay_per_mille().cleanliness,
{
}

/// Each personality starts from the stats of its table: Chipper 78, 88, 82, 76; Sleepy 80, 72,
/// 94, 78; Curious 76, 82, 86, 74; Fussy 84, 70, 80, 90 (food, happiness, energy, cleanliness).
/// Every starting stat is at least 70, and no personality starts with a low average.
pub proof fn base_stats_by_personality(personality: Personality)
    ensures
        Personality::Chipper.spec_base_stats() == (StatPoints { food: 78, happiness: 88, energy: 82, cleanliness: 76 }),
        Personality::Sleepy.spec_base_stats() == (StatPoints { food: 80, happiness: 72, energy: 94, cleanliness: 78 }),
        Personality::Curious.spec_base_stats() == (StatPoints { food: 76, happiness: 82, energy: 86, cleanliness: 74 }),
        Personality::Fussy.spec_base_stats() == (StatPoints { food: 84, happiness: 70, energy: 80, cleanliness: 90 }),
        personality.spec_base_stats().food >= 70,
        personality.spec_base_stats().happiness >= 70,
        personality.spec_base_stats().energy >= 70,
        personality.spec_base_stats().cleanliness >= 70,
{
}

} // verus!
