//! How a new pet's traits are drawn: a random roll, and the trait each roll stands for.

use vstd::prelude::*;
use crate::pet::{BodyShape, EyeStyle, Palette, Personality};

verus! {

/// `rand::random_range(0..bound)`: a number drawn from the thread-local generator, at least
/// zero and below `bound` (the range is not empty, or the call would panic). Which number comes
/// out is left to chance and is not stated.
#[verifier::external_body]
fn random_below(bound: usize) -> (drawn: usize)
    requires
        bound > 0,
    ensures
        drawn < bound,
{
    rand::random_range(0..bound)
}

/// `rand::random_ratio(numerator, denominator)`: true with a chance of `numerator` in
/// `denominator` (the call panics unless `numerator <= denominator` and `denominator > 0`).
/// The source guarantees false for a zero numerator and true for a numerator equal to the
/// denominator; any other outcome is left to chance.
#[verifier::external_body]
fn random_ratio(numerator: u32, denominator: u32) -> (hit: bool)
    requires
        0 < denominator,
        numerator <= denominator,
    ensures
        numerator == 0 ==> !hit,
        numerator == denominator ==> hit,
{
    rand::random_ratio(numerator, denominator)
}

/// The number of personalities, body shapes, eye styles, palettes and names a roll picks from.
pub const PERSONALITY_COUNT: usize = 4;

pub const BODY_SHAPE_COUNT: usize = 4;

pub const EYE_STYLE_COUNT: usize = 3;

pub const PALETTE_COUNT: usize = 5;

pub const NAME_COUNT: usize = 12;

/// An antenna grows on this many pets out of [`ANTENNA_OUT_OF`].
pub const ANTENNA_IN: u32 = 7;

pub const ANTENNA_OUT_OF: u32 = 20;

pub open spec fn spec_personality_from_roll(roll: usize) -> Personality {
    if roll == 0 {
        Personality::Chipper
    } else if roll == 1 {
        Personality::Sleepy
    } else if roll == 2 {
        Personality::Curious
    } else {
        Personality::Fussy
    }
}

/// The personality a roll stands for; any roll past the last one picks the last personality.
pub fn personality_from_roll(roll: usize) -> (personality: Personality)
    ensures
        personality == spec_personality_from_roll(roll),
{
    match roll {
        0 => Personality::Chipper,
        1 => Personality::Sleepy,
        2 => Personality::Curious,
        _ => Personality::Fussy,
    }
}

pub open spec fn spec_body_shape_from_roll(roll: usize) -> BodyShape {
    if roll == 0 {
        BodyShape::Round
    } else if roll == 1 {
        BodyShape::Tall
    } else if roll == 2 {
        BodyShape::Squat
    } else {
        BodyShape::Pointy
    }
}

/// The body shape a roll stands for; any roll past the last one picks the last shape.
pub fn body_shape_from_roll(roll: usize) -> (shape: BodyShape)
    ensures
        shape == spec_body_shape_from_roll(roll),
{
    match roll {
        0 => BodyShape::Round,
        1 => BodyShape::Tall,
        2 => BodyShape::Squat,
        _ => BodyShape::Pointy,
    }
}

pub open spec fn spec_eye_style_from_roll(roll: usize) -> EyeStyle {
    if roll == 0 {
        EyeStyle::Dots
    } else if roll == 1 {
        EyeStyle::Tall
    } else {
        EyeStyle::Wide
    }
}

/// The eye style a roll stands for; any roll past the last one picks the last style.
pub fn eye_style_from_roll(roll: usize) -> (style: EyeStyle)
    ensures
        style == spec_eye_style_from_roll(roll),
{
    match roll {
        0 => EyeStyle::Dots,
        1 => EyeStyle::Tall,
        _ => EyeStyle::Wide,
    }
}

pub open spec fn spec_palette_from_roll(roll: usize) -> Palette {
    if roll == 0 {
        Palette::Moss
    } else if roll == 1 {
        Palette::Seafoam
    } else if roll == 2 {
        Palette::Gold
    } else if roll == 3 {
        Palette::Plum
    } else {
        Palette::Blue
    }
}

/// The palette a roll stands for; any roll past the last one picks the last palette.
pub fn palette_from_roll(roll: usize) -> (palette: Palette)
    ensures
        palette == spec_palette_from_roll(roll),
{
    match roll {
        0 => Palette::Moss,
        1 => Palette::Seafoam,
        2 => Palette::Gold,
        3 => Palette::Plum,
        _ => Palette::Blue,
    }
}

/// The names a pet can be given, by position.
pub open spec fn spec_name(i: int) -> Seq<char> {
    if i == 0 {
        "Mochi"@

    } else if i == 1 {
        "Pip"@

    } else if i == 2 {
        "Nomi"@

    } else if i == 3 {
        "Bop"@

    } else if i == 4 {
        "Kiki"@

    } else if i == 5 {
        "Toto"@

    } else if i == 6 {
        "Zuzu"@

    } else if i == 7 {
        "Miso"@

    } else if i == 8 {
        "Pixel"@

    } else if i == 9 {
        "Lulu"@

    } else if i == 10 {
        "Bibi"@

    } else {
        "Peb"@
    }
}

/// The name at position `i` of the list of names.
pub fn name_at(i: usize) -> (name: &'static str)
    requires
        i < NAME_COUNT,
    ensures
        name@ == spec_name(i as int),
{
    match i {
        0 => "Mochi",
        1 => "Pip",
        2 => "Nomi",
        3 => "Bop",
        4 => "Kiki",
        5 => "Toto",
        6 => "Zuzu",
        7 => "Miso",
        8 => "Pixel",
        9 => "Lulu",
        10 => "Bibi",
        _ => "Peb",
    }
}

/// A personality drawn at random, each with the same chance.
pub fn random_personality() -> (personality: Personality)
    ensures
        exists|roll: usize| roll < PERSONALITY_COUNT && personality == spec_personality_from_roll(roll),
{
    let roll = random_below(PERSONALITY_COUNT);
    personality_from_roll(roll)
}

/// A body shape drawn at random, each with the same chance.
pub fn random_body_shape() -> (shape: BodyShape)
    ensures
        exists|roll: usize| roll < BODY_SHAPE_COUNT && shape == spec_body_shape_from_roll(roll),
{
    let roll = random_below(BODY_SHAPE_COUNT);
    body_shape_from_roll(roll)
}

/// An eye style drawn at random, each with the same chance.
pub fn random_eye_style() -> (style: EyeStyle)
    ensures
        exists|roll: usize| roll < EYE_STYLE_COUNT && style == spec_eye_style_from_roll(roll),
{
    let roll = random_below(EYE_STYLE_COUNT);
    eye_style_from_roll(roll)
}

/// A palette drawn at random, each with the same chance.
pub fn random_palette() -> (palette: Palette)
    ensures
        exists|roll: usize| roll < PALETTE_COUNT && palette == spec_palette_from_roll(roll),
{
    let roll = random_below(PALETTE_COUNT);
    palette_from_roll(roll)
}

/// Whether a new pet has an antenna: true with a chance of seven in twenty.
pub fn random_antenna() -> (antenna: bool) {
    random_ratio(ANTENNA_IN, ANTENNA_OUT_OF)
}

/// A name drawn at random from the list, each with the same chance.
pub fn random_name() -> (name: String)
    ensures
        exists|i: int| 0 <= i < NAME_COUNT && name@ == spec_name(i),
{
    let i = random_below(NAME_COUNT);
    name_at(i).to_owned()
}

/// Every personality, body shape, eye style and palette is stood for by some roll in range,
/// so a random draw can give any of them.
pub proof fn every_trait_can_be_rolled(
    personality: Personality,
    shape: BodyShape,
    style: EyeStyle,
    palette: Palette,
)
    ensures
        exists|roll: usize| roll < PERSONALITY_COUNT && spec_personality_from_roll(roll) == personality,
        exists|roll: usize| roll < BODY_SHAPE_COUNT && spec_body_shape_from_roll(roll) == shape,
        exists|roll: usize| roll < EYE_STYLE_COUNT && spec_eye_style_from_roll(roll) == style,
        exists|roll: usize| roll < PALETTE_COUNT && spec_palette_from_roll(roll) == palette,
{
    let p: usize = match personality {
        Personality::Chipper => 0,
        Personality::Sleepy => 1,
        Personality::Curious => 2,
        Personality::Fussy => 3,
    };
    assert(spec_personality_from_roll(p) == personality);
    let s: usize = match shape {
        BodyShape::Round => 0,
        BodyShape::Tall => 1,
        BodyShape::Squat => 2,
        BodyShape::Pointy => 3,
    };
    assert(spec_body_shape_from_roll(s) == shape);
    let e: usize = match style {
        EyeStyle::Dots => 0,
        EyeStyle::Tall => 1,
        EyeStyle::Wide => 2,
    };
    assert(spec_eye_style_from_roll(e) == style);
    let c: usize = match palette {
        Palette::Moss => 0,
        Palette::Seafoam => 1,
        Palette::Gold => 2,
        Palette::Plum => 3,
        Palette::Blue => 4,
    };
    assert(spec_palette_from_roll(c) == palette);
}

} // verus!
