use retro_pet::birth::{
    body_shape_from_roll, eye_style_from_roll, name_at, palette_from_roll, personality_from_roll,
    random_antenna, random_body_shape, random_eye_style, random_name, random_palette,
    random_personality, NAME_COUNT,
};
use retro_pet::mood::{face, mood_line, stage_for_day, Expression, Face, Vitals};
use retro_pet::pet::{BodyShape, EyeStyle, Palette, Personality, Rgb};

fn calm() -> Vitals {
    Vitals {
        food_low: false,
        energy_low: false,
        cleanliness_low: false,
        happiness_low: false,
        average_high: false,
    }
}

#[test]
fn labels_name_each_personality() {
    assert_eq!(Personality::Chipper.label(), "Chipper");
    assert_eq!(Personality::Sleepy.label(), "Sleepy");
    assert_eq!(Personality::Curious.label(), "Curious");
    assert_eq!(Personality::Fussy.label(), "Fussy");
}

#[test]
fn base_stats_and_decay_per_personality() {
    let chipper = Personality::Chipper.base_stats();
    assert_eq!((chipper.food, chipper.happiness, chipper.energy, chipper.cleanliness), (78, 88, 82, 76));
    let fussy = Personality::Fussy.base_stats();
    assert_eq!((fussy.food, fussy.happiness, fussy.energy, fussy.cleanliness), (84, 70, 80, 90));
    let sleepy = Personality::Sleepy.decay_per_mille();
    assert_eq!((sleepy.food, sleepy.happiness, sleepy.energy, sleepy.cleanliness), (150, 110, 80, 80));
    let curious = Personality::Curious.decay_per_mille();
    assert_eq!((curious.food, curious.happiness, curious.energy, curious.cleanliness), (180, 130, 110, 90));
}

#[test]
fn palette_colors() {
    let gold = Palette::Gold.colors();
    assert_eq!(gold.ink, Rgb { r: 62, g: 50, b: 25 });
    assert_eq!(gold.body, Rgb { r: 146, g: 113, b: 47 });
    assert_eq!(gold.light, Rgb { r: 205, g: 163, b: 73 });
    assert_eq!(Palette::Blue.colors().light, Rgb { r: 96, g: 146, b: 188 });
}

#[test]
fn needs_come_before_personality() {
    let mut v = calm();
    v.food_low = true;
    v.energy_low = true;
    assert_eq!(mood_line(Personality::Chipper, v), "It points at its empty snack meter.");
    v.food_low = false;
    assert_eq!(mood_line(Personality::Fussy, v), "It wobbles sleepily.");
    v.energy_low = false;
    v.cleanliness_low = true;
    v.happiness_low = true;
    assert_eq!(mood_line(Personality::Sleepy, v), "It could use a scrub.");
    v.cleanliness_low = false;
    assert_eq!(mood_line(Personality::Curious, v), "It misses playtime.");
}

#[test]
fn content_pets_speak_in_their_voice() {
    let mut v = calm();
    assert_eq!(mood_line(Personality::Chipper, v), "It bounces in place.");
    assert_eq!(mood_line(Personality::Fussy, v), "It waits for better service.");
    v.average_high = true;
    assert_eq!(mood_line(Personality::Sleepy, v), "It looks deeply cozy.");
    assert_eq!(mood_line(Personality::Curious, v), "It studies you with bright eyes.");
}

#[test]
fn faces_follow_their_priorities() {
    let all = Expression { average_low: true, energy_low: true, happiness_high: true };
    assert_eq!(face(all), Face::Sad);
    assert_eq!(face(Expression { average_low: false, ..all }), Face::Sleepy);
    assert_eq!(face(Expression { average_low: false, energy_low: false, happiness_high: true }), Face::Happy);
    assert_eq!(face(Expression { average_low: false, energy_low: false, happiness_high: false }), Face::Neutral);
}

#[test]
fn stages_by_day() {
    assert_eq!(stage_for_day(1), "Baby");
    assert_eq!(stage_for_day(2), "Baby");
    assert_eq!(stage_for_day(3), "Kid");
    assert_eq!(stage_for_day(5), "Kid");
    assert_eq!(stage_for_day(6), "Pal");
    assert_eq!(stage_for_day(400), "Pal");
    assert_eq!(stage_for_day(0), "Pal");
}

#[test]
fn rolls_pick_traits() {
    assert_eq!(personality_from_roll(0), Personality::Chipper);
    assert_eq!(personality_from_roll(2), Personality::Curious);
    assert_eq!(personality_from_roll(9), Personality::Fussy);
    assert_eq!(body_shape_from_roll(1), BodyShape::Tall);
    assert_eq!(body_shape_from_roll(3), BodyShape::Pointy);
    assert_eq!(eye_style_from_roll(0), EyeStyle::Dots);
    assert_eq!(eye_style_from_roll(2), EyeStyle::Wide);
    assert_eq!(palette_from_roll(1), Palette::Seafoam);
    assert_eq!(palette_from_roll(4), Palette::Blue);
    assert_eq!(name_at(0), "Mochi");
    assert_eq!(name_at(8), "Pixel");
    assert_eq!(name_at(NAME_COUNT - 1), "Peb");
}

#[test]
fn random_draws_vary() {
    let mut names = std::collections::HashSet::new();
    let mut personalities = std::collections::HashSet::new();
    let mut shapes = std::collections::HashSet::new();
    let mut styles = std::collections::HashSet::new();
    let mut palettes = std::collections::HashSet::new();
    let mut antennas = std::collections::HashSet::new();
    for _ in 0..2000 {
        names.insert(random_name());
        personalities.insert(format!("{:?}", random_personality()));
        shapes.insert(format!("{:?}", random_body_shape()));
        styles.insert(format!("{:?}", random_eye_style()));
        palettes.insert(format!("{:?}", random_palette()));
        antennas.insert(random_antenna());
    }
    assert_eq!(names.len(), NAME_COUNT);
    assert_eq!(personalities.len(), 4);
    assert_eq!(shapes.len(), 4);
    assert_eq!(styles.len(), 3);
    assert_eq!(palettes.len(), 5);
    assert_eq!(antennas.len(), 2);
}

#[test]
fn low_stats_silence_the_personality() {
    let mut v = calm();
    v.happiness_low = true;
    v.average_high = true;
    for p in [Personality::Chipper, Personality::Sleepy, Personality::Curious, Personality::Fussy] {
        assert_eq!(mood_line(p, v), "It misses playtime.");
    }
}
