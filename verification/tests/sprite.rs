use retro_pet::mood::Face;
use retro_pet::pet::{BodyShape, EyeStyle};
use retro_pet::sprite::{sprite_pixels, Pixel, Shade, BODY_HEIGHT, BODY_WIDTH};

fn cell(x: usize, y: usize, shade: Shade) -> Pixel {
    Pixel { x, y, shade }
}

fn body_cell_count(rows: &[&str]) -> usize {
    rows.iter().map(|r| r.chars().filter(|c| *c == '1' || *c == '2').count()).sum()
}

#[test]
fn round_body_starts_with_its_top_outline() {
    let pixels = sprite_pixels(BodyShape::Round, false, Face::Neutral, EyeStyle::Dots, false);
    assert_eq!(pixels[0], cell(3, 0, Shade::Ink));
    assert_eq!(pixels[5], cell(8, 0, Shade::Ink));
    assert_eq!(pixels[6], cell(2, 1, Shade::Ink));
    assert_eq!(pixels[8], cell(4, 1, Shade::Body));
}

#[test]
fn round_neutral_sprite_has_body_shine_eyes_and_mouth() {
    let round = [
        "0001111110000", "0011222221000", "0112222222100", "1122222222210", "1222222222221",
        "1222222222221", "1222222222221", "0122222222210", "0012222222100", "0001122211000",
        "0011000011000", "0110000001100",
    ];
    let body = body_cell_count(&round);
    let pixels = sprite_pixels(BodyShape::Round, false, Face::Neutral, EyeStyle::Dots, false);
    assert_eq!(pixels.len(), body + 3 + 1 + 1 + 4);
    let tail: Vec<Pixel> = pixels[body..].to_vec();
    assert_eq!(
        tail,
        vec![
            cell(5, 4, Shade::Light),
            cell(6, 4, Shade::Light),
            cell(4, 5, Shade::Light),
            cell(4, 6, Shade::Ink),
            cell(8, 6, Shade::Ink),
            cell(5, 8, Shade::Ink),
            cell(6, 8, Shade::Ink),
            cell(7, 8, Shade::Ink),
            cell(8, 8, Shade::Ink),
        ]
    );
}

#[test]
fn antenna_shape_marks_and_wide_eyes() {
    let squat = [
        "0000000000000", "0000000000000", "0001111110000", "0012222221000", "0122222222100",
        "1222222222210", "1222222222210", "0122222222100", "0012222221000", "0001111110000",
        "0011000110000", "0110000011000",
    ];
    let body = body_cell_count(&squat);
    let pixels = sprite_pixels(BodyShape::Squat, true, Face::Happy, EyeStyle::Wide, false);
    let tail: Vec<Pixel> = pixels[body..].to_vec();
    assert_eq!(
        tail,
        vec![
            cell(6, 0, Shade::Ink),
            cell(6, 1, Shade::Ink),
            cell(5, 0, Shade::Light),
            cell(7, 0, Shade::Light),
            cell(0, 6, Shade::Ink),
            cell(11, 6, Shade::Ink),
            cell(5, 4, Shade::Light),
            cell(6, 4, Shade::Light),
            cell(4, 5, Shade::Light),
            cell(4, 6, Shade::Ink),
            cell(5, 6, Shade::Ink),
            cell(8, 6, Shade::Ink),
            cell(9, 6, Shade::Ink),
            cell(5, 8, Shade::Ink),
            cell(6, 9, Shade::Ink),
            cell(7, 9, Shade::Ink),
            cell(8, 8, Shade::Ink),
        ]
    );
}

#[test]
fn blinking_and_sleepy_eyes_are_shut() {
    let open = sprite_pixels(BodyShape::Tall, false, Face::Sad, EyeStyle::Tall, false);
    let blinking = sprite_pixels(BodyShape::Tall, false, Face::Sad, EyeStyle::Tall, true);
    assert_eq!(open.len(), blinking.len() + 2);
    let sleepy_tall = sprite_pixels(BodyShape::Pointy, false, Face::Sleepy, EyeStyle::Tall, false);
    let sleepy_dots = sprite_pixels(BodyShape::Pointy, false, Face::Sleepy, EyeStyle::Dots, false);
    assert_eq!(sleepy_tall, sleepy_dots);
    let n = sleepy_dots.len();
    assert_eq!(
        sleepy_dots[n - 6..].to_vec(),
        vec![
            cell(4, 6, Shade::Ink),
            cell(8, 6, Shade::Ink),
            cell(5, 8, Shade::Ink),
            cell(6, 8, Shade::Ink),
            cell(8, 8, Shade::Ink),
            cell(9, 8, Shade::Ink),
        ]
    );
}

#[test]
fn every_sprite_stays_on_the_grid() {
    let shapes = [BodyShape::Round, BodyShape::Tall, BodyShape::Squat, BodyShape::Pointy];
    let faces = [Face::Happy, Face::Neutral, Face::Sad, Face::Sleepy];
    let styles = [EyeStyle::Dots, EyeStyle::Tall, EyeStyle::Wide];
    for shape in shapes {
        for face in faces {
            for style in styles {
                for antenna in [false, true] {
                    for blink in [false, true] {
                        for p in sprite_pixels(shape, antenna, face, style, blink) {
                            assert!(p.x < BODY_WIDTH && p.y < BODY_HEIGHT);
                        }
                    }
                }
            }
        }
    }
}

#[test]
fn blinking_hides_the_eye_style() {
    let wide = sprite_pixels(BodyShape::Round, true, Face::Happy, EyeStyle::Wide, true);
    let tall = sprite_pixels(BodyShape::Round, true, Face::Happy, EyeStyle::Tall, true);
    let dots = sprite_pixels(BodyShape::Round, true, Face::Happy, EyeStyle::Dots, false);
    assert_eq!(wide, tall);
    assert_eq!(wide, dots);
}
