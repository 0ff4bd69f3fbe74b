//! The pixel art of a pet: which cells of its grid are painted, and in which shade.

use vstd::prelude::*;
use vstd::string::*;
use crate::pet::{BodyShape, EyeStyle};
use crate::mood::Face;

verus! {

/// Width of the sprite grid, in cells.
pub const BODY_WIDTH: usize = 13;

/// Height of the sprite grid, in cells.
pub const BODY_HEIGHT: usize = 12;

/// Which of the palette's three colours a cell is painted with.
#[derive(Clone, Copy, Debug, PartialEq, Eq, Structural)]
pub enum Shade {
    Ink,
    Body,
    Light,
}

/// One painted cell: column `x`, row `y`, counted from the top left corner.
#[derive(Clone, Copy, Debug, PartialEq, Eq, Structural)]
pub struct Pixel {
    pub x: usize,
    pub y: usize,
    pub shade: Shade,
}

pub open spec fn px(x: int, y: int, shade: Shade) -> Pixel {
    Pixel { x: x as usize, y: y as usize, shade }
}

/// Row `y` of the round body: '1' is outline, '2' is fill, anything else is empty.
pub open spec fn round_row(y: int) -> Seq<char> {
    if y == 0 {
        "0001111110000"@
    } else if y == 1 {
        "0011222221000"@
    } else if y == 2 {
        "0112222222100"@
    } else if y == 3 {
        "1122222222210"@
    } else if y == 4 {
        "1222222222221"@
    } else if y == 5 {
        "1222222222221"@
    } else if y == 6 {
        "1222222222221"@
    } else if y == 7 {
        "0122222222210"@
    } else if y == 8 {
        "0012222222100"@
    } else if y == 9 {
        "0001122211000"@
    } else if y == 10 {
        "0011000011000"@
    } else {
        "0110000001100"@
    }
}

/// Row `y` of the tall body: '1' is outline, '2' is fill, anything else is empty.
pub open spec fn tall_row(y: int) -> Seq<char> {
    if y == 0 {
        "0000111100000"@
    } else if y == 1 {
        "0001222210000"@
    } else if y == 2 {
        "0012222221000"@
    } else if y == 3 {
        "0012222221000"@
    } else if y == 4 {
        "0112222221100"@
    } else if y == 5 {
        "0122222222100"@
    } else if y == 6 {
        "0122222222100"@
    } else if y == 7 {
        "0012222221000"@
    } else if y == 8 {
        "0012222221000"@
    } else if y == 9 {
        "0001222210000"@
    } else if y == 10 {
        "0011000110000"@
    } else {
        "0110000011000"@
    }
}

/// Row `y` of the squat body: '1' is outline, '2' is fill, anything else is empty.
pub open spec fn squat_row(y: int) -> Seq<char> {
    if y == 0 {
        "0000000000000"@
    } else if y == 1 {
        "0000000000000"@
    } else if y == 2 {
        "0001111110000"@
    } else if y == 3 {
        "0012222221000"@
    } else if y == 4 {
        "0122222222100"@
    } else if y == 5 {
        "1222222222210"@
    } else if y == 6 {
        "1222222222210"@
    } else if y == 7 {
        "0122222222100"@
    } else if y == 8 {
        "0012222221000"@
    } else if y == 9 {
        "0001111110000"@
    } else if y == 10 {
        "0011000110000"@
    } else {
        "0110000011000"@
    }
}

/// Row `y` of the pointy body: '1' is outline, '2' is fill, anything else is empty.
pub open spec fn pointy_row(y: int) -> Seq<char> {
    if y == 0 {
        "0000010000000"@
    } else if y == 1 {
        "0000111000000"@
    } else if y == 2 {
        "0001222100000"@
    } else if y == 3 {
        "0012222210000"@
    } else if y == 4 {
        "0112222211000"@
    } else if y == 5 {
        "1122222221100"@
    } else if y == 6 {
        "1222222222100"@
    } else if y == 7 {
        "0122222221000"@
    } else if y == 8 {
        "0012222210000"@
    } else if y == 9 {
        "0001121100000"@
    } else if y == 10 {
        "0011000110000"@
    } else {
        "0110000011000"@
    }
}

pub open spec fn shape_row(shape: BodyShape, y: int) -> Seq<char> {
    match shape {
        BodyShape::Round => round_row(y),
        BodyShape::Tall => tall_row(y),
        BodyShape::Squat => squat_row(y),
        BodyShape::Pointy => pointy_row(y),
    }
}

/// The cell a character of a body row stands for at column `x` of row `y`.
pub open spec fn cell_pixels(c: char, x: int, y: int) -> Seq<Pixel> {
    if c == '1' {
        seq![px(x, y, Shade::Ink)]
    } else if c == '2' {
        seq![px(x, y, Shade::Body)]
    } else {
        Seq::empty()
    }
}

/// The cells painted by the first `n` characters of a body row, left to right.
pub open spec fn row_pixels(row: Seq<char>, y: int, n: int) -> Seq<Pixel>
    decreases n,
{
    if n <= 0 {
        Seq::empty()
    } else {
        row_pixels(row, y, n - 1) + cell_pixels(row[n - 1], n - 1, y)
    }
}

/// The cells painted by the first `rows` rows of a body, top to bottom.
pub open spec fn body_pixels(shape: BodyShape, rows: int) -> Seq<Pixel>
    decreases rows,
{
    if rows <= 0 {
        Seq::empty()
    } else {
        body_pixels(shape, rows - 1) + row_pixels(
            shape_row(shape, rows - 1),
            rows - 1,
            shape_row(shape, rows - 1).len() as int,
        )
    }
}

pub open spec fn antenna_pixels(antenna: bool) -> Seq<Pixel> {
    if antenna {
        seq![px(6, 0, Shade::Ink), px(6, 1, Shade::Ink), px(5, 0, Shade::Light), px(7, 0, Shade::Light)]
    } else {
        Seq::empty()
    }
}

/// The two outline marks that set a body shape apart.
pub open spec fn shape_marks(shape: BodyShape) -> Seq<Pixel> {
    match shape {
        BodyShape::Round => Seq::empty(),
        BodyShape::Tall => seq![px(3, 3, Shade::Ink), px(9, 3, Shade::Ink)],
        BodyShape::Squat => seq![px(0, 6, Shade::Ink), px(11, 6, Shade::Ink)],
        BodyShape::Pointy => seq![px(2, 4, Shade::Ink), px(10, 4, Shade::Ink)],
    }
}

pub open spec fn shine_pixels() -> Seq<Pixel> {
    seq![px(5, 4, Shade::Light), px(6, 4, Shade::Light), px(4, 5, Shade::Light)]
}

/// One eye whose top cell is at column `x`, row `y`: shut (a single cell one row down)
/// while blinking or sleepy, else drawn in the eye style.
pub open spec fn eye_pixels(x: int, y: int, blink: bool, face: Face, style: EyeStyle) -> Seq<Pixel> {
    if blink || face == Face::Sleepy {
        seq![px(x, y + 1, Shade::Ink)]
    } else {
        match style {
            EyeStyle::Dots => seq![px(x, y + 1, Shade::Ink)],
            EyeStyle::Tall => seq![px(x, y, Shade::Ink), px(x, y + 1, Shade::Ink)],
            EyeStyle::Wide => seq![px(x, y + 1, Shade::Ink), px(x + 1, y + 1, Shade::Ink)],
        }
    }
}

pub open spec fn mouth_pixels(face: Face) -> Seq<Pixel> {
    match face {
        Face::Happy => seq![px(5, 8, Shade::Ink), px(6, 9, Shade::Ink), px(7, 9, Shade::Ink), px(8, 8, Shade::Ink)],
        Face::Neutral => seq![px(5, 8, Shade::Ink), px(6, 8, Shade::Ink), px(7, 8, Shade::Ink), px(8, 8, Shade::Ink)],
        Face::Sad => seq![px(5, 9, Shade::Ink), px(6, 8, Shade::Ink), px(7, 8, Shade::Ink), px(8, 9, Shade::Ink)],
        Face::Sleepy => seq![px(5, 8, Shade::Ink), px(6, 8, Shade::Ink), px(8, 8, Shade::Ink), px(9, 8, Shade::Ink)],
    }
}

/// Everything drawn for a pet, in painting order: body, antenna, shape marks, shine,
/// left eye, right eye, mouth. A later cell paints over an earlier one.
pub open spec fn spec_sprite(
    shape: BodyShape,
    antenna: bool,
    face: Face,
    eye_style: EyeStyle,
    blink: bool,
) -> Seq<Pixel> {
    body_pixels(shape, BODY_HEIGHT as int) + antenna_pixels(antenna) + shape_marks(shape)
        + shine_pixels() + eye_pixels(4, 5, blink, face, eye_style) + eye_pixels(
        8,
        5,
        blink,
        face,
        eye_style,
    ) + mouth_pixels(face)
}

fn round_row_text(y: usize) -> (row: &'static str)
    requires
        y < BODY_HEIGHT,
    ensures
        row@ == round_row(y as int),
{
    match y {
        0 => "0001111110000",
        1 => "0011222221000",
        2 => "0112222222100",
        3 => "1122222222210",
        4 => "1222222222221",
        5 => "1222222222221",
        6 => "1222222222221",
        7 => "0122222222210",
        8 => "0012222222100",
        9 => "0001122211000",
        10 => "0011000011000",
        _ => "0110000001100",
    }
}

fn tall_row_text(y: usize) -> (row: &'static str)
    requires
        y < BODY_HEIGHT,
    ensures
        row@ == tall_row(y as int),
{
    match y {
        0 => "0000111100000",
        1 => "0001222210000",
        2 => "0012222221000",
        3 => "0012222221000",
        4 => "0112222221100",
        5 => "0122222222100",
        6 => "0122222222100",
        7 => "0012222221000",
        8 => "0012222221000",
        9 => "0001222210000",
        10 => "0011000110000",
        _ => "0110000011000",
    }
}

fn squat_row_text(y: usize) -> (row: &'static str)
    requires
        y < BODY_HEIGHT,
    ensures
        row@ == squat_row(y as int),
{
    match y {
        0 => "0000000000000",
        1 => "0000000000000",
        2 => "0001111110000",
        3 => "0012222221000",
        4 => "0122222222100",
        5 => "1222222222210",
        6 => "1222222222210",
        7 => "0122222222100",
        8 => "0012222221000",
        9 => "0001111110000",
        10 => "0011000110000",
        _ => "0110000011000",
    }
}

fn pointy_row_text(y: usize) -> (row: &'static str)
    requires
        y < BODY_HEIGHT,
    ensures
        row@ == pointy_row(y as int),
{
    match y {
        0 => "0000010000000",
        1 => "0000111000000",
        2 => "0001222100000",
        3 => "0012222210000",
        4 => "0112222211000",
        5 => "1122222221100",
        6 => "1222222222100",
        7 => "0122222221000",
        8 => "0012222210000",
        9 => "0001121100000",
        10 => "0011000110000",
        _ => "0110000011000",
    }
}

fn shape_row_text(shape: BodyShape, y: usize) -> (row: &'static str)
    requires
        y < BODY_HEIGHT,
    ensures
        row@ == shape_row(shape, y as int),
{
    match shape {
        BodyShape::Round => round_row_text(y),
        BodyShape::Tall => tall_row_text(y),
        BodyShape::Squat => squat_row_text(y),
        BodyShape::Pointy => pointy_row_text(y),
    }
}

fn push_body(out: &mut Vec<Pixel>, shape: BodyShape)
    ensures
        final(out)@ == old(out)@ + body_pixels(shape, BODY_HEIGHT as int),
{
    let ghost start = out@;
    let mut y: usize = 0;
    while y < BODY_HEIGHT
        invariant
            y <= BODY_HEIGHT,
            out@ == start + body_pixels(shape, y as int),
        decreases BODY_HEIGHT - y,
    {
        let row = shape_row_text(shape, y);
        let n = row.unicode_len();
        let mut x: usize = 0;
        while x < n
            invariant
                x <= n,
                n == row@.len(),
                y < BODY_HEIGHT,
                row@ == shape_row(shape, y as int),
                out@ == start + body_pixels(shape, y as int) + row_pixels(row@, y as int, x as int),
            decreases n - x,
        {
            let c = row.get_char(x);
            let ghost before = out@;
            if c == '1' {
                out.push(Pixel { x, y, shade: Shade::Ink });
            } else if c == '2' {
                out.push(Pixel { x, y, shade: Shade::Body });
            }
            assert(out@ =~= before + cell_pixels(row@[x as int], x as int, y as int));
            assert(row_pixels(row@, y as int, x + 1) =~= row_pixels(row@, y as int, x as int)
                + cell_pixels(row@[x as int], x as int, y as int));
            x += 1;
        }
        assert(body_pixels(shape, y + 1) =~= body_pixels(shape, y as int) + row_pixels(
            row@,
            y as int,
            n as int,
        ));
        y += 1;
    }
}

fn push_eye(out: &mut Vec<Pixel>, x: usize, y: usize, blink: bool, face: Face, style: EyeStyle)
    requires
        x < 12,
        y < 12,
    ensures
        final(out)@ == old(out)@ + eye_pixels(x as int, y as int, blink, face, style),
{
    if blink || face == Face::Sleepy {
        out.push(Pixel { x, y: y + 1, shade: Shade::Ink });
    } else {
        match style {
            EyeStyle::Dots => {
                out.push(Pixel { x, y: y + 1, shade: Shade::Ink });
            },
            EyeStyle::Tall => {
                out.push(Pixel { x, y, shade: Shade::Ink });
                out.push(Pixel { x, y: y + 1, shade: Shade::Ink });
            },
            EyeStyle::Wide => {
                out.push(Pixel { x, y: y + 1, shade: Shade::Ink });
                out.push(Pixel { x: x + 1, y: y + 1, shade: Shade::Ink });
            },
        }
    }
}

fn push_antenna(out: &mut Vec<Pixel>, antenna: bool)
    ensures
        final(out)@ == old(out)@ + antenna_pixels(antenna),
{
    let ghost start = out@;
    if antenna {
        out.push(Pixel { x: 6, y: 0, shade: Shade::Ink });
        out.push(Pixel { x: 6, y: 1, shade: Shade::Ink });
        out.push(Pixel { x: 5, y: 0, shade: Shade::Light });
        out.push(Pixel { x: 7, y: 0, shade: Shade::Light });
    }
    assert(out@ =~= start + antenna_pixels(antenna));
}

fn push_shape_marks(out: &mut Vec<Pixel>, shape: BodyShape)
    ensures
        final(out)@ == old(out)@ + shape_marks(shape),
{
    let ghost start = out@;
    match shape {
        BodyShape::Round => {},
        BodyShape::Tall => {
            out.push(Pixel { x: 3, y: 3, shade: Shade::Ink });
            out.push(Pixel { x: 9, y: 3, shade: Shade::Ink });
        },
        BodyShape::Squat => {
            out.push(Pixel { x: 0, y: 6, shade: Shade::Ink });
            out.push(Pixel { x: 11, y: 6, shade: Shade::Ink });
        },
        BodyShape::Pointy => {
            out.push(Pixel { x: 2, y: 4, shade: Shade::Ink });
            out.push(Pixel { x: 10, y: 4, shade: Shade::Ink });
        },
    }
    assert(out@ =~= start + shape_marks(shape));
}

fn push_shine(out: &mut Vec<Pixel>)
    ensures
        final(out)@ == old(out)@ + shine_pixels(),
{
    let ghost start = out@;
    out.push(Pixel { x: 5, y: 4, shade: Shade::Light });
    out.push(Pixel { x: 6, y: 4, shade: Shade::Light });
    out.push(Pixel { x: 4, y: 5, shade: Shade::Light });
    assert(out@ =~= start + shine_pixels());
}

fn push_mouth(out: &mut Vec<Pixel>, face: Face)
    ensures
        final(out)@ == old(out)@ + mouth_pixels(face),
{
    let ghost start = out@;
    match face {
        Face::Happy => {
            out.push(Pixel { x: 5, y: 8, shade: Shade::Ink });
            out.push(Pixel { x: 6, y: 9, shade: Shade::Ink });
            out.push(Pixel { x: 7, y: 9, shade: Shade::Ink });
            out.push(Pixel { x: 8, y: 8, shade: Shade::Ink });
        },
        Face::Neutral => {
            out.push(Pixel { x: 5, y: 8, shade: Shade::Ink });
            out.push(Pixel { x: 6, y: 8, shade: Shade::Ink });
            out.push(Pixel { x: 7, y: 8, shade: Shade::Ink });
            out.push(Pixel { x: 8, y: 8, shade: Shade::Ink });
        },
        Face::Sad => {
            out.push(Pixel { x: 5, y: 9, shade: Shade::Ink });
            out.push(Pixel { x: 6, y: 8, shade: Shade::Ink });
            out.push(Pixel { x: 7, y: 8, shade: Shade::Ink });
            out.push(Pixel { x: 8, y: 9, shade: Shade::Ink });
        },
        Face::Sleepy => {
            out.push(Pixel { x: 5, y: 8, shade: Shade::Ink });
            out.push(Pixel { x: 6, y: 8, shade: Shade::Ink });
            out.push(Pixel { x: 8, y: 8, shade: Shade::Ink });
            out.push(Pixel { x: 9, y: 8, shade: Shade::Ink });
        },
    }
    assert(out@ =~= start + mouth_pixels(face));
}

/// The cells to paint for a pet, in painting order.
pub fn sprite_pixels(
    shape: BodyShape,
    antenna: bool,
    face: Face,
    eye_style: EyeStyle,
    blink: bool,
) -> (pixels: Vec<Pixel>)
    ensures
        pixels@ == spec_sprite(shape, antenna, face, eye_style, blink),
{
    let mut out: Vec<Pixel> = Vec::new();
    push_body(&mut out, shape);
    push_antenna(&mut out, antenna);
    push_shape_marks(&mut out, shape);
    push_shine(&mut out);
    push_eye(&mut out, 4, 5, blink, face, eye_style);
    push_eye(&mut out, 8, 5, blink, face, eye_style);
    push_mouth(&mut out, face);
    assert(out@ =~= spec_sprite(shape, antenna, face, eye_style, blink));
    out
}

/// A cell that lies on the sprite grid.
pub open spec fn on_grid(p: Pixel) -> bool {
    p.x < BODY_WIDTH && p.y < BODY_HEIGHT
}

/// Every row of every body is as wide as the grid.
proof fn lemma_row_widths()
    ensures
        forall|y: int| 0 <= y < BODY_HEIGHT ==> #[trigger] round_row(y).len() == BODY_WIDTH,
        forall|y: int| 0 <= y < BODY_HEIGHT ==> #[trigger] tall_row(y).len() == BODY_WIDTH,
        forall|y: int| 0 <= y < BODY_HEIGHT ==> #[trigger] squat_row(y).len() == BODY_WIDTH,
        forall|y: int| 0 <= y < BODY_HEIGHT ==> #[trigger] pointy_row(y).len() == BODY_WIDTH,
{
    reveal_strlit("0001111110000");
    reveal_strlit("0011222221000");
    reveal_strlit("0112222222100");
    reveal_strlit("1122222222210");
    reveal_strlit("1222222222221");
    reveal_strlit("1222222222221");
    reveal_strlit("1222222222221");
    reveal_strlit("0122222222210");
    reveal_strlit("0012222222100");
    reveal_strlit("0001122211000");
    reveal_strlit("0011000011000");
    reveal_strlit("0110000001100");
    reveal_strlit("0000111100000");
    reveal_strlit("0001222210000");
    reveal_strlit("0012222221000");
    reveal_strlit("0012222221000");
    reveal_strlit("0112222221100");
    reveal_strlit("0122222222100");
    reveal_strlit("0122222222100");
    reveal_strlit("0012222221000");
    reveal_strlit("0012222221000");
    reveal_strlit("0001222210000");
    reveal_strlit("0011000110000");
    reveal_strlit("0110000011000");
    reveal_strlit("0000000000000");
    reveal_strlit("0000000000000");
    reveal_strlit("0001111110000");
    reveal_strlit("0012222221000");
    reveal_strlit("0122222222100");
    reveal_strlit("1222222222210");
    reveal_strlit("1222222222210");
    reveal_strlit("0122222222100");
    reveal_strlit("0012222221000");
    reveal_strlit("0001111110000");
    reveal_strlit("0011000110000");
    reveal_strlit("0110000011000");
    reveal_strlit("0000010000000");
    reveal_strlit("0000111000000");
    reveal_strlit("0001222100000");
    reveal_strlit("0012222210000");
    reveal_strlit("0112222211000");
    reveal_strlit("1122222221100");
    reveal_strlit("1222222222100");
    reveal_strlit("0122222221000");
    reveal_strlit("0012222210000");
    reveal_strlit("0001121100000");
    reveal_strlit("0011000110000");
    reveal_strlit("0110000011000");
}


proof fn lemma_row_pixels_bounds(row: Seq<char>, y: int, n: int)
    requires
        0 <= y < BODY_HEIGHT,
        n <= BODY_WIDTH,
    ensures
        forall|i: int|
            0 <= i < row_pixels(row, y, n).len() ==> #[trigger] row_pixels(row, y, n)[i].x < n
                && row_pixels(row, y, n)[i].y == y,
    decreases n,
{
    if n > 0 {
        lemma_row_pixels_bounds(row, y, n - 1);
    }
}

proof fn lemma_body_pixels_bounds(shape: BodyShape, rows: int)
    requires
        rows <= BODY_HEIGHT,
    ensures
        forall|i: int|
            0 <= i < body_pixels(shape, rows).len() ==> #[trigger] body_pixels(shape, rows)[i].x
                < BODY_WIDTH && body_pixels(shape, rows)[i].y < rows,
    decreases rows,
{
    if rows > 0 {
        lemma_body_pixels_bounds(shape, rows - 1);
        lemma_row_widths();
        let row = shape_row(shape, rows - 1);
        assert(row.len() == BODY_WIDTH);
        lemma_row_pixels_bounds(row, rows - 1, row.len() as int);
        let a = body_pixels(shape, rows - 1);
        let b = row_pixels(row, rows - 1, row.len() as int);
        assert(body_pixels(shape, rows) == a + b);
        assert forall|i: int| 0 <= i < (a + b).len() implies #[trigger] (a + b)[i].x < BODY_WIDTH
            && (a + b)[i].y < rows by {
            if i >= a.len() {
                assert((a + b)[i] == b[i - a.len()]);
                assert(b[i - a.len()].x < BODY_WIDTH && b[i - a.len()].y < rows);
            } else {
                assert((a + b)[i] == a[i]);
                assert(a[i].x < BODY_WIDTH && a[i].y < rows);
            }
        }
    }
}

/// All cells of a sequence lie on the grid.
pub open spec fn all_on_grid(cells: Seq<Pixel>) -> bool {
    forall|i: int| 0 <= i < cells.len() ==> on_grid(#[trigger] cells[i])
}

proof fn lemma_concat_on_grid(a: Seq<Pixel>, b: Seq<Pixel>)
    requires
        all_on_grid(a),
        all_on_grid(b),
    ensures
        all_on_grid(a + b),
{
    assert forall|i: int| 0 <= i < (a + b).len() implies on_grid(#[trigger] (a + b)[i]) by {
        if i < a.len() {
            assert((a + b)[i] == a[i]);
        } else {
            assert((a + b)[i] == b[i - a.len()]);
        }
    }
}

proof fn lemma_features_on_grid(shape: BodyShape, antenna: bool, face: Face, eye_style: EyeStyle, blink: bool)
    ensures
        all_on_grid(antenna_pixels(antenna)),
        all_on_grid(shape_marks(shape)),
        all_on_grid(shine_pixels()),
        all_on_grid(eye_pixels(4, 5, blink, face, eye_style)),
        all_on_grid(eye_pixels(8, 5, blink, face, eye_style)),
        all_on_grid(mouth_pixels(face)),
{
}

/// Every cell of every sprite lies on the grid of `BODY_WIDTH` columns and `BODY_HEIGHT` rows.
pub proof fn sprite_stays_on_grid(
    shape: BodyShape,
    antenna: bool,
    face: Face,
    eye_style: EyeStyle,
    blink: bool,
)
    ensures
        all_on_grid(spec_sprite(shape, antenna, face, eye_style, blink)),
{
    lemma_body_pixels_bounds(shape, BODY_HEIGHT as int);
    lemma_features_on_grid(shape, antenna, face, eye_style, blink);
    let s0 = body_pixels(shape, BODY_HEIGHT as int);
    assert(all_on_grid(s0));
    let s1 = s0 + antenna_pixels(antenna);
    lemma_concat_on_grid(s0, antenna_pixels(antenna));
    let s2 = s1 + shape_marks(shape);
    lemma_concat_on_grid(s1, shape_marks(shape));
    let s3 = s2 + shine_pixels();
    lemma_concat_on_grid(s2, shine_pixels());
    let s4 = s3 + eye_pixels(4, 5, blink, face, eye_style);
    lemma_concat_on_grid(s3, eye_pixels(4, 5, blink, face, eye_style));
    let s5 = s4 + eye_pixels(8, 5, blink, face, eye_style);
    lemma_concat_on_grid(s4, eye_pixels(8, 5, blink, face, eye_style));
    lemma_concat_on_grid(s5, mouth_pixels(face));
}

/// While a pet blinks, or when it is sleepy, its eyes are shut and the eye style does not show:
/// the sprite is the same whatever the style.
pub proof fn shut_eyes_hide_eye_style(
    shape: BodyShape,
    antenna: bool,
    face: Face,
    blink: bool,
    first: EyeStyle,
    second: EyeStyle,
)
    requires
        blink || face == Face::Sleepy,
    ensures
        spec_sprite(shape, antenna, face, first, blink) == spec_sprite(
            shape,
            antenna,
            face,
            second,
            blink,
        ),
{
}

/// The mouth is the last thing painted, and it shows the face: a sad pet frowns with the corners
/// of its mouth (columns 5 and 8) a row below the middle, a happy pet smiles with them a row
/// above, a neutral pet draws a flat line, and a sleepy pet a flat line with a gap in it.
pub proof fn mouth_shows_the_face(shape: BodyShape, antenna: bool, eye_style: EyeStyle, blink: bool)
    ensures
        spec_sprite(shape, antenna, Face::Sad, eye_style, blink).subrange(
            spec_sprite(shape, antenna, Face::Sad, eye_style, blink).len() - 4,
            spec_sprite(shape, antenna, Face::Sad, eye_style, blink).len() as int,
        ) == seq![
            Pixel { x: 5, y: 9, shade: Shade::Ink },
            Pixel { x: 6, y: 8, shade: Shade::Ink },
            Pixel { x: 7, y: 8, shade: Shade::Ink },
            Pixel { x: 8, y: 9, shade: Shade::Ink },
        ],
        spec_sprite(shape, antenna, Face::Happy, eye_style, blink).subrange(
            spec_sprite(shape, antenna, Face::Happy, eye_style, blink).len() - 4,
            spec_sprite(shape, antenna, Face::Happy, eye_style, blink).len() as int,
        ) == seq![
            Pixel { x: 5, y: 8, shade: Shade::Ink },
            Pixel { x: 6, y: 9, shade: Shade::Ink },
            Pixel { x: 7, y: 9, shade: Shade::Ink },
            Pixel { x: 8, y: 8, shade: Shade::Ink },
        ],
        spec_sprite(shape, antenna, Face::Neutral, eye_style, blink).subrange(
            spec_sprite(shape, antenna, Face::Neutral, eye_style, blink).len() - 4,
            spec_sprite(shape, antenna, Face::Neutral, eye_style, blink).len() as int,
        ) == seq![
            Pixel { x: 5, y: 8, shade: Shade::Ink },
            Pixel { x: 6, y: 8, shade: Shade::Ink },
            Pixel { x: 7, y: 8, shade: Shade::Ink },
            Pixel { x: 8, y: 8, shade: Shade::Ink },
        ],
        spec_sprite(shape, antenna, Face::Sleepy, eye_style, blink).subrange(
            spec_sprite(shape, antenna, Face::Sleepy, eye_style, blink).len() - 4,
            spec_sprite(shape, antenna, Face::Sleepy, eye_style, blink).len() as int,
        ) == seq![
            Pixel { x: 5, y: 8, shade: Shade::Ink },
            Pixel { x: 6, y: 8, shade: Shade::Ink },
            Pixel { x: 8, y: 8, shade: Shade::Ink },
            Pixel { x: 9, y: 8, shade: Shade::Ink },
        ],
{
    assert forall|face: Face| #![trigger spec_sprite(shape, antenna, face, eye_style, blink)]
        spec_sprite(shape, antenna, face, eye_style, blink).subrange(
            spec_sprite(shape, antenna, face, eye_style, blink).len() - 4,
            spec_sprite(shape, antenna, face, eye_style, blink).len() as int,
        ) =~= mouth_pixels(face) by {
        let s = spec_sprite(shape, antenna, face, eye_style, blink);
        let front = body_pixels(shape, BODY_HEIGHT as int) + antenna_pixels(antenna) + shape_marks(
            shape,
        ) + shine_pixels() + eye_pixels(4, 5, blink, face, eye_style) + eye_pixels(
            8,
            5,
            blink,
            face,
            eye_style,
        );
        assert(s == front + mouth_pixels(face));
        assert(mouth_pixels(face).len() == 4);
    }
}

/// The four faces draw four different mouths.
pub proof fn faces_have_distinct_mouths(first: Face, second: Face)
    requires
        first != second,
    ensures
        mouth_pixels(first) != mouth_pixels(second),
{
    if mouth_pixels(first) == mouth_pixels(second) {
        assert(mouth_pixels(first)[0] == mouth_pixels(second)[0]);
        assert(mouth_pixels(first)[1] == mouth_pixels(second)[1]);
        assert(mouth_pixels(first)[3] == mouth_pixels(second)[3]);
    }
}

} // verus!
