//! Colors, the screen geometry and the display list that a frame is drawn as.
use vstd::prelude::*;

verus! {

pub const SCREEN_WIDTH: usize = 640;
pub const SCREEN_HEIGHT: usize = 480;

#[derive(Clone, Copy, Debug, PartialEq, Eq, Structural)]
pub struct Color {
    pub r: u8,
    pub g: u8,
    pub b: u8,
}

impl Color {
    pub fn new(r: u8, g: u8, b: u8) -> (c: Self)
        ensures
            c == (Color { r, g, b }),
    {
        Color { r, g, b }
    }

    pub fn white() -> (c: Self)
        ensures
            c == (Color { r: 255, g: 255, b: 255 }),
    {
        Color::new(255, 255, 255)
    }

    pub fn black() -> (c: Self)
        ensures
            c == (Color { r: 0, g: 0, b: 0 }),
    {
        Color::new(0, 0, 0)
    }

    pub fn gray() -> (c: Self)
        ensures
            c == (Color { r: 128, g: 128, b: 128 }),
    {
        Color::new(128, 128, 128)
    }

    pub fn light_gray() -> (c: Self)
        ensures
            c == (Color { r: 240, g: 240, b: 245 }),
    {
        Color::new(240, 240, 245)
    }

    pub fn dark_gray() -> (c: Self)
        ensures
            c == (Color { r: 60, g: 60, b: 60 }),
    {
        Color::new(60, 60, 60)
    }

    pub fn blue() -> (c: Self)
        ensures
            c == (Color { r: 0, g: 122, b: 255 }),
    {
        Color::new(0, 122, 255)
    }

    pub fn red() -> (c: Self)
        ensures
            c == (Color { r: 255, g: 59, b: 48 }),
    {
        Color::new(255, 59, 48)
    }

    pub fn green() -> (c: Self)
        ensures
            c == (Color { r: 52, g: 199, b: 89 }),
    {
        Color::new(52, 199, 89)
    }

    pub fn yellow() -> (c: Self)
        ensures
            c == (Color { r: 255, g: 204, b: 0 }),
    {
        Color::new(255, 204, 0)
    }
}

/// One drawing primitive of a frame. Coordinates are pixels; whatever falls
/// outside the screen is dropped by the surface that executes the list.
#[derive(Clone, Debug)]
pub enum DrawOp {
    /// Fills the whole surface.
    Clear { color: Color },
    /// Fills a rectangle.
    Rect { x: usize, y: usize, width: usize, height: usize, color: Color },
    /// Fills a rectangle whose corners are cut away.
    RoundedRect { x: usize, y: usize, width: usize, height: usize, color: Color },
    /// Draws the one-pixel border of a rectangle.
    Outline { x: usize, y: usize, width: usize, height: usize, color: Color },
    /// Draws a line of fixed-width glyphs.
    Text { text: String, x: usize, y: usize, color: Color },
    /// Draws the pointer sprite with its tip at the point.
    Pointer { x: usize, y: usize },
}

/// Index into the display's 256-color palette that stands for `c`: the
/// named colors have their own entries, every other color shows as light gray.
pub open spec fn palette_of(c: Color) -> u8 {
    if c == (Color { r: 255, g: 255, b: 255 }) {
        15
    } else if c == (Color { r: 0, g: 0, b: 0 }) {
        0
    } else if c == (Color { r: 128, g: 128, b: 128 }) || c == (Color { r: 60, g: 60, b: 60 }) {
        8
    } else if c == (Color { r: 0, g: 122, b: 255 }) {
        9
    } else if c == (Color { r: 255, g: 59, b: 48 }) {
        12
    } else if c == (Color { r: 52, g: 199, b: 89 }) {
        10
    } else if c == (Color { r: 255, g: 204, b: 0 }) {
        14
    } else {
        7
    }
}

/// The palette index that stands for `c`.
pub fn rgb_to_vga(c: Color) -> (i: u8)
    ensures
        i == palette_of(c),
{
    match (c.r, c.g, c.b) {
        (255, 255, 255) => 15,
        (0, 0, 0) => 0,
        (128, 128, 128) => 8,
        (60, 60, 60) => 8,
        (0, 122, 255) => 9,
        (255, 59, 48) => 12,
        (52, 199, 89) => 10,
        (255, 204, 0) => 14,
        _ => 7,
    }
}

/// Relies on `String`'s `FromIterator<&char>`: the string holds the characters
/// in order.
#[verifier::external_body]
pub(crate) fn string_of(chars: &Vec<char>) -> (s: String)
    ensures
        s@ == chars@,
{
    chars.iter().collect()
}

/// Index of pixel (x, y) in a row-major surface, or `None` where the point is
/// off the surface.
pub fn pixel_offset(x: usize, y: usize) -> (r: Option<usize>)
    ensures
        r == (if x < SCREEN_WIDTH && y < SCREEN_HEIGHT {
            Some((y * SCREEN_WIDTH + x) as usize)
        } else {
            None
        }),
{
    if x < SCREEN_WIDTH && y < SCREEN_HEIGHT {
        Some(y * SCREEN_WIDTH + x)
    } else {
        None
    }
}

/// `a` held to the range of `usize`.
pub open spec fn clamp_usize(a: int) -> usize {
    if a < 0 {
        0
    } else if a <= usize::MAX {
        a as usize
    } else {
        usize::MAX
    }
}

/// The color with the given channels.
pub open spec fn rgb(r: u8, g: u8, b: u8) -> Color {
    Color { r, g, b }
}

/// A drawing primitive as the contracts see it: a text is its characters.
pub enum Shape {
    Clear { color: Color },
    Rect { x: usize, y: usize, width: usize, height: usize, color: Color },
    RoundedRect { x: usize, y: usize, width: usize, height: usize, color: Color },
    Outline { x: usize, y: usize, width: usize, height: usize, color: Color },
    Text { text: Seq<char>, x: usize, y: usize, color: Color },
    Pointer { x: usize, y: usize },
}

pub open spec fn shape_of(op: DrawOp) -> Shape {
    match op {
        DrawOp::Clear { color } => Shape::Clear { color },
        DrawOp::Rect { x, y, width, height, color } => Shape::Rect { x, y, width, height, color },
        DrawOp::RoundedRect { x, y, width, height, color } => Shape::RoundedRect {
            x,
            y,
            width,
            height,
            color,
        },
        DrawOp::Outline { x, y, width, height, color } => Shape::Outline {
            x,
            y,
            width,
            height,
            color,
        },
        DrawOp::Text { text, x, y, color } => Shape::Text { text: text@, x, y, color },
        DrawOp::Pointer { x, y } => Shape::Pointer { x, y },
    }
}

/// The display list as the contracts see it.
pub open spec fn shapes(ops: Seq<DrawOp>) -> Seq<Shape> {
    ops.map_values(|op: DrawOp| shape_of(op))
}

pub proof fn lemma_shapes_push(ops: Seq<DrawOp>, op: DrawOp)
    ensures
        shapes(ops.push(op)) == shapes(ops).push(shape_of(op)),
{
    assert(shapes(ops.push(op)) =~= shapes(ops).push(shape_of(op)));
}

/// Appends a primitive.
pub fn push_op(ops: &mut Vec<DrawOp>, op: DrawOp)
    ensures
        final(ops)@ == old(ops)@.push(op),
        shapes(final(ops)@) == shapes(old(ops)@).push(shape_of(op)),
{
    proof {
        lemma_shapes_push(ops@, op);
    }
    ops.push(op);
}

/// Appends a filled rectangle.
pub fn push_rect(ops: &mut Vec<DrawOp>, x: usize, y: usize, width: usize, height: usize, color: Color)
    ensures
        shapes(final(ops)@) == shapes(old(ops)@).push(Shape::Rect { x, y, width, height, color }),
{
    push_op(ops, DrawOp::Rect { x, y, width, height, color });
}

/// Appends a filled rectangle with cut corners.
pub fn push_rounded_rect(
    ops: &mut Vec<DrawOp>,
    x: usize,
    y: usize,
    width: usize,
    height: usize,
    color: Color,
)
    ensures
        shapes(final(ops)@) == shapes(old(ops)@).push(
            Shape::RoundedRect { x, y, width, height, color },
        ),
{
    push_op(ops, DrawOp::RoundedRect { x, y, width, height, color });
}

/// Appends a rectangle's border.
pub fn push_outline(ops: &mut Vec<DrawOp>, x: usize, y: usize, width: usize, height: usize, color: Color)
    ensures
        shapes(final(ops)@) == shapes(old(ops)@).push(Shape::Outline { x, y, width, height, color }),
{
    push_op(ops, DrawOp::Outline { x, y, width, height, color });
}

/// Appends a line of text; the operation holds its own copy of `text`.
pub fn push_text(ops: &mut Vec<DrawOp>, text: &str, x: usize, y: usize, color: Color)
    ensures
        shapes(final(ops)@) == shapes(old(ops)@).push(Shape::Text { text: text@, x, y, color }),
{
    push_op(ops, DrawOp::Text { text: text.to_owned(), x, y, color });
}

} // verus!
