use vstd::prelude::*;

verus! {

/// Largest coordinate magnitude that a caller may hand in, in pixels.
pub const COORD_LIMIT: i64 = 1_000_000_000;

/// A point or an extent on screen, in whole pixels.
#[derive(Clone, Copy, Debug, PartialEq, Eq, Structural)]
pub struct Vec2 {
    pub x: i64,
    pub y: i64,
}

/// Builds a `Vec2` in specifications from integer coordinates.
pub open spec fn vec2(x: int, y: int) -> Vec2 {
    Vec2 { x: x as i64, y: y as i64 }
}

impl Vec2 {
    /// Both coordinates lie within what a caller may hand in.
    pub open spec fn in_range(self) -> bool {
        -COORD_LIMIT <= self.x <= COORD_LIMIT && -COORD_LIMIT <= self.y <= COORD_LIMIT
    }

    pub fn new(x: i64, y: i64) -> (r: Vec2)
        ensures
            r == (Vec2 { x, y }),
    {
        Vec2 { x, y }
    }
}

/// The rectangle at `pos` of extent `size` is not inverted and lies within
/// what a caller may hand in.
pub open spec fn rect_in_range(pos: Vec2, size: Vec2) -> bool {
    &&& pos.in_range()
    &&& size.in_range()
    &&& 0 <= size.x
    &&& 0 <= size.y
    &&& pos.x + size.x <= COORD_LIMIT
    &&& pos.y + size.y <= COORD_LIMIT
}

/// Whether `p` lies in the axis-aligned rectangle at `pos` of extent `size`, edges included.
pub open spec fn rect_contains(pos: Vec2, size: Vec2, p: Vec2) -> bool {
    pos.x <= p.x <= pos.x + size.x && pos.y <= p.y <= pos.y + size.y
}

pub fn is_in_rect(pos: Vec2, size: Vec2, p: Vec2) -> (r: bool)
    ensures
        r == rect_contains(pos, size, p),
{
    let right = pos.x as i128 + size.x as i128;
    let bottom = pos.y as i128 + size.y as i128;
    pos.x <= p.x && (p.x as i128) <= right && pos.y <= p.y && (p.y as i128) <= bottom
}

/// Division rounded down, as the specification's `/` does for a positive divisor.
pub fn floor_div(a: i64, b: i64) -> (r: i64)
    requires
        0 < b <= 16 * COORD_LIMIT,
        -16 * COORD_LIMIT <= a <= 16 * COORD_LIMIT,
    ensures
        r == a / b,
{
    if a >= 0 {
        a / b
    } else {
        let n: i64 = -a;
        let q: i64 = (n + b - 1) / b;
        proof {
            lemma_neg_floor(a as int, b as int, q as int);
        }
        -q
    }
}

proof fn lemma_neg_floor(a: int, b: int, q: int)
    requires
        a < 0,
        b > 0,
        q == (-a + b - 1) / b,
    ensures
        -q == a / b,
{
    let n = -a + b - 1;
    vstd::arithmetic::div_mod::lemma_fundamental_div_mod(n, b);
    let k = n % b;
    assert(n == b * q + k && 0 <= k < b);
    assert(a == (-q) * b + (b - 1 - k)) by (nonlinear_arith)
        requires
            n == b * q + k,
            n == -a + b - 1,
    ;
    vstd::arithmetic::div_mod::lemma_fundamental_div_mod_converse(a, b, -q, b - 1 - k);
}

/// A color with red, green and blue parts.
#[derive(Clone, Copy, Debug, PartialEq, Eq, Structural)]
pub struct Color {
    pub r: u8,
    pub g: u8,
    pub b: u8,
}

pub open spec fn rgb(r: u8, g: u8, b: u8) -> Color {
    Color { r, g, b }
}

impl Color {
    pub fn rgb(r: u8, g: u8, b: u8) -> (c: Color)
        ensures
            c == rgb(r, g, b),
    {
        Color { r, g, b }
    }
}

/// What a widget asks the renderer to draw, in screen coordinates.
#[derive(Clone, Debug)]
pub enum Primitive {
    /// A rectangle turned clockwise by `rotation` degrees about its corner.
    Rect { position: Vec2, size: Vec2, fill: Color, outline: Color, thickness: i64, rotation: i64 },
    /// A circle whose bounding square has its corner at `position`.
    Circle { position: Vec2, radius: i64, fill: Color, outline: Color, thickness: i64 },
    /// A line of text in the shared font, `char_size` pixels high.
    Text { position: Vec2, text: String, color: Color, char_size: i64 },
}

/// The mathematical content of a `Primitive`.
pub enum Shape {
    Rect { position: Vec2, size: Vec2, fill: Color, outline: Color, thickness: int, rotation: int },
    Circle { position: Vec2, radius: int, fill: Color, outline: Color, thickness: int },
    Text { position: Vec2, text: Seq<char>, color: Color, char_size: int },
}

impl View for Primitive {
    type V = Shape;

    open spec fn view(&self) -> Shape {
        match self {
            Primitive::Rect { position, size, fill, outline, thickness, rotation } => Shape::Rect {
                position: *position,
                size: *size,
                fill: *fill,
                outline: *outline,
                thickness: *thickness as int,
                rotation: *rotation as int,
            },
            Primitive::Circle { position, radius, fill, outline, thickness } => Shape::Circle {
                position: *position,
                radius: *radius as int,
                fill: *fill,
                outline: *outline,
                thickness: *thickness as int,
            },
            Primitive::Text { position, text, color, char_size } => Shape::Text {
                position: *position,
                text: text@,
                color: *color,
                char_size: *char_size as int,
            },
        }
    }
}

/// The shapes of a list of primitives.
pub open spec fn shapes(v: Seq<Primitive>) -> Seq<Shape> {
    v.map_values(|p: Primitive| p@)
}

pub proof fn lemma_shapes_push(v: Seq<Primitive>, p: Primitive)
    ensures
        shapes(v.push(p)) == shapes(v).push(p@),
{
    assert(shapes(v.push(p)) =~= shapes(v).push(p@));
}

pub proof fn lemma_shapes_append(a: Seq<Primitive>, b: Seq<Primitive>)
    ensures
        shapes(a + b) == shapes(a) + shapes(b),
{
    assert(shapes(a + b) =~= shapes(a) + shapes(b));
}

pub proof fn lemma_shapes_empty()
    ensures
        shapes(Seq::<Primitive>::empty()) == Seq::<Shape>::empty(),
{
    assert(shapes(Seq::<Primitive>::empty()) =~= Seq::<Shape>::empty());
}

} // verus!
