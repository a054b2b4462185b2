use vstd::prelude::*;
use vstd::string::StringExecFns;
use crate::geometry::{
    COORD_LIMIT,
    Color,
    Primitive,
    Shape,
    Vec2,
    floor_div,
    is_in_rect,
    lemma_shapes_empty,
    rect_contains,
    rgb,
    shapes,
    vec2,
};
use crate::text::{push_thousandths, thousandths};

verus! {

/// The coordinate at the rim of the pad, in whole units.
pub const POSITION_LIMIT: i64 = 30;

/// Radius of the marker at the centre of the pad.
pub const CENTER_RADIUS: i64 = 6;

/// `d` pixels from the centre on a pad of radius `radius`, as thousandths of a
/// unit where the rim stands for `POSITION_LIMIT` units; rounded towards zero.
pub open spec fn pad_coordinate(d: int, radius: int) -> int {
    if d >= 0 {
        d * (POSITION_LIMIT * 1000) / radius
    } else {
        -((-d) * (POSITION_LIMIT * 1000) / radius)
    }
}

/// The pixel distance from the centre that `c` thousandths stand for on a
/// pad of radius `radius`; the inverse of `pad_coordinate`, rounded towards zero.
pub open spec fn pixel_offset(c: int, radius: int) -> int {
    if c >= 0 {
        c * radius / (POSITION_LIMIT * 1000)
    } else {
        -((-c) * radius / (POSITION_LIMIT * 1000))
    }
}

/// A round pad seen from above, on which a click places the listener.
pub struct GraphicSoundPosition {
    position: Vec2,
    size: Vec2,
    x: i64,
    y: i64,
    cross: Vec2,
    need_to_draw: bool,
    name: String,
}

/// The state of a `GraphicSoundPosition`.
pub struct SoundPositionModel {
    pub position: Vec2,
    pub size: Vec2,
    /// Listener position across, in thousandths; negative to the right of the centre.
    pub x: int,
    /// Listener position ahead, in thousandths; positive above the centre.
    pub y: int,
    /// Where the cross stands, relative to the centre, in pixels.
    pub cross: Vec2,
    pub need_to_draw: bool,
    pub name: Seq<char>,
}

impl SoundPositionModel {
    pub open spec fn wf(self) -> bool {
        &&& self.position.in_range()
        &&& self.size.in_range()
        &&& -COORD_LIMIT <= self.cross.x <= COORD_LIMIT
        &&& -COORD_LIMIT <= self.cross.y <= COORD_LIMIT
        &&& -POSITION_LIMIT * 1000 <= self.x <= POSITION_LIMIT * 1000
        &&& -POSITION_LIMIT * 1000 <= self.y <= POSITION_LIMIT * 1000
    }

    pub open spec fn center(self) -> Vec2 {
        vec2(self.position.x + self.size.x / 2, self.position.y + self.size.y / 2)
    }

    /// The radius of the pad: half the smaller side, less a margin of two pixels.
    pub open spec fn radius(self) -> int {
        if self.size.x > self.size.y {
            self.size.y / 2 - 2
        } else {
            self.size.x / 2 - 2
        }
    }

    /// A click within the pad's circle moves the listener there; elsewhere it does nothing.
    pub open spec fn clicked(self, p: Vec2) -> SoundPositionModel {
        let dx = p.x - self.center().x;
        let dy = p.y - self.center().y;
        if self.radius() > 0 && dx * dx + dy * dy <= self.radius() * self.radius() {
            SoundPositionModel {
                x: pad_coordinate(-dx, self.radius()),
                y: pad_coordinate(-dy, self.radius()),
                cross: vec2(dx, dy),
                need_to_draw: true,
                ..self
            }
        } else {
            self
        }
    }

    pub open spec fn reset(self) -> SoundPositionModel {
        SoundPositionModel { x: 0, y: 0, cross: vec2(0, 0), need_to_draw: true, ..self }
    }

    pub open spec fn shapes(self) -> Seq<Shape> {
        let c = self.center();
        let r = self.radius();
        let cross_at = vec2(c.x + self.cross.x, c.y + self.cross.y);
        seq![
            Shape::Rect {
                position: self.position,
                size: self.size,
                fill: rgb(0, 0, 0),
                outline: rgb(0, 0, 0),
                thickness: 0,
                rotation: 0,
            },
            Shape::Circle {
                position: vec2(c.x - r, c.y - r),
                radius: r,
                fill: rgb(0, 0, 0),
                outline: rgb(255, 255, 255),
                thickness: 1,
            },
            Shape::Text {
                position: vec2(self.position.x + 1, self.position.y as int),
                text: seq!['x', ':', ' '] + thousandths(self.x),
                color: rgb(255, 255, 255),
                char_size: 20,
            },
            Shape::Text {
                position: vec2(self.position.x + 1, self.position.y + 21),
                text: seq!['y', ':', ' '] + thousandths(self.y),
                color: rgb(255, 255, 255),
                char_size: 20,
            },
            Shape::Circle {
                position: vec2(c.x - CENTER_RADIUS, c.y - CENTER_RADIUS),
                radius: CENTER_RADIUS as int,
                fill: rgb(255, 255, 255),
                outline: rgb(255, 255, 255),
                thickness: 0,
            },
            Shape::Rect {
                position: vec2(cross_at.x + 3, cross_at.y - 5),
                size: vec2(2, 13),
                fill: rgb(255, 50, 50),
                outline: rgb(255, 50, 50),
                thickness: 0,
                rotation: 45,
            },
            Shape::Rect {
                position: vec2(cross_at.x - 5, cross_at.y - 5),
                size: vec2(2, 13),
                fill: rgb(255, 50, 50),
                outline: rgb(255, 50, 50),
                thickness: 0,
                rotation: 315,
            },
        ]
    }

    pub open spec fn moved(self, position: Vec2) -> SoundPositionModel {
        SoundPositionModel { position, need_to_draw: true, ..self }
    }

    /// Resized to `size`, when at least the minimum: the cross moves to where
    /// the listener position falls on the new radius.
    pub open spec fn resized(self, size: Vec2) -> SoundPositionModel {
        if sound_position_min_size().x <= size.x
            && sound_position_min_size().y <= size.y && size.in_range() {
            let m = SoundPositionModel { size, need_to_draw: true, ..self };
            SoundPositionModel {
                cross: if m.radius() > 0 {
                    vec2(-pixel_offset(self.x, m.radius()), -pixel_offset(self.y, m.radius()))
                } else {
                    vec2(0, 0)
                },
                ..m
            }
        } else {
            self
        }
    }

    /// What `draw` emits: everything when something changed, else nothing.
    pub open spec fn drawn(self) -> Seq<Shape> {
        if self.need_to_draw {
            self.shapes()
        } else {
            seq![]
        }
    }

    pub open spec fn cleared(self) -> SoundPositionModel {
        SoundPositionModel { need_to_draw: false, ..self }
    }
}

impl View for GraphicSoundPosition {
    type V = SoundPositionModel;

    closed spec fn view(&self) -> SoundPositionModel {
        SoundPositionModel {
            position: self.position,
            size: self.size,
            x: self.x as int,
            y: self.y as int,
            cross: self.cross,
            need_to_draw: self.need_to_draw,
            name: self.name@,
        }
    }
}

pub open spec fn sound_position_min_size() -> Vec2 {
    vec2(20, 20)
}

proof fn lemma_scaled_within(a: int, radius: int)
    requires
        0 <= a <= radius,
        radius > 0,
    ensures
        0 <= a * (POSITION_LIMIT * 1000) / radius <= POSITION_LIMIT * 1000,
{
    let k = POSITION_LIMIT * 1000;
    assert(0 <= a * k <= radius * k) by (nonlinear_arith)
        requires
            0 <= a <= radius,
            k > 0,
    ;
    vstd::arithmetic::div_mod::lemma_div_is_ordered(a * k, radius * k, radius);
    vstd::arithmetic::div_mod::lemma_div_is_ordered(0, a * k, radius);
    vstd::arithmetic::div_mod::lemma_div_by_multiple(k, radius);
    assert(radius * k == k * radius) by (nonlinear_arith);
}

proof fn lemma_square_below(v: int, r: int)
    requires
        0 < r <= COORD_LIMIT,
        -r <= v <= r,
    ensures
        0 <= v * v <= COORD_LIMIT * COORD_LIMIT,
{
    assert(0 <= v * v <= r * r) by (nonlinear_arith)
        requires
            -r <= v <= r,
    ;
    assert(r * r <= COORD_LIMIT * COORD_LIMIT) by (nonlinear_arith)
        requires
            0 < r <= COORD_LIMIT,
    ;
}

proof fn lemma_offset_within(a: int, radius: int)
    requires
        0 <= a <= POSITION_LIMIT * 1000,
        0 < radius <= COORD_LIMIT,
    ensures
        0 <= a * radius <= POSITION_LIMIT * 1000 * COORD_LIMIT,
        0 <= a * radius / (POSITION_LIMIT * 1000) <= radius,
{
    let k = POSITION_LIMIT * 1000;
    assert(0 <= a * radius <= k * radius) by (nonlinear_arith)
        requires
            0 <= a <= k,
            0 < radius,
    ;
    assert(k * radius <= k * COORD_LIMIT) by (nonlinear_arith)
        requires
            0 < radius <= COORD_LIMIT,
            k > 0,
    ;
    vstd::arithmetic::div_mod::lemma_div_is_ordered(a * radius, k * radius, k);
    vstd::arithmetic::div_mod::lemma_div_is_ordered(0, a * radius, k);
    vstd::arithmetic::div_mod::lemma_div_by_multiple(radius, k);
    assert(k * radius == radius * k) by (nonlinear_arith);
}

/// `pad_coordinate`, computed.
fn to_pad_coordinate(d: i64, radius: i64) -> (r: i64)
    requires
        0 < radius <= COORD_LIMIT,
        -radius <= d <= radius,
    ensures
        r == pad_coordinate(d as int, radius as int),
        -POSITION_LIMIT * 1000 <= r <= POSITION_LIMIT * 1000,
{
    let a: i64 = if d >= 0 {
        d
    } else {
        -d
    };
    proof {
        lemma_scaled_within(a as int, radius as int);
    }
    assert(0 <= a * (POSITION_LIMIT * 1000) <= COORD_LIMIT * (POSITION_LIMIT * 1000))
        by (nonlinear_arith)
        requires
            0 <= a <= COORD_LIMIT,
    ;
    let q = a * (POSITION_LIMIT * 1000) / radius;
    if d >= 0 {
        q
    } else {
        -q
    }
}

/// `pixel_offset`, computed.
fn to_pixel_offset(c: i64, radius: i64) -> (r: i64)
    requires
        0 < radius <= COORD_LIMIT,
        -POSITION_LIMIT * 1000 <= c <= POSITION_LIMIT * 1000,
    ensures
        r == pixel_offset(c as int, radius as int),
        -radius <= r <= radius,
{
    let a: i64 = if c >= 0 {
        c
    } else {
        -c
    };
    proof {
        lemma_offset_within(a as int, radius as int);
    }
    let q = a * radius / (POSITION_LIMIT * 1000);
    if c >= 0 {
        q
    } else {
        -q
    }
}

impl GraphicSoundPosition {
    /// A pad with the listener at its centre, to be drawn.
    pub fn new_init(size: Vec2, position: Vec2, color: Color) -> (r: GraphicSoundPosition)
        requires
            size.in_range(),
            position.in_range(),
        ensures
            r@.wf(),
            r@ == (SoundPositionModel {
                position,
                size,
                x: 0,
                y: 0,
                cross: vec2(0, 0),
                need_to_draw: true,
                name: seq![],
            }),
    {
        GraphicSoundPosition {
            position,
            size,
            x: 0,
            y: 0,
            cross: Vec2::new(0, 0),
            need_to_draw: true,
            name: String::new(),
        }
    }

    fn radius(&self) -> (r: i64)
        requires
            self@.wf(),
        ensures
            r == self@.radius(),
    {
        if self.size.x > self.size.y {
            floor_div(self.size.y, 2) - 2
        } else {
            floor_div(self.size.x, 2) - 2
        }
    }

    fn center(&self) -> (r: Vec2)
        requires
            self@.wf(),
        ensures
            r == self@.center(),
    {
        Vec2::new(self.position.x + floor_div(self.size.x, 2), self.position.y + floor_div(self.size.y, 2))
    }

    /// Listener position across, in thousandths of a unit.
    pub fn get_x(&self) -> (r: i64)
        ensures
            r == self@.x,
    {
        self.x
    }

    /// Listener position ahead, in thousandths of a unit.
    pub fn get_y(&self) -> (r: i64)
        ensures
            r == self@.y,
    {
        self.y
    }

    /// Puts the listener back at the centre.
    pub fn reset_cross_pos(&mut self)
        requires
            old(self)@.wf(),
        ensures
            final(self)@.wf(),
            final(self)@ == old(self)@.reset(),
    {
        self.x = 0;
        self.y = 0;
        self.cross = Vec2::new(0, 0);
        self.need_to_draw = true;
    }

    /// Moves the listener to a click within the pad's circle; a click outside it does nothing.
    pub fn clicked(&mut self, position: Vec2)
        requires
            old(self)@.wf(),
        ensures
            final(self)@.wf(),
            final(self)@ == old(self)@.clicked(position),
    {
        let r = self.radius();
        let c = self.center();
        let dx: i128 = position.x as i128 - c.x as i128;
        let dy: i128 = position.y as i128 - c.y as i128;
        if r > 0 && -(r as i128) <= dx && dx <= r as i128 && -(r as i128) <= dy && dy <= r as i128 {
            let sx: i64 = dx as i64;
            let sy: i64 = dy as i64;
            proof {
                lemma_square_below(sx as int, r as int);
                lemma_square_below(sy as int, r as int);
                lemma_square_below(r as int, r as int);
            }
            if (sx as i128) * (sx as i128) + (sy as i128) * (sy as i128) <= (r as i128) * (r as i128) {
                self.x = to_pad_coordinate(-sx, r);
                self.y = to_pad_coordinate(-sy, r);
                self.cross = Vec2::new(sx, sy);
                self.need_to_draw = true;
            }
        } else {
            assert(!(r > 0 && dx * dx + dy * dy <= r * r)) by (nonlinear_arith)
                requires
                    !(r > 0 && -r <= dx <= r && -r <= dy <= r),
            {
                if r > 0 && dx * dx + dy * dy <= r * r {
                    if dx > r || dx < -r {
                        assert(dx * dx > r * r);
                    } else {
                        assert(dy * dy > r * r);
                    }
                }
            }
        }
    }

    fn label(prefix: &str, v: i64) -> (r: String)
        requires
            v > i64::MIN,
        ensures
            r@ == prefix@ + thousandths(v as int),
    {
        let mut s = String::from_str(prefix);
        push_thousandths(&mut s, v);
        s
    }

    pub fn draw(&mut self) -> (r: Vec<Primitive>)
        requires
            old(self)@.wf(),
        ensures
            final(self)@ == old(self)@.cleared(),
            shapes(r@) == old(self)@.drawn(),
    {
        let mut r: Vec<Primitive> = Vec::new();
        proof {
            lemma_shapes_empty();
        }
        if self.need_to_draw {
            let c = self.center();
            let rad = self.radius();
            let cx = c.x + self.cross.x;
            let cy = c.y + self.cross.y;
            let white = Color::rgb(255, 255, 255);
            let black = Color::rgb(0, 0, 0);
            let red = Color::rgb(255, 50, 50);
            proof {
                reveal_strlit("x: ");
                reveal_strlit("y: ");
            }
            let text_x = Self::label("x: ", self.x);
            let text_y = Self::label("y: ", self.y);
            assert(text_x@ =~= seq!['x', ':', ' '] + thousandths(self.x as int));
            assert(text_y@ =~= seq!['y', ':', ' '] + thousandths(self.y as int));
            let circle_at = Vec2::new(c.x - rad, c.y - rad);
            let center_at = Vec2::new(c.x - CENTER_RADIUS, c.y - CENTER_RADIUS);
            let first_arm = Vec2::new(cx + 3, cy - 5);
            let second_arm = Vec2::new(cx - 5, cy - 5);
            let items = vec![
                Primitive::Rect {
                    position: self.position,
                    size: self.size,
                    fill: black,
                    outline: black,
                    thickness: 0,
                    rotation: 0,
                },
                Primitive::Circle {
                    position: circle_at,
                    radius: rad,
                    fill: black,
                    outline: white,
                    thickness: 1,
                },
                Primitive::Text {
                    position: Vec2::new(self.position.x + 1, self.position.y),
                    text: text_x,
                    color: white,
                    char_size: 20,
                },
                Primitive::Text {
                    position: Vec2::new(self.position.x + 1, self.position.y + 21),
                    text: text_y,
                    color: white,
                    char_size: 20,
                },
                Primitive::Circle {
                    position: center_at,
                    radius: CENTER_RADIUS,
                    fill: white,
                    outline: white,
                    thickness: 0,
                },
                Primitive::Rect {
                    position: first_arm,
                    size: Vec2::new(2, 13),
                    fill: red,
                    outline: red,
                    thickness: 0,
                    rotation: 45,
                },
                Primitive::Rect {
                    position: second_arm,
                    size: Vec2::new(2, 13),
                    fill: red,
                    outline: red,
                    thickness: 0,
                    rotation: 315,
                },
            ];
            r = items;
            assert(shapes(r@) =~= old(self)@.shapes());
        }
        self.need_to_draw = false;
        r
    }

    pub fn set_position(&mut self, position: Vec2)
        requires
            position.in_range(),
        ensures
            final(self)@ == old(self)@.moved(position),
    {
        self.position = position;
        self.need_to_draw = true;
    }

    pub fn get_position(&self) -> (r: Vec2)
        ensures
            r == self@.position,
    {
        self.position
    }

    /// Resizes the pad; a size below the minimum or out of range is refused.
    pub fn set_size(&mut self, size: Vec2)
        requires
            old(self)@.wf(),
        ensures
            final(self)@.wf(),
            final(self)@ == old(self)@.resized(size),
    {
        if 20 <= size.x && 20 <= size.y && size.x <= COORD_LIMIT && size.y <= COORD_LIMIT {
            self.size = size;
            self.need_to_draw = true;
            let r = self.radius();
            if r > 0 {
                let ox = to_pixel_offset(self.x, r);
                let oy = to_pixel_offset(self.y, r);
                self.cross = Vec2::new(-ox, -oy);
            } else {
                self.cross = Vec2::new(0, 0);
            }
        }
    }

    pub fn get_size(&self) -> (r: Vec2)
        ensures
            r == self@.size,
    {
        self.size
    }

    pub fn is_inside(&self, p: Vec2) -> (r: bool)
        ensures
            r == rect_contains(self@.position, self@.size, p),
    {
        is_in_rect(self.position, self.size, p)
    }

    pub fn get_min_size(&self) -> (r: Vec2)
        ensures
            r == sound_position_min_size(),
    {
        Vec2::new(20, 20)
    }

    pub fn get_max_size(&self) -> (r: Option<Vec2>)
        ensures
            r is None,
    {
        None
    }

    /// Forces the next `draw` to emit the pad.
    pub fn invalidate(&mut self)
        ensures
            final(self)@ == (SoundPositionModel { need_to_draw: true, ..old(self)@ }),
    {
        self.need_to_draw = true;
    }

    pub fn set_element_name(&mut self, name: &String)
        ensures
            final(self)@ == (SoundPositionModel { name: name@, ..old(self)@ }),
    {
        self.name = name.clone();
    }

    pub fn get_element_name(&self) -> (r: &String)
        ensures
            r@ == self@.name,
    {
        &self.name
    }
}

} // verus!
