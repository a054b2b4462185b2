use vstd::prelude::*;
use crate::geometry::{
    COORD_LIMIT,
    Color,
    Primitive,
    Shape,
    Vec2,
    is_in_rect,
    lemma_shapes_empty,
    lemma_shapes_push,
    rect_contains,
    rgb,
    shapes,
    vec2,
};

verus! {

/// A horizontal bar showing a value between zero and a maximum, in domain
/// units (milliseconds of a track, percent of volume); a click sets the value.
pub struct ProgressBar {
    position: Vec2,
    size: Vec2,
    color: Color,
    maximum: u64,
    value: u64,
    real_value: u64,
    need_to_draw: bool,
    name: String,
}

/// The state of a `ProgressBar`.
pub struct ProgressModel {
    pub position: Vec2,
    pub size: Vec2,
    pub color: Color,
    /// The value that fills the whole track, in domain units.
    pub maximum: nat,
    /// The filled width, in pixels.
    pub value: nat,
    /// The last value set that changed the filled width, in domain units, as given.
    pub real_value: nat,
    pub need_to_draw: bool,
    pub name: Seq<char>,
}

/// The filled width for domain value `v`: `v`, clamped to `maximum`, scaled to `width` pixels.
pub open spec fn pixel_of(v: nat, maximum: nat, width: nat) -> nat
    recommends
        maximum > 0,
{
    (if v > maximum {
        maximum
    } else {
        v
    }) * width / maximum
}

/// The filled width for the last value `last`: `pixel_of`, or nothing with maximum zero.
pub open spec fn filled_width(last: nat, maximum: nat, width: nat) -> nat {
    if maximum > 0 {
        pixel_of(last, maximum, width)
    } else {
        0
    }
}

/// The domain value at `offset` pixels into a track `width` pixels wide.
pub open spec fn domain_of(offset: nat, maximum: nat, width: nat) -> nat
    recommends
        width > 0,
{
    offset * maximum / width
}

impl ProgressModel {
    /// The filled width is the one that the last value set gives.
    pub open spec fn wf(self) -> bool {
        &&& self.position.in_range()
        &&& self.size.in_range()
        &&& self.maximum <= u64::MAX
        &&& self.real_value <= u64::MAX
        &&& self.value == filled_width(self.real_value, self.maximum, self.track_width())
    }

    /// The x coordinate where the track starts.
    pub open spec fn track_x(self) -> int {
        self.position.x + 2
    }

    /// The width of the track in pixels: the bounds less a frame and a gap on each side.
    pub open spec fn track_width(self) -> nat {
        if self.size.x >= 4 {
            (self.size.x - 4) as nat
        } else {
            0
        }
    }

    /// Value `v` set: where it changes the filled width, the bar records it
    /// and is to be redrawn; elsewhere (or with maximum zero) nothing changes.
    pub open spec fn with_progress(self, v: nat) -> ProgressModel {
        let value = pixel_of(v, self.maximum, self.track_width());
        if self.maximum == 0 || value == self.value {
            self
        } else {
            ProgressModel { value, real_value: v, need_to_draw: true, ..self }
        }
    }

    /// The maximum set to `maximum`; the filled width follows the last value set.
    pub open spec fn with_maximum(self, maximum: nat) -> ProgressModel {
        let value = filled_width(self.real_value, maximum, self.track_width());
        ProgressModel {
            maximum,
            value,
            need_to_draw: self.need_to_draw || value != self.value,
            ..self
        }
    }

    /// The domain value that a click at `x` stands for, the offset clamped to the track.
    pub open spec fn value_at(self, x: int) -> nat {
        let offset = x - self.track_x();
        let clamped: nat = if offset < 0 {
            0
        } else if offset > self.track_width() {
            self.track_width()
        } else {
            offset as nat
        };
        domain_of(clamped, self.maximum, self.track_width())
    }

    pub open spec fn clicked(self, p: Vec2) -> ProgressModel {
        if self.maximum == 0 || self.track_width() == 0 {
            self
        } else {
            self.with_progress(self.value_at(p.x as int))
        }
    }

    pub open spec fn shapes(self) -> Seq<Shape> {
        seq![
            Shape::Rect {
                position: vec2(self.position.x + 1, self.position.y + 1),
                size: vec2(self.size.x - 2, self.size.y - 2),
                fill: rgb(0, 0, 0),
                outline: rgb(255, 255, 255),
                thickness: 1,
                rotation: 0,
            },
            Shape::Rect {
                position: vec2(self.position.x + 2, self.position.y + 2),
                size: vec2(self.value as int, self.size.y - 4),
                fill: self.color,
                outline: self.color,
                thickness: 0,
                rotation: 0,
            },
        ]
    }

    pub open spec fn moved(self, position: Vec2) -> ProgressModel {
        ProgressModel { position, need_to_draw: true, ..self }
    }

    pub open spec fn resized(self, size: Vec2) -> ProgressModel {
        if progress_min_size().x <= size.x && progress_min_size().y <= size.y
            && size.in_range() {
            let m = ProgressModel { size, need_to_draw: true, ..self };
            ProgressModel {
                value: filled_width(self.real_value, self.maximum, m.track_width()),
                ..m
            }
        } else {
            self
        }
    }

    /// What `draw` emits: everything when something changed, else nothing.
    pub open spec fn drawn(self) -> Seq<Shape> {
        if self.need_to_draw {
            self.shapes()
        } else {
            seq![]
        }
    }

    pub open spec fn cleared(self) -> ProgressModel {
        ProgressModel { need_to_draw: false, ..self }
    }
}

impl View for ProgressBar {
    type V = ProgressModel;

    closed spec fn view(&self) -> ProgressModel {
        ProgressModel {
            position: self.position,
            size: self.size,
            color: self.color,
            maximum: self.maximum as nat,
            value: self.value as nat,
            real_value: self.real_value as nat,
            need_to_draw: self.need_to_draw,
            name: self.name@,
        }
    }
}

pub open spec fn progress_min_size() -> Vec2 {
    vec2(3, 3)
}

proof fn lemma_product_fits(a: u64, b: u64)
    ensures
        (a as nat) * (b as nat) <= u128::MAX,
{
    assert((a as nat) * (b as nat) <= (u64::MAX as nat) * (u64::MAX as nat)) by (nonlinear_arith)
        requires
            a <= u64::MAX,
            b <= u64::MAX,
    ;
}

proof fn lemma_scaled_below(v: nat, maximum: nat, width: nat)
    requires
        maximum > 0,
        v <= maximum,
    ensures
        v * width / maximum <= width,
{
    assert(v * width <= maximum * width) by (nonlinear_arith)
        requires
            v <= maximum,
    ;
    vstd::arithmetic::div_mod::lemma_div_is_ordered(
        (v * width) as int,
        (maximum * width) as int,
        maximum as int,
    );
    vstd::arithmetic::div_mod::lemma_div_by_multiple(width as int, maximum as int);
    assert(maximum * width == width * maximum) by (nonlinear_arith);
}

impl ProgressBar {
    /// An empty bar with maximum zero, to be drawn.
    pub fn new_init(size: Vec2, position: Vec2, color: Color) -> (r: ProgressBar)
        requires
            size.in_range(),
            position.in_range(),
        ensures
            r@.wf(),
            r@ == (ProgressModel {
                position,
                size,
                color,
                maximum: 0,
                value: 0,
                real_value: 0,
                need_to_draw: true,
                name: seq![],
            }),
    {
        ProgressBar {
            position,
            size,
            color,
            maximum: 0,
            value: 0,
            real_value: 0,
            need_to_draw: true,
            name: String::new(),
        }
    }

    fn track_width(&self) -> (r: u64)
        requires
            self@.size.in_range(),
        ensures
            r == self@.track_width(),
    {
        if self.size.x >= 4 {
            (self.size.x - 4) as u64
        } else {
            0
        }
    }

    /// The filled width for `last` on this bar with maximum `maximum`.
    fn filled_for(&self, last: u64, maximum: u64) -> (r: u64)
        requires
            self@.size.in_range(),
        ensures
            r == filled_width(last as nat, maximum as nat, self@.track_width()),
            r <= self@.track_width(),
    {
        if maximum == 0 {
            return 0;
        }
        let w = self.track_width();
        let clamped = if last > maximum {
            maximum
        } else {
            last
        };
        proof {
            lemma_scaled_below(clamped as nat, maximum as nat, w as nat);
            lemma_product_fits(clamped, w);
        }
        ((clamped as u128) * (w as u128) / (maximum as u128)) as u64
    }

    /// Sets the value in domain units. Where the filled width changes, the
    /// value is recorded as given and the bar is to be redrawn; where it does
    /// not, or the maximum is zero, nothing changes.
    pub fn set_progress(&mut self, position: u64)
        requires
            old(self)@.wf(),
        ensures
            final(self)@ == old(self)@.with_progress(position as nat),
            final(self)@.wf(),
    {
        if self.maximum > 0 {
            let new_value = self.filled_for(position, self.maximum);
            if new_value != self.value {
                self.value = new_value;
                self.real_value = position;
                self.need_to_draw = true;
            }
        }
    }

    pub fn get_real_value(&self) -> (r: u64)
        ensures
            r == self@.real_value,
    {
        self.real_value
    }

    pub fn get_maximum(&self) -> (r: u64)
        ensures
            r == self@.maximum,
    {
        self.maximum
    }

    /// Sets the value that fills the track; the filled width follows the last value set.
    pub fn set_maximum(&mut self, maximum: u64)
        requires
            old(self)@.wf(),
        ensures
            final(self)@.wf(),
            final(self)@ == old(self)@.with_maximum(maximum as nat),
    {
        let value = self.filled_for(self.real_value, maximum);
        if value != self.value {
            self.value = value;
            self.need_to_draw = true;
        }
        self.maximum = maximum;
    }

    /// Sets the value that the pixel under the click stands for.
    pub fn clicked(&mut self, position: Vec2)
        requires
            old(self)@.wf(),
        ensures
            final(self)@ == old(self)@.clicked(position),
            final(self)@.wf(),
    {
        let w = self.track_width();
        if self.maximum > 0 && w > 0 {
            let start = self.position.x + 2;
            let offset: u64 = if position.x < start {
                0
            } else if (position.x as i128) - (start as i128) > (w as i128) {
                w
            } else {
                (position.x - start) as u64
            };
            proof {
                lemma_scaled_below(offset as nat, w as nat, self.maximum as nat);
                lemma_product_fits(offset, self.maximum);
            }
            let v = ((offset as u128) * (self.maximum as u128) / (w as u128)) as u64;
            self.set_progress(v);
        }
    }

    pub fn draw(&mut self) -> (r: Vec<Primitive>)
        requires
            old(self)@.wf(),
        ensures
            final(self)@ == old(self)@.cleared(),
            shapes(r@) == old(self)@.drawn(),
    {
        let mut r: Vec<Primitive> = Vec::new();
        proof {
            lemma_shapes_empty();
        }
        if self.need_to_draw {
            let frame = Primitive::Rect {
                position: Vec2::new(self.position.x + 1, self.position.y + 1),
                size: Vec2::new(self.size.x - 2, self.size.y - 2),
                fill: Color::rgb(0, 0, 0),
                outline: Color::rgb(255, 255, 255),
                thickness: 1,
                rotation: 0,
            };
            proof {
                lemma_shapes_push(r@, frame);
            }
            r.push(frame);
            let line = Primitive::Rect {
                position: Vec2::new(self.position.x + 2, self.position.y + 2),
                size: Vec2::new(self.value as i64, self.size.y - 4),
                fill: self.color,
                outline: self.color,
                thickness: 0,
                rotation: 0,
            };
            proof {
                lemma_shapes_push(r@, line);
            }
            r.push(line);
            assert(shapes(r@) =~= old(self)@.shapes());
        }
        self.need_to_draw = false;
        r
    }

    pub fn get_size(&self) -> (r: Vec2)
        ensures
            r == self@.size,
    {
        self.size
    }

    /// Resizes the bar and rescales the last value set; a size below the minimum
    /// or out of range is refused.
    pub fn set_size(&mut self, size: Vec2)
        requires
            old(self)@.wf(),
        ensures
            final(self)@.wf(),
            final(self)@ == old(self)@.resized(size),
    {
        if 3 <= size.x && 3 <= size.y && size.x <= COORD_LIMIT && size.y <= COORD_LIMIT {
            self.size = size;
            self.need_to_draw = true;
            self.value = self.filled_for(self.real_value, self.maximum);
        }
    }

    pub fn get_position(&self) -> (r: Vec2)
        ensures
            r == self@.position,
    {
        self.position
    }

    pub fn set_position(&mut self, position: Vec2)
        requires
            position.in_range(),
        ensures
            final(self)@ == old(self)@.moved(position),
    {
        self.position = position;
        self.need_to_draw = true;
    }

    pub fn is_inside(&self, p: Vec2) -> (r: bool)
        ensures
            r == rect_contains(self@.position, self@.size, p),
    {
        is_in_rect(self.position, self.size, p)
    }

    pub fn get_min_size(&self) -> (r: Vec2)
        ensures
            r == progress_min_size(),
    {
        Vec2::new(3, 3)
    }

    pub fn get_max_size(&self) -> (r: Option<Vec2>)
        ensures
            r is None,
    {
        None
    }

    /// Forces the next `draw` to emit the widget.
    pub fn invalidate(&mut self)
        ensures
            final(self)@ == (ProgressModel { need_to_draw: true, ..old(self)@ }),
    {
        self.need_to_draw = true;
    }

    pub fn set_element_name(&mut self, name: &String)
        ensures
            final(self)@ == (ProgressModel { name: name@, ..old(self)@ }),
    {
        self.name = name.clone();
    }

    pub fn get_element_name(&self) -> (r: &String)
        ensures
            r@ == self@.name,
    {
        &self.name
    }
}

proof fn lemma_same_pixel(r: nat, v: nat, m: nat, w: nat)
    requires
        m > 0,
        r <= m,
        v <= m,
        r * w / m == v * w / m,
    ensures
        -(m as int) < (r - v) * w < m,
{
    vstd::arithmetic::div_mod::lemma_fundamental_div_mod((r * w) as int, m as int);
    vstd::arithmetic::div_mod::lemma_fundamental_div_mod((v * w) as int, m as int);
    let q = ((r * w) as int) / (m as int);
    let a = ((r * w) as int) % (m as int);
    let b = ((v * w) as int) % (m as int);
    assert(-(m as int) < (r - v) * w < m) by (nonlinear_arith)
        requires
            r * w == m * q + a,
            v * w == m * q + b,
            0 <= a < m,
            0 <= b < m,
    ;
}

proof fn lemma_click_back(v: nat, m: nat, w: nat)
    requires
        m > 0,
        w > 0,
        v <= m,
    ensures
        (v * w / m) * m / w <= v,
        (v - (v * w / m) * m / w) * w < m + w,
        v * w / m <= w,
{
    lemma_scaled_below(v, m, w);
    let value = v * w / m;
    let d = value * m / w;
    vstd::arithmetic::div_mod::lemma_fundamental_div_mod((v * w) as int, m as int);
    vstd::arithmetic::div_mod::lemma_fundamental_div_mod((value * m) as int, w as int);
    let r1 = ((v * w) as int) % (m as int);
    let r2 = ((value * m) as int) % (w as int);
    assert(d <= v && (v - d) * w < m + w) by (nonlinear_arith)
        requires
            v * w == m * value + r1,
            value * m == w * d + r2,
            0 <= r1 < m,
            0 <= r2 < w,
            w > 0,
            m > 0,
            d >= 0,
    ;
}

/// Setting a value and then clicking the pixel where the bar ends gives back
/// that value to within the domain width of one pixel (`maximum /
/// track_width`) plus one. The value recorded before must not exceed the
/// maximum: one above it fills the same width as the maximum itself.
pub proof fn click_after_set_progress(b: ProgressModel, v: nat)
    requires
        b.wf(),
        b.maximum > 0,
        b.track_width() > 0,
        v <= b.maximum,
        b.real_value <= b.maximum,
    ensures
        ({
            let set = b.with_progress(v);
            let after = set.clicked(vec2(set.track_x() + set.value, b.position.y as int));
            let w = b.track_width();
            -(b.maximum + w) < (after.real_value - v) * w < b.maximum + w
        }),
{
    let w = b.track_width();
    let m = b.maximum;
    let px = v * w / m;
    lemma_click_back(v, m, w);
    let set = b.with_progress(v);
    assert(set.value == px);
    assert(set.real_value <= m);
    assert(set.real_value * w / m == px);
    let x = set.track_x() + set.value;
    assert(vec2(x, b.position.y as int).x == x);
    let d = px * m / w;
    assert(set.value_at(x) == d);
    let after = set.clicked(vec2(x, b.position.y as int));
    if after.real_value == set.real_value {
        lemma_same_pixel(set.real_value, v, m, w);
    } else {
        assert(after.real_value == d);
        assert((d - v) * w == -((v - d) * w)) by (nonlinear_arith);
    }
}

} // verus!
