use vstd::prelude::*;
use crate::geometry::{
    COORD_LIMIT,
    Color,
    Primitive,
    Shape,
    Vec2,
    is_in_rect,
    lemma_shapes_empty,
    lemma_shapes_push,
    rect_contains,
    rgb,
    shapes,
    vec2,
};

verus! {

/// Number of one-pixel bars in the display.
pub const BAR_COUNT: usize = 512;

/// A spectrum magnitude of one, in the millionths that `update_spectrum` takes.
pub const MAGNITUDE_ONE: i64 = 1_000_000;

/// How much a magnitude is amplified before it is clamped.
pub const MAGNITUDE_GAIN: i64 = 15;

/// A magnitude of `m` millionths, amplified and clamped to a fraction of
/// `[0, 1]`, counted in millionths.
pub open spec fn bar_fraction(m: int) -> int {
    if m <= 0 {
        0
    } else if MAGNITUDE_GAIN * m >= MAGNITUDE_ONE {
        MAGNITUDE_ONE as int
    } else {
        MAGNITUDE_GAIN * m
    }
}

/// The height of a bar for magnitude `m` on a track `track_height` pixels high:
/// `track_height * clamp(m * -15, -1, 0)`, negative so that bars rise from the
/// bottom edge, rounded towards zero.
pub open spec fn bar_height(track_height: int, m: int) -> int {
    -(track_height * bar_fraction(m) / (MAGNITUDE_ONE as int))
}

/// The bars after an update: the left channel fills them from the left, the
/// right channel from the right, and where both reach, the right one is shown.
pub open spec fn mirrored(bars: Seq<int>, track_height: int, left: Seq<i64>, right: Seq<i64>) -> Seq<int> {
    Seq::new(
        bars.len(),
        |k: int|
            if k >= bars.len() - right.len() {
                bar_height(track_height, right[bars.len() - 1 - k] as int)
            } else if k < left.len() {
                bar_height(track_height, left[k] as int)
            } else {
                bars[k]
            },
    )
}

/// A row of thin vertical bars showing the frequency spectrum of both channels.
pub struct GraphicSpectrum {
    position: Vec2,
    size: Vec2,
    color: Color,
    bars: Vec<i64>,
    need_to_draw: bool,
    name: String,
}

/// The state of a `GraphicSpectrum`.
pub struct SpectrumModel {
    pub position: Vec2,
    pub size: Vec2,
    pub color: Color,
    /// The height of each bar; negative heights rise from the bottom edge.
    pub bars: Seq<int>,
    pub need_to_draw: bool,
    pub name: Seq<char>,
}

impl SpectrumModel {
    pub open spec fn wf(self) -> bool {
        &&& self.position.in_range()
        &&& self.size.in_range()
        &&& 0 <= self.size.y
        &&& self.bars.len() == BAR_COUNT
        &&& forall|k: int| 0 <= k < self.bars.len() ==> -COORD_LIMIT <= #[trigger] self.bars[k] <= 0
    }

    pub open spec fn updated(self, left: Seq<i64>, right: Seq<i64>) -> SpectrumModel {
        SpectrumModel {
            bars: mirrored(self.bars, self.size.y as int, left, right),
            need_to_draw: true,
            ..self
        }
    }

    pub open spec fn bar_shape(self, k: int) -> Shape {
        Shape::Rect {
            position: vec2(self.position.x + k, self.position.y + self.size.y),
            size: vec2(1, self.bars[k]),
            fill: self.color,
            outline: self.color,
            thickness: 0,
            rotation: 0,
        }
    }

    pub open spec fn shapes(self) -> Seq<Shape> {
        seq![
            Shape::Rect {
                position: self.position,
                size: self.size,
                fill: rgb(0, 0, 0),
                outline: rgb(0, 0, 0),
                thickness: 0,
                rotation: 0,
            },
        ] + Seq::new(self.bars.len(), |k: int| self.bar_shape(k))
    }

    pub open spec fn moved(self, position: Vec2) -> SpectrumModel {
        SpectrumModel { position, need_to_draw: true, ..self }
    }

    pub open spec fn resized(self, size: Vec2) -> SpectrumModel {
        if spectrum_min_size().x <= size.x <= spectrum_max_size().x
            && spectrum_min_size().y <= size.y <= spectrum_max_size().y {
            SpectrumModel {
                size: vec2(BAR_COUNT as int, size.y as int),
                need_to_draw: true,
                ..self
            }
        } else {
            self
        }
    }

    /// What `draw` emits: everything when something changed, else nothing.
    pub open spec fn drawn(self) -> Seq<Shape> {
        if self.need_to_draw {
            self.shapes()
        } else {
            seq![]
        }
    }

    pub open spec fn cleared(self) -> SpectrumModel {
        SpectrumModel { need_to_draw: false, ..self }
    }
}

impl View for GraphicSpectrum {
    type V = SpectrumModel;

    closed spec fn view(&self) -> SpectrumModel {
        SpectrumModel {
            position: self.position,
            size: self.size,
            color: self.color,
            bars: self.bars@.map_values(|h: i64| h as int),
            need_to_draw: self.need_to_draw,
            name: self.name@,
        }
    }
}

pub open spec fn spectrum_min_size() -> Vec2 {
    vec2(20, 20)
}

pub open spec fn spectrum_max_size() -> Vec2 {
    vec2(512, 100000000)
}

fn bar_height_of(track_height: i64, m: i64) -> (r: i64)
    requires
        0 <= track_height <= COORD_LIMIT,
    ensures
        r == bar_height(track_height as int, m as int),
        -COORD_LIMIT <= r <= 0,
{
    let f: i64 = if m <= 0 {
        0
    } else if m >= MAGNITUDE_ONE / MAGNITUDE_GAIN + 1 {
        MAGNITUDE_ONE
    } else if MAGNITUDE_GAIN * m >= MAGNITUDE_ONE {
        MAGNITUDE_ONE
    } else {
        MAGNITUDE_GAIN * m
    };
    assert(f == bar_fraction(m as int));
    assert(0 <= track_height * f <= track_height * MAGNITUDE_ONE) by (nonlinear_arith)
        requires
            0 <= f <= MAGNITUDE_ONE,
            0 <= track_height,
    ;
    assert(track_height * f / (MAGNITUDE_ONE as int) <= track_height) by (nonlinear_arith)
        requires
            0 <= track_height * f <= track_height * MAGNITUDE_ONE,
            0 <= track_height,
    ;
    -(track_height * f / MAGNITUDE_ONE)
}

impl GraphicSpectrum {
    /// A display `size.y` pixels high (none when negative) and `BAR_COUNT`
    /// wide, with flat bars, to be drawn.
    pub fn new_init(size: Vec2, position: Vec2, color: Color) -> (r: GraphicSpectrum)
        requires
            size.in_range(),
            position.in_range(),
        ensures
            r@.wf(),
            r@ == (SpectrumModel {
                position,
                size: vec2(
                    BAR_COUNT as int,
                    if size.y < 0 {
                        0
                    } else {
                        size.y as int
                    },
                ),
                color,
                bars: Seq::new(BAR_COUNT as nat, |k: int| 0),
                need_to_draw: true,
                name: seq![],
            }),
    {
        let mut bars: Vec<i64> = Vec::new();
        let mut i: usize = 0;
        while i < BAR_COUNT
            invariant
                i <= BAR_COUNT,
                bars@.len() == i,
                forall|k: int| 0 <= k < i ==> bars@[k] == 0,
            decreases BAR_COUNT - i,
        {
            bars.push(0);
            i += 1;
        }
        let r = GraphicSpectrum {
            position,
            size: Vec2::new(BAR_COUNT as i64, if size.y < 0 { 0 } else { size.y }),
            color,
            bars,
            need_to_draw: true,
            name: String::new(),
        };
        assert(r@.bars =~= Seq::new(BAR_COUNT as nat, |k: int| 0));
        r
    }

    /// Sets the bars from the magnitudes of both channels, in millionths: bar
    /// `i` from `data_left[i]`, bar `BAR_COUNT - 1 - i` from `data_right[i]`.
    /// Bins past the last bar are ignored.
    pub fn update_spectrum(&mut self, data_left: &Vec<i64>, data_right: &Vec<i64>)
        requires
            old(self)@.wf(),
        ensures
            final(self)@.wf(),
            final(self)@ == old(self)@.updated(data_left@, data_right@),
    {
        let ghost start = self@;
        let h = self.size.y;
        let ghost goal = mirrored(start.bars, h as int, data_left@, data_right@);
        let nl: usize = if data_left.len() < BAR_COUNT {
            data_left.len()
        } else {
            BAR_COUNT
        };
        let nr: usize = if data_right.len() < BAR_COUNT {
            data_right.len()
        } else {
            BAR_COUNT
        };
        let mut i: usize = 0;
        while i < nl
            invariant
                self@.wf(),
                start.wf(),
                nl <= data_left@.len(),
                nl <= BAR_COUNT,
                nl == data_left@.len() || nl == BAR_COUNT,
                i <= nl,
                h == self@.size.y,
                self@ == (SpectrumModel { bars: self@.bars, ..start }),
                forall|k: int|
                    0 <= k < i ==> #[trigger] self@.bars[k] == bar_height(
                        h as int,
                        data_left@[k] as int,
                    ),
                forall|k: int| i <= k < BAR_COUNT ==> #[trigger] self@.bars[k] == start.bars[k],
            decreases nl - i,
        {
            let v = bar_height_of(h, data_left[i]);
            let ghost prev = self@.bars;
            self.bars.set(i, v);
            assert(self@.bars =~= prev.update(i as int, v as int));
            i += 1;
        }
        let mut j: usize = 0;
        while j < nr
            invariant
                self@.wf(),
                start.wf(),
                nl <= data_left@.len(),
                nl <= BAR_COUNT,
                nl == data_left@.len() || nl == BAR_COUNT,
                nr <= data_right@.len(),
                nr <= BAR_COUNT,
                nr == data_right@.len() || nr == BAR_COUNT,
                j <= nr,
                h == self@.size.y,
                self@ == (SpectrumModel { bars: self@.bars, ..start }),
                forall|k: int|
                    0 <= k < BAR_COUNT - j ==> #[trigger] self@.bars[k] == (if k < nl {
                        bar_height(h as int, data_left@[k] as int)
                    } else {
                        start.bars[k]
                    }),
                forall|k: int|
                    BAR_COUNT - j <= k < BAR_COUNT ==> #[trigger] self@.bars[k] == bar_height(
                        h as int,
                        data_right@[BAR_COUNT - 1 - k] as int,
                    ),
            decreases nr - j,
        {
            let v = bar_height_of(h, data_right[j]);
            let ghost prev = self@.bars;
            self.bars.set(BAR_COUNT - 1 - j, v);
            assert(self@.bars =~= prev.update(BAR_COUNT - 1 - j, v as int));
            j += 1;
        }
        self.need_to_draw = true;
        assert(self@.bars =~= goal);
    }

    pub fn draw(&mut self) -> (r: Vec<Primitive>)
        requires
            old(self)@.wf(),
        ensures
            final(self)@ == old(self)@.cleared(),
            shapes(r@) == old(self)@.drawn(),
    {
        let mut r: Vec<Primitive> = Vec::new();
        proof {
            lemma_shapes_empty();
        }
        if self.need_to_draw {
            let back = Primitive::Rect {
                position: self.position,
                size: self.size,
                fill: Color::rgb(0, 0, 0),
                outline: Color::rgb(0, 0, 0),
                thickness: 0,
                rotation: 0,
            };
            proof {
                lemma_shapes_push(r@, back);
            }
            r.push(back);
            let ghost m = self@;
            let mut i: usize = 0;
            while i < self.bars.len()
                invariant
                    m == self@,
                    m.wf(),
                    i <= self.bars@.len() == BAR_COUNT,
                    shapes(r@) == seq![m.shapes()[0]] + Seq::new(i as nat, |k: int| m.bar_shape(k)),
                decreases self.bars@.len() - i,
            {
                let bar = Primitive::Rect {
                    position: Vec2::new(self.position.x + i as i64, self.position.y + self.size.y),
                    size: Vec2::new(1, self.bars[i]),
                    fill: self.color,
                    outline: self.color,
                    thickness: 0,
                    rotation: 0,
                };
                proof {
                    lemma_shapes_push(r@, bar);
                    assert(bar@ == m.bar_shape(i as int));
                }
                r.push(bar);
                i += 1;
                assert(shapes(r@) =~= seq![m.shapes()[0]] + Seq::new(i as nat, |k: int| m.bar_shape(k)));
            }
            assert(shapes(r@) =~= old(self)@.shapes());
        }
        self.need_to_draw = false;
        r
    }

    pub fn set_position(&mut self, position: Vec2)
        requires
            position.in_range(),
        ensures
            final(self)@ == old(self)@.moved(position),
    {
        self.position = position;
        self.need_to_draw = true;
    }

    pub fn get_position(&self) -> (r: Vec2)
        ensures
            r == self@.position,
    {
        self.position
    }

    /// Sets the height; the width stays `BAR_COUNT`. A size outside the
    /// minimum and maximum is refused.
    pub fn set_size(&mut self, size: Vec2)
        ensures
            final(self)@ == old(self)@.resized(size),
    {
        if 20 <= size.x && size.x <= 512 && 20 <= size.y && size.y <= 100000000 {
            self.size = Vec2::new(BAR_COUNT as i64, size.y);
            self.need_to_draw = true;
        }
    }

    pub fn get_size(&self) -> (r: Vec2)
        ensures
            r == self@.size,
    {
        self.size
    }

    pub fn is_inside(&self, p: Vec2) -> (r: bool)
        ensures
            r == rect_contains(self@.position, self@.size, p),
    {
        is_in_rect(self.position, self.size, p)
    }

    pub fn get_min_size(&self) -> (r: Vec2)
        ensures
            r == spectrum_min_size(),
    {
        Vec2::new(20, 20)
    }

    pub fn get_max_size(&self) -> (r: Option<Vec2>)
        ensures
            r == Some(spectrum_max_size()),
    {
        Some(Vec2::new(512, 100000000))
    }

    /// Forces the next `draw` to emit the display.
    pub fn invalidate(&mut self)
        ensures
            final(self)@ == (SpectrumModel { need_to_draw: true, ..old(self)@ }),
    {
        self.need_to_draw = true;
    }

    pub fn set_element_name(&mut self, name: &String)
        ensures
            final(self)@ == (SpectrumModel { name: name@, ..old(self)@ }),
    {
        self.name = name.clone();
    }

    pub fn get_element_name(&self) -> (r: &String)
        ensures
            r@ == self@.name,
    {
        &self.name
    }
}

/// With `n` bins on each channel and room for both, bar `i` shows `left[i]`
/// and bar `BAR_COUNT - 1 - i` shows `right[i]`.
pub proof fn spectrum_mirrors(s: SpectrumModel, left: Seq<i64>, right: Seq<i64>, i: int)
    requires
        s.wf(),
        left.len() == right.len(),
        2 * left.len() <= BAR_COUNT,
        0 <= i < left.len(),
    ensures
        s.updated(left, right).bars[i] == bar_height(s.size.y as int, left[i] as int),
        s.updated(left, right).bars[BAR_COUNT - 1 - i] == bar_height(
            s.size.y as int,
            right[i] as int,
        ),
{
}

} // verus!
