use vstd::prelude::*;
use vstd::string::StringExecFns;
use crate::geometry::{
    COORD_LIMIT,
    Color,
    Primitive,
    Shape,
    Vec2,
    floor_div,
    is_in_rect,
    lemma_shapes_empty,
    lemma_shapes_push,
    rect_contains,
    rgb,
    shapes,
    vec2,
};
use crate::text::{push_two_digits, two_digits};

verus! {

/// Height in pixels of the font used for the time.
pub const TIMER_CHAR_SIZE: i64 = 20;

/// `ms` milliseconds as minutes and seconds, `MM:SS`.
pub open spec fn clock_text(ms: nat) -> Seq<char> {
    two_digits(ms / 1000 / 60) + seq![':'] + two_digits(ms / 1000 % 60)
}

/// The position and the length of a track, `MM:SS / MM:SS`.
pub open spec fn time_text(position: nat, length: nat) -> Seq<char> {
    clock_text(position) + seq![' ', '/', ' '] + clock_text(length)
}

fn push_clock(s: &mut String, ms: u64)
    ensures
        final(s)@ == old(s)@ + clock_text(ms as nat),
{
    push_two_digits(s, ms / 1000 / 60);
    proof {
        reveal_strlit(":");
    }
    s.append(":");
    push_two_digits(s, ms / 1000 % 60);
    assert(final(s)@ =~= old(s)@ + clock_text(ms as nat));
}

/// Formats a playback position and a track length, both in milliseconds.
pub fn format_time(position: u64, length: u64) -> (r: String)
    ensures
        r@ == time_text(position as nat, length as nat),
{
    let mut s = String::new();
    push_clock(&mut s, position);
    proof {
        reveal_strlit(" / ");
    }
    s.append(" / ");
    push_clock(&mut s, length);
    assert(s@ =~= time_text(position as nat, length as nat));
    s
}

/// A framed line of text showing how far the current track has played.
pub struct GraphicTimer {
    position: Vec2,
    size: Vec2,
    text: String,
    text_width: i64,
    need_to_draw: bool,
    name: String,
}

/// The state of a `GraphicTimer`.
pub struct TimerModel {
    pub position: Vec2,
    pub size: Vec2,
    pub text: Seq<char>,
    /// Width of the rendered text, as the renderer measured it.
    pub text_width: int,
    pub need_to_draw: bool,
    pub name: Seq<char>,
}

impl TimerModel {
    pub open spec fn wf(self) -> bool {
        self.position.in_range() && self.size.in_range() && 0 <= self.text_width <= COORD_LIMIT
    }

    /// Where the text stands: centred across the frame, a little above its middle.
    pub open spec fn text_position(self) -> Vec2 {
        vec2(
            (self.size.x - 3 - self.text_width) / 2 + self.position.x + 1,
            (self.size.y - 2 - TIMER_CHAR_SIZE) / 2 + self.position.y + 1 - 2,
        )
    }

    pub open spec fn shapes(self) -> Seq<Shape> {
        seq![
            Shape::Rect {
                position: vec2(self.position.x + 1, self.position.y + 1),
                size: vec2(self.size.x - 2, self.size.y - 2),
                fill: rgb(0, 0, 0),
                outline: rgb(255, 255, 255),
                thickness: 1,
                rotation: 0,
            },
            Shape::Text {
                position: self.text_position(),
                text: self.text,
                color: rgb(255, 255, 255),
                char_size: TIMER_CHAR_SIZE as int,
            },
        ]
    }

    pub open spec fn moved(self, position: Vec2) -> TimerModel {
        TimerModel { position, need_to_draw: true, ..self }
    }

    pub open spec fn resized(self, size: Vec2) -> TimerModel {
        if timer_min_size().x <= size.x <= timer_max_size().x
            && timer_min_size().y <= size.y <= timer_max_size().y {
            TimerModel { size, need_to_draw: true, ..self }
        } else {
            self
        }
    }

    /// What `draw` emits: everything when something changed, else nothing.
    pub open spec fn drawn(self) -> Seq<Shape> {
        if self.need_to_draw {
            self.shapes()
        } else {
            seq![]
        }
    }

    pub open spec fn cleared(self) -> TimerModel {
        TimerModel { need_to_draw: false, ..self }
    }
}

impl View for GraphicTimer {
    type V = TimerModel;

    closed spec fn view(&self) -> TimerModel {
        TimerModel {
            position: self.position,
            size: self.size,
            text: self.text@,
            text_width: self.text_width as int,
            need_to_draw: self.need_to_draw,
            name: self.name@,
        }
    }
}

pub open spec fn timer_min_size() -> Vec2 {
    vec2(100, 40)
}

pub open spec fn timer_max_size() -> Vec2 {
    vec2(200, 40)
}

impl GraphicTimer {
    /// A timer with no text yet, to be drawn.
    pub fn new_init(size: Vec2, position: Vec2, color: Color) -> (r: GraphicTimer)
        requires
            size.in_range(),
            position.in_range(),
        ensures
            r@ == (TimerModel {
                position,
                size,
                text: seq![],
                text_width: 0,
                need_to_draw: true,
                name: seq![],
            }),
    {
        GraphicTimer {
            position,
            size,
            text: String::new(),
            text_width: 0,
            need_to_draw: true,
            name: String::new(),
        }
    }

    /// Shows `position` and `length` (milliseconds) as `MM:SS / MM:SS`. Returns
    /// whether the text changed, in which case its width is to be measured and
    /// handed to `set_text_width`; the same text leaves the timer as it is.
    pub fn update_display(&mut self, position: u64, length: u64) -> (changed: bool)
        ensures
            changed == (time_text(position as nat, length as nat) != old(self)@.text),
            final(self)@ == (if changed {
                TimerModel {
                    text: time_text(position as nat, length as nat),
                    need_to_draw: true,
                    ..old(self)@
                }
            } else {
                old(self)@
            }),
    {
        let st = format_time(position, length);
        if st != self.text {
            self.text = st;
            self.need_to_draw = true;
            true
        } else {
            false
        }
    }

    /// Records the rendered width of the text, which centres it.
    pub fn set_text_width(&mut self, width: i64)
        requires
            0 <= width <= COORD_LIMIT,
        ensures
            final(self)@ == (if width as int == old(self)@.text_width {
                old(self)@
            } else {
                TimerModel { text_width: width as int, need_to_draw: true, ..old(self)@ }
            }),
    {
        if width != self.text_width {
            self.text_width = width;
            self.need_to_draw = true;
        }
    }

    pub fn get_text(&self) -> (r: &String)
        ensures
            r@ == self@.text,
    {
        &self.text
    }

    pub fn draw(&mut self) -> (r: Vec<Primitive>)
        requires
            old(self)@.wf(),
        ensures
            final(self)@ == old(self)@.cleared(),
            shapes(r@) == old(self)@.drawn(),
    {
        let mut r: Vec<Primitive> = Vec::new();
        proof {
            lemma_shapes_empty();
        }
        if self.need_to_draw {
            let frame = Primitive::Rect {
                position: Vec2::new(self.position.x + 1, self.position.y + 1),
                size: Vec2::new(self.size.x - 2, self.size.y - 2),
                fill: Color::rgb(0, 0, 0),
                outline: Color::rgb(255, 255, 255),
                thickness: 1,
                rotation: 0,
            };
            proof {
                lemma_shapes_push(r@, frame);
            }
            r.push(frame);
            let tx = floor_div(self.size.x - 3 - self.text_width, 2) + self.position.x + 1;
            let ty = floor_div(self.size.y - 2 - TIMER_CHAR_SIZE, 2) + self.position.y + 1 - 2;
            let text = Primitive::Text {
                position: Vec2::new(tx, ty),
                text: self.text.clone(),
                color: Color::rgb(255, 255, 255),
                char_size: TIMER_CHAR_SIZE,
            };
            proof {
                lemma_shapes_push(r@, text);
            }
            r.push(text);
            assert(shapes(r@) =~= old(self)@.shapes());
        }
        self.need_to_draw = false;
        r
    }

    pub fn set_position(&mut self, position: Vec2)
        requires
            position.in_range(),
        ensures
            final(self)@ == old(self)@.moved(position),
    {
        self.position = position;
        self.need_to_draw = true;
    }

    pub fn get_position(&self) -> (r: Vec2)
        ensures
            r == self@.position,
    {
        self.position
    }

    /// Resizes the timer; a size outside its minimum and maximum is refused.
    pub fn set_size(&mut self, size: Vec2)
        ensures
            final(self)@ == old(self)@.resized(size),
    {
        if 100 <= size.x && size.x <= 200 && 40 <= size.y && size.y <= 40 {
            self.size = size;
            self.need_to_draw = true;
        }
    }

    pub fn get_size(&self) -> (r: Vec2)
        ensures
            r == self@.size,
    {
        self.size
    }

    pub fn get_min_size(&self) -> (r: Vec2)
        ensures
            r == timer_min_size(),
    {
        Vec2::new(100, 40)
    }

    pub fn get_max_size(&self) -> (r: Option<Vec2>)
        ensures
            r == Some(timer_max_size()),
    {
        Some(Vec2::new(200, 40))
    }

    pub fn is_inside(&self, p: Vec2) -> (r: bool)
        ensures
            r == rect_contains(self@.position, self@.size, p),
    {
        is_in_rect(self.position, self.size, p)
    }

    /// Forces the next `draw` to emit the widget.
    pub fn invalidate(&mut self)
        ensures
            final(self)@ == (TimerModel { need_to_draw: true, ..old(self)@ }),
    {
        self.need_to_draw = true;
    }

    pub fn set_element_name(&mut self, name: &String)
        ensures
            final(self)@ == (TimerModel { name: name@, ..old(self)@ }),
    {
        self.name = name.clone();
    }

    pub fn get_element_name(&self) -> (r: &String)
        ensures
            r@ == self@.name,
    {
        &self.name
    }
}

} // verus!
