use vstd::prelude::*;
use crate::geometry::{
    COORD_LIMIT,
    Color,
    Primitive,
    Shape,
    Vec2,
    floor_div,
    is_in_rect,
    lemma_shapes_empty,
    lemma_shapes_push,
    rect_contains,
    rgb,
    shapes,
    vec2,
};

verus! {

/// Height in pixels of the font used for labels.
pub const LABEL_CHAR_SIZE: i64 = 20;

/// A labelled push button, used as a tab header.
pub struct GraphicButton {
    position: Vec2,
    size: Vec2,
    label: String,
    label_width: i64,
    need_to_draw: bool,
    pushed: bool,
    has_mouse: bool,
    name: String,
}

/// The state of a `GraphicButton`.
pub struct ButtonModel {
    pub position: Vec2,
    pub size: Vec2,
    pub label: Seq<char>,
    /// Width of the rendered label, as the renderer measured it.
    pub label_width: int,
    pub need_to_draw: bool,
    pub pushed: bool,
    pub has_mouse: bool,
    pub name: Seq<char>,
}

impl ButtonModel {
    pub open spec fn wf(self) -> bool {
        self.position.in_range() && self.size.in_range() && 0 <= self.label_width <= COORD_LIMIT
    }

    /// How far the filled rectangle lies inside the bounds: one pixel, two under the cursor.
    pub open spec fn inset(self) -> int {
        if self.has_mouse {
            2
        } else {
            1
        }
    }

    pub open spec fn fill_position(self) -> Vec2 {
        vec2(self.position.x + self.inset(), self.position.y + self.inset())
    }

    pub open spec fn fill_size(self) -> Vec2 {
        vec2(self.size.x - 2 * self.inset(), self.size.y - 2 * self.inset())
    }

    /// The outline is as thick as the inset, so the outer bounds never move.
    pub open spec fn outline_thickness(self) -> int {
        self.inset()
    }

    pub open spec fn fill_color(self) -> Color {
        if self.pushed {
            rgb(205, 187, 100)
        } else {
            rgb(10, 10, 10)
        }
    }

    /// Where the label stands: centred across the button, and a little above its middle.
    pub open spec fn label_position(self) -> Vec2 {
        vec2(
            (self.size.x - 3 - self.label_width) / 2 + self.position.x + 1,
            self.position.y + 1 + (self.size.y - 2 - LABEL_CHAR_SIZE) / 2 - 2,
        )
    }

    pub open spec fn shapes(self) -> Seq<Shape> {
        seq![
            Shape::Rect {
                position: self.fill_position(),
                size: self.fill_size(),
                fill: self.fill_color(),
                outline: rgb(255, 255, 255),
                thickness: self.outline_thickness(),
                rotation: 0,
            },
            Shape::Text {
                position: self.label_position(),
                text: self.label,
                color: rgb(255, 255, 255),
                char_size: LABEL_CHAR_SIZE as int,
            },
        ]
    }

    /// The label set to `label`, `width` pixels wide; an unchanged label keeps everything.
    pub open spec fn labelled(self, label: Seq<char>, width: int) -> ButtonModel {
        if label == self.label {
            self
        } else {
            ButtonModel { label, label_width: width, need_to_draw: true, ..self }
        }
    }

    pub open spec fn with_pushed(self, pushed: bool) -> ButtonModel {
        if self.pushed == pushed {
            self
        } else {
            ButtonModel { pushed, need_to_draw: true, ..self }
        }
    }

    pub open spec fn hovered(self) -> ButtonModel {
        if self.has_mouse {
            self
        } else {
            ButtonModel { has_mouse: true, need_to_draw: true, ..self }
        }
    }

    pub open spec fn left(self) -> ButtonModel {
        if self.has_mouse {
            ButtonModel { has_mouse: false, need_to_draw: true, ..self }
        } else {
            self
        }
    }

    pub open spec fn moved(self, position: Vec2) -> ButtonModel {
        ButtonModel { position, need_to_draw: true, ..self }
    }

    pub open spec fn resized(self, size: Vec2) -> ButtonModel {
        if button_min_size().x <= size.x && button_min_size().y <= size.y
            && size.in_range() {
            ButtonModel { size, need_to_draw: true, ..self }
        } else {
            self
        }
    }

    /// What `draw` emits: everything when something changed, else nothing.
    pub open spec fn drawn(self) -> Seq<Shape> {
        if self.need_to_draw {
            self.shapes()
        } else {
            seq![]
        }
    }

    pub open spec fn cleared(self) -> ButtonModel {
        ButtonModel { need_to_draw: false, ..self }
    }
}

impl View for GraphicButton {
    type V = ButtonModel;

    closed spec fn view(&self) -> ButtonModel {
        ButtonModel {
            position: self.position,
            size: self.size,
            label: self.label@,
            label_width: self.label_width as int,
            need_to_draw: self.need_to_draw,
            pushed: self.pushed,
            has_mouse: self.has_mouse,
            name: self.name@,
        }
    }
}

/// Smallest size a button accepts: room for the widest outline on each side.
pub open spec fn button_min_size() -> Vec2 {
    vec2(4, 4)
}

impl GraphicButton {
    /// A released button with an empty label, to be drawn.
    pub fn new_init(size: Vec2, position: Vec2, color: Color) -> (r: GraphicButton)
        requires
            size.in_range(),
            position.in_range(),
        ensures
            r@ == (ButtonModel {
                position,
                size,
                label: seq![],
                label_width: 0,
                need_to_draw: true,
                pushed: false,
                has_mouse: false,
                name: seq![],
            }),
    {
        let r = GraphicButton {
            position,
            size,
            label: String::new(),
            label_width: 0,
            need_to_draw: true,
            pushed: false,
            has_mouse: false,
            name: String::new(),
        };
        r
    }

    /// Changes the label, whose rendered width is `label_width`; an unchanged
    /// label leaves the button as it is.
    pub fn set_label(&mut self, label: &String, label_width: i64)
        requires
            old(self)@.wf(),
            0 <= label_width <= COORD_LIMIT,
        ensures
            final(self)@ == old(self)@.labelled(label@, label_width as int),
    {
        if *label != self.label {
            self.label = label.clone();
            self.label_width = label_width;
            self.need_to_draw = true;
        }
    }

    pub fn is_pushed(&self) -> (r: bool)
        ensures
            r == self@.pushed,
    {
        self.pushed
    }

    pub fn set_pushed(&mut self, pushed: bool)
        ensures
            final(self)@ == old(self)@.with_pushed(pushed),
    {
        if self.pushed != pushed {
            self.pushed = pushed;
            self.need_to_draw = true;
        }
    }

    /// The cursor entered: the outline thickens inwards.
    pub fn cursor_moved(&mut self, position: Vec2)
        ensures
            final(self)@ == old(self)@.hovered(),
    {
        if !self.has_mouse {
            self.has_mouse = true;
            self.need_to_draw = true;
        }
    }

    /// The cursor left: the outline goes back to one pixel.
    pub fn mouse_leave(&mut self)
        ensures
            final(self)@ == old(self)@.left(),
    {
        if self.has_mouse {
            self.has_mouse = false;
            self.need_to_draw = true;
        }
    }

    /// A click toggles the button.
    pub fn clicked(&mut self, position: Vec2)
        ensures
            final(self)@ == old(self)@.with_pushed(!old(self)@.pushed),
    {
        let p = !self.pushed;
        self.set_pushed(p);
    }

    /// The primitives to draw when something changed since the last call, else none.
    pub fn draw(&mut self) -> (r: Vec<Primitive>)
        requires
            old(self)@.wf(),
        ensures
            final(self)@ == old(self)@.cleared(),
            shapes(r@) == old(self)@.drawn(),
    {
        let mut r: Vec<Primitive> = Vec::new();
        proof {
            lemma_shapes_empty();
        }
        if self.need_to_draw {
            let inset: i64 = if self.has_mouse {
                2
            } else {
                1
            };
            let fill = if self.pushed {
                Color::rgb(205, 187, 100)
            } else {
                Color::rgb(10, 10, 10)
            };
            let rect = Primitive::Rect {
                position: Vec2::new(self.position.x + inset, self.position.y + inset),
                size: Vec2::new(self.size.x - 2 * inset, self.size.y - 2 * inset),
                fill,
                outline: Color::rgb(255, 255, 255),
                thickness: inset,
                rotation: 0,
            };
            proof {
                lemma_shapes_push(r@, rect);
            }
            r.push(rect);
            let lx = floor_div(self.size.x - 3 - self.label_width, 2) + self.position.x + 1;
            let ly = self.position.y + 1 + floor_div(self.size.y - 2 - LABEL_CHAR_SIZE, 2) - 2;
            let text = Primitive::Text {
                position: Vec2::new(lx, ly),
                text: self.label.clone(),
                color: Color::rgb(255, 255, 255),
                char_size: LABEL_CHAR_SIZE,
            };
            proof {
                lemma_shapes_push(r@, text);
            }
            r.push(text);
            assert(shapes(r@) =~= old(self)@.shapes());
        }
        self.need_to_draw = false;
        r
    }

    /// Moves the button so that its bounds start at `position`.
    pub fn set_position(&mut self, position: Vec2)
        requires
            position.in_range(),
        ensures
            final(self)@ == old(self)@.moved(position),
    {
        self.position = position;
        self.need_to_draw = true;
    }

    pub fn get_position(&self) -> (r: Vec2)
        ensures
            r == self@.position,
    {
        self.position
    }

    /// Resizes the button; a size below the minimum or out of range is refused.
    pub fn set_size(&mut self, size: Vec2)
        ensures
            final(self)@ == old(self)@.resized(size),
    {
        if 4 <= size.x && 4 <= size.y && size.x <= COORD_LIMIT && size.y <= COORD_LIMIT {
            self.size = size;
            self.need_to_draw = true;
        }
    }

    pub fn get_size(&self) -> (r: Vec2)
        ensures
            r == self@.size,
    {
        self.size
    }

    pub fn get_min_size(&self) -> (r: Vec2)
        ensures
            r == button_min_size(),
    {
        Vec2::new(4, 4)
    }

    pub fn get_max_size(&self) -> (r: Option<Vec2>)
        ensures
            r is None,
    {
        None
    }

    /// Whether `p` lies within the button's bounds, edges included.
    pub fn is_inside(&self, p: Vec2) -> (r: bool)
        ensures
            r == rect_contains(self@.position, self@.size, p),
    {
        is_in_rect(self.position, self.size, p)
    }

    /// Forces the next `draw` to emit the widget.
    pub fn invalidate(&mut self)
        ensures
            final(self)@ == (ButtonModel { need_to_draw: true, ..old(self)@ }),
    {
        self.need_to_draw = true;
    }

    pub fn set_element_name(&mut self, name: &String)
        ensures
            final(self)@ == (ButtonModel { name: name@, ..old(self)@ }),
    {
        self.name = name.clone();
    }

    pub fn get_element_name(&self) -> (r: &String)
        ensures
            r@ == self@.name,
    {
        &self.name
    }
}

/// Setting the label a button already shows changes nothing: no new width,
/// no position, nothing to redraw.
pub proof fn same_label_changes_nothing(b: ButtonModel, width: int)
    ensures
        b.labelled(b.label, width) == b,
{
}

/// The button after `n` rounds of the cursor moving onto it and away again.
pub open spec fn hover_cycles(b: ButtonModel, n: nat) -> ButtonModel
    decreases n,
{
    if n == 0 {
        b
    } else {
        hover_cycles(b.hovered().left(), (n - 1) as nat)
    }
}

/// However many times the cursor moves onto an idle button and away again,
/// its outline, filled rectangle, position and size end as they were: no drift.
pub proof fn hover_cycles_do_not_drift(b: ButtonModel, n: nat)
    requires
        !b.has_mouse,
        n >= 1,
    ensures
        hover_cycles(b, n) == (ButtonModel { need_to_draw: true, ..b }),
        hover_cycles(b, n).outline_thickness() == b.outline_thickness(),
        hover_cycles(b, n).fill_position() == b.fill_position(),
        hover_cycles(b, n).fill_size() == b.fill_size(),
    decreases n,
{
    let once = b.hovered().left();
    assert(once == (ButtonModel { need_to_draw: true, ..b }));
    assert(hover_cycles(b, n) == hover_cycles(once, (n - 1) as nat));
    if n == 1 {
        assert(hover_cycles(once, 0) == once);
    } else {
        hover_cycles_do_not_drift(once, (n - 1) as nat);
        assert((ButtonModel { need_to_draw: true, ..once }) == once);
    }
}

} // verus!
