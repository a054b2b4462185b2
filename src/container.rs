use vstd::prelude::*;
use crate::button::{ButtonModel, GraphicButton};
use crate::element::{ElementModel, GraphicElement};
use crate::geometry::{
    COORD_LIMIT,
    lemma_shapes_append,
    lemma_shapes_empty,
    Color,
    Primitive,
    Shape,
    Vec2,
    is_in_rect,
    rect_contains,
    rect_in_range,
    shapes,
    vec2,
};

verus! {

/// Height of the strip of tab buttons, in pixels.
pub const TAB_BAR_HEIGHT: i64 = 25;

/// The models of a list of buttons.
pub open spec fn button_views(v: Seq<GraphicButton>) -> Seq<ButtonModel> {
    v.map_values(|b: GraphicButton| b@)
}

/// The models of a list of widgets.
pub open spec fn element_views(v: Seq<GraphicElement>) -> Seq<ElementModel> {
    v.map_values(|e: GraphicElement| e@)
}

/// The first of `buttons` from index `i` on whose bounds hold `p`.
pub open spec fn first_hit(buttons: Seq<ButtonModel>, p: Vec2, i: int) -> Option<nat>
    decreases buttons.len() - i,
{
    if i < 0 || i >= buttons.len() {
        None
    } else if rect_contains(buttons[i].position, buttons[i].size, p) {
        Some(i as nat)
    } else {
        first_hit(buttons, p, i + 1)
    }
}

/// What the buttons emit when drawn one after the other.
pub open spec fn buttons_drawn(buttons: Seq<ButtonModel>) -> Seq<Shape>
    decreases buttons.len(),
{
    if buttons.len() == 0 {
        seq![]
    } else {
        buttons_drawn(buttons.drop_last()) + buttons.last().drawn()
    }
}

/// A set of tabs: a strip of buttons on top and, below it, the content of the
/// tab whose button is pushed.
pub struct GraphicContainer {
    buttons: Vec<GraphicButton>,
    widgets: Vec<GraphicElement>,
    position: Vec2,
    size: Vec2,
    current_tab: usize,
    name: String,
}

/// The state of a `GraphicContainer`.
pub struct ContainerModel {
    pub buttons: Seq<ButtonModel>,
    pub widgets: Seq<ElementModel>,
    pub position: Vec2,
    pub size: Vec2,
    pub current_tab: nat,
    pub name: Seq<char>,
}

pub open spec fn container_min_size() -> Vec2 {
    vec2(40, TAB_BAR_HEIGHT + 1)
}

impl ContainerModel {
    pub open spec fn wf(self) -> bool {
        &&& rect_in_range(self.position, self.size)
        &&& container_min_size().x <= self.size.x
        &&& container_min_size().y <= self.size.y
        &&& self.buttons.len() == self.widgets.len()
        &&& self.buttons.len() < COORD_LIMIT
        &&& (if self.buttons.len() == 0 {
            self.current_tab == 0
        } else {
            self.current_tab < self.buttons.len()
        })
        &&& forall|i: int| 0 <= i < self.buttons.len() ==> (#[trigger] self.buttons[i]).wf()
        &&& forall|i: int| 0 <= i < self.widgets.len() ==> (#[trigger] self.widgets[i]).wf()
        &&& forall|i: int|
            0 <= i < self.buttons.len() ==> (#[trigger] self.buttons[i]).pushed == (i
                == self.current_tab)
    }

    /// The width of each tab button when there are `n` of them.
    pub open spec fn button_width(self, n: nat) -> int {
        (self.size.x as int) / (n as int)
    }

    /// Where the content of every tab stands.
    pub open spec fn content_position(self) -> Vec2 {
        vec2(self.position.x as int, self.position.y + TAB_BAR_HEIGHT)
    }

    pub open spec fn content_size(self) -> Vec2 {
        vec2(self.size.x as int, self.size.y - TAB_BAR_HEIGHT)
    }

    /// Button `i` laid out among `n` buttons of equal width.
    pub open spec fn laid_out(self, b: ButtonModel, i: int, n: nat) -> ButtonModel {
        b.moved(vec2(self.position.x + i * self.button_width(n), self.position.y as int)).resized(
            vec2(self.button_width(n), TAB_BAR_HEIGHT as int),
        )
    }

    /// The size after making room for a widget of size `s`.
    pub open spec fn grown_size(self, s: Vec2) -> Vec2 {
        vec2(
            if s.x > self.size.x {
                s.x as int
            } else {
                self.size.x as int
            },
            if s.y > self.size.y - TAB_BAR_HEIGHT {
                s.y + TAB_BAR_HEIGHT
            } else {
                self.size.y as int
            },
        )
    }

    /// Adds a tab labelled `label` (`width` pixels wide when rendered) showing
    /// `w`. Where `w` is larger than the content area the container grows to
    /// fit it and every tab's content takes the new size; the buttons share
    /// the width equally. The first tab added is the current one.
    pub open spec fn with_tab(self, label: Seq<char>, width: int, w: ElementModel) -> ContainerModel {
        let grown = ContainerModel { size: self.grown_size(w.size()), ..self };
        let grew = grown.size != self.size;
        let n = self.buttons.len() + 1;
        let bw = grown.button_width(n);
        let first = ButtonModel {
            position: vec2(self.position.x + (n - 1) * bw, self.position.y as int),
            size: vec2(bw, TAB_BAR_HEIGHT as int),
            label: seq![],
            label_width: 0,
            need_to_draw: true,
            pushed: false,
            has_mouse: false,
            name: seq![],
        }.labelled(label, width);
        let added = if n == 1 {
            first.with_pushed(true)
        } else {
            first
        };
        let content = if grew {
            w.resized(grown.content_size())
        } else {
            w
        }.moved(grown.content_position());
        ContainerModel {
            buttons: Seq::new(self.buttons.len(), |i: int| grown.laid_out(self.buttons[i], i, n)).push(
                added,
            ),
            widgets: if grew {
                Seq::new(
                    self.widgets.len(),
                    |i: int| self.widgets[i].resized(grown.content_size()),
                ).push(content)
            } else {
                self.widgets.push(content)
            },
            ..grown
        }
    }

    /// The cursor moved to `p`: buttons under it are hovered, the others left;
    /// so is the current content.
    pub open spec fn hovered(self, p: Vec2) -> ContainerModel {
        ContainerModel {
            buttons: Seq::new(
                self.buttons.len(),
                |i: int|
                    if rect_contains(self.buttons[i].position, self.buttons[i].size, p) {
                        self.buttons[i].hovered()
                    } else {
                        self.buttons[i].left()
                    },
            ),
            widgets: if self.widgets.len() > 0 {
                let w = self.widgets[self.current_tab as int];
                self.widgets.update(
                    self.current_tab as int,
                    if rect_contains(w.position(), w.size(), p) {
                        w.hovered(p)
                    } else {
                        w.left()
                    },
                )
            } else {
                self.widgets
            },
            ..self
        }
    }

    /// The cursor left the container: every button and the current content are left.
    pub open spec fn left(self) -> ContainerModel {
        ContainerModel {
            buttons: Seq::new(self.buttons.len(), |i: int| self.buttons[i].left()),
            widgets: if self.widgets.len() > 0 {
                self.widgets.update(
                    self.current_tab as int,
                    self.widgets[self.current_tab as int].left(),
                )
            } else {
                self.widgets
            },
            ..self
        }
    }

    /// What `draw` emits: every tab button, then the current content.
    pub open spec fn drawn(self) -> Seq<Shape> {
        buttons_drawn(self.buttons) + if self.widgets.len() > 0 {
            self.widgets[self.current_tab as int].drawn()
        } else {
            seq![]
        }
    }

    pub open spec fn cleared(self) -> ContainerModel {
        ContainerModel {
            buttons: Seq::new(self.buttons.len(), |i: int| self.buttons[i].cleared()),
            widgets: if self.widgets.len() > 0 {
                self.widgets.update(
                    self.current_tab as int,
                    self.widgets[self.current_tab as int].cleared(),
                )
            } else {
                self.widgets
            },
            ..self
        }
    }

    /// Resized to `s`, when at least the minimum: the buttons share the new
    /// width and every content takes the area below them.
    pub open spec fn resized(self, s: Vec2) -> ContainerModel {
        if container_min_size().x <= s.x && container_min_size().y <= s.y && rect_in_range(
            self.position,
            s,
        ) {
            let m = ContainerModel { size: s, ..self };
            ContainerModel {
                buttons: Seq::new(
                    self.buttons.len(),
                    |i: int| m.laid_out(self.buttons[i], i, self.buttons.len()),
                ),
                widgets: Seq::new(
                    self.widgets.len(),
                    |i: int| self.widgets[i].resized(m.content_size()),
                ),
                ..m
            }
        } else {
            self
        }
    }

    /// Moved to `p`, with the buttons and every content.
    pub open spec fn moved(self, p: Vec2) -> ContainerModel {
        let m = ContainerModel { position: p, ..self };
        ContainerModel {
            buttons: Seq::new(
                self.buttons.len(),
                |i: int| m.laid_out(self.buttons[i], i, self.buttons.len()),
            ),
            widgets: Seq::new(
                self.widgets.len(),
                |i: int| self.widgets[i].moved(m.content_position()),
            ),
            ..m
        }
    }

    /// Switches to tab `i`: its button is pushed, the previous one released,
    /// and its content is to be drawn.
    pub open spec fn switched(self, i: nat) -> ContainerModel {
        let released = self.buttons.update(
            self.current_tab as int,
            self.buttons[self.current_tab as int].with_pushed(false),
        );
        ContainerModel {
            buttons: released.update(i as int, released[i as int].with_pushed(true)),
            widgets: self.widgets.update(i as int, self.widgets[i as int].invalidated()),
            current_tab: i,
            ..self
        }
    }

    /// A click on the tab strip switches to the tab under it (a click on the
    /// current tab does nothing); below the strip it goes to the current content.
    pub open spec fn clicked(self, p: Vec2) -> ContainerModel {
        if p.y <= self.position.y + TAB_BAR_HEIGHT {
            match first_hit(self.buttons, p, 0) {
                Some(i) => if self.buttons[i as int].pushed {
                    self
                } else {
                    self.switched(i)
                },
                None => self,
            }
        } else if self.widgets.len() > 0 {
            ContainerModel {
                widgets: self.widgets.update(
                    self.current_tab as int,
                    self.widgets[self.current_tab as int].clicked(p),
                ),
                ..self
            }
        } else {
            self
        }
    }
}

impl View for GraphicContainer {
    type V = ContainerModel;

    closed spec fn view(&self) -> ContainerModel {
        ContainerModel {
            buttons: button_views(self.buttons@),
            widgets: element_views(self.widgets@),
            position: self.position,
            size: self.size,
            current_tab: self.current_tab as nat,
            name: self.name@,
        }
    }
}

proof fn lemma_button_views_update(v: Seq<GraphicButton>, i: int, b: GraphicButton)
    requires
        0 <= i < v.len(),
    ensures
        v.remove(i).insert(i, b) == v.update(i, b),
        button_views(v.update(i, b)) == button_views(v).update(i, b@),
{
    assert(v.remove(i).insert(i, b) =~= v.update(i, b));
    assert(button_views(v.update(i, b)) =~= button_views(v).update(i, b@));
}

proof fn lemma_element_views_update(v: Seq<GraphicElement>, i: int, e: GraphicElement)
    requires
        0 <= i < v.len(),
    ensures
        v.remove(i).insert(i, e) == v.update(i, e),
        element_views(v.update(i, e)) == element_views(v).update(i, e@),
{
    assert(v.remove(i).insert(i, e) =~= v.update(i, e));
    assert(element_views(v.update(i, e)) =~= element_views(v).update(i, e@));
}

proof fn lemma_share_within(i: int, s: int, n: int)
    requires
        0 <= i < n,
        0 <= s,
    ensures
        0 <= s / n,
        0 <= i * (s / n) <= s,
        (s / n) <= s,
{
    vstd::arithmetic::div_mod::lemma_fundamental_div_mod(s, n);
    vstd::arithmetic::div_mod::lemma_div_pos_is_pos(s, n);
    let q = s / n;
    let r = s % n;
    assert(0 <= r);
    assert(0 <= i * q <= s && q <= s) by (nonlinear_arith)
        requires
            s == n * q + r,
            0 <= r,
            0 <= q,
            0 <= i < n,
    ;
}

impl GraphicContainer {
    /// A container with no tab.
    pub fn new_init(size: Vec2, position: Vec2, color: Color) -> (r: GraphicContainer)
        requires
            rect_in_range(position, size),
            container_min_size().x <= size.x,
            container_min_size().y <= size.y,
        ensures
            r@.wf(),
            r@ == (ContainerModel {
                buttons: seq![],
                widgets: seq![],
                position,
                size,
                current_tab: 0,
                name: seq![],
            }),
    {
        let r = GraphicContainer {
            buttons: Vec::new(),
            widgets: Vec::new(),
            position,
            size,
            current_tab: 0,
            name: String::new(),
        };
        assert(r@.buttons =~= seq![]);
        assert(r@.widgets =~= seq![]);
        r
    }

    pub fn get_current_tab(&self) -> (r: usize)
        ensures
            r == self@.current_tab,
    {
        self.current_tab
    }

    pub fn get_nb_tabs(&self) -> (r: usize)
        requires
            self@.wf(),
        ensures
            r == self@.buttons.len(),
    {
        self.buttons.len()
    }

    /// The button of tab `i`.
    pub fn get_button(&self, i: usize) -> (r: &GraphicButton)
        requires
            i < self@.buttons.len(),
        ensures
            r@ == self@.buttons[i as int],
    {
        &self.buttons[i]
    }

    /// The content of tab `i`.
    pub fn get_widget(&self, i: usize) -> (r: &GraphicElement)
        requires
            self@.wf(),
            i < self@.widgets.len(),
        ensures
            r@ == self@.widgets[i as int],
    {
        &self.widgets[i]
    }

    /// Resizes the content of every tab to `content`.
    fn resize_contents(&mut self, content: Vec2)
        requires
            forall|j: int|
                0 <= j < old(self)@.widgets.len() ==> (#[trigger] old(self)@.widgets[j]).wf(),
        ensures
            final(self)@ == (ContainerModel {
                widgets: Seq::new(
                    old(self)@.widgets.len(),
                    |j: int| old(self)@.widgets[j].resized(content),
                ),
                ..old(self)@
            }),
            forall|j: int|
                0 <= j < final(self)@.widgets.len() ==> (#[trigger] final(self)@.widgets[j]).wf(),
    {
        let ghost start = self@;
        let mut i: usize = 0;
        while i < self.widgets.len()
            invariant
                self@ == (ContainerModel { widgets: self@.widgets, ..start }),
                self@.widgets.len() == start.widgets.len(),
                i <= self@.widgets.len(),
                forall|j: int| 0 <= j < self@.widgets.len() ==> (#[trigger] self@.widgets[j]).wf(),
                forall|j: int|
                    0 <= j < i ==> #[trigger] self@.widgets[j] == start.widgets[j].resized(content),
                forall|j: int| i <= j < self@.widgets.len() ==> #[trigger] self@.widgets[j]
                    == start.widgets[j],
            decreases self@.widgets.len() - i,
        {
            let ghost before = self.widgets@;
            assert(element_views(before)[i as int] == before[i as int]@);
            let mut e = self.widgets.remove(i);
            assert(e@ == start.widgets[i as int]);
            e.set_size(content);
            proof {
                lemma_element_views_update(before, i as int, e);
            }
            self.widgets.insert(i, e);
            i += 1;
        }
        assert(self@.widgets =~= Seq::new(
            start.widgets.len(),
            |j: int| start.widgets[j].resized(content),
        ));
    }

    /// Lays the buttons out side by side as if there were `n` of them.
    fn lay_out_buttons(&mut self, n: usize)
        requires
            rect_in_range(old(self)@.position, old(self)@.size),
            0 < n < COORD_LIMIT,
            old(self)@.buttons.len() <= n,
            forall|j: int|
                0 <= j < old(self)@.buttons.len() ==> (#[trigger] old(self)@.buttons[j]).wf(),
        ensures
            final(self)@ == (ContainerModel {
                buttons: Seq::new(
                    old(self)@.buttons.len(),
                    |j: int| old(self)@.laid_out(old(self)@.buttons[j], j, n as nat),
                ),
                ..old(self)@
            }),
            forall|j: int|
                0 <= j < final(self)@.buttons.len() ==> (#[trigger] final(self)@.buttons[j]).wf(),
    {
        let ghost start = self@;
        proof {
            lemma_share_within(0, self.size.x as int, n as int);
        }
        let bw: i64 = self.size.x / (n as i64);
        let mut i: usize = 0;
        while i < self.buttons.len()
            invariant
                self@ == (ContainerModel { buttons: self@.buttons, ..start }),
                rect_in_range(start.position, start.size),
                bw == start.button_width(n as nat),
                self@.buttons.len() == start.buttons.len(),
                0 < n < COORD_LIMIT,
                start.buttons.len() <= n,
                i <= self@.buttons.len(),
                forall|j: int| 0 <= j < self@.buttons.len() ==> (#[trigger] self@.buttons[j]).wf(),
                forall|j: int|
                    0 <= j < i ==> #[trigger] self@.buttons[j] == start.laid_out(
                        start.buttons[j],
                        j,
                        n as nat,
                    ),
                forall|j: int| i <= j < self@.buttons.len() ==> #[trigger] self@.buttons[j]
                    == start.buttons[j],
            decreases self@.buttons.len() - i,
        {
            proof {
                lemma_share_within(i as int, start.size.x as int, n as int);
            }
            let x = self.position.x + (i as i64) * bw;
            let ghost before = self.buttons@;
            assert(button_views(before)[i as int] == before[i as int]@);
            let mut b = self.buttons.remove(i);
            assert(b@ == start.buttons[i as int]);
            b.set_position(Vec2::new(x, self.position.y));
            b.set_size(Vec2::new(bw, TAB_BAR_HEIGHT));
            proof {
                lemma_button_views_update(before, i as int, b);
            }
            self.buttons.insert(i, b);
            i += 1;
        }
        assert(self@.buttons =~= Seq::new(
            start.buttons.len(),
            |j: int| start.laid_out(start.buttons[j], j, n as nat),
        ));
    }

    /// Adds a tab labelled `label`, whose rendered width is `label_width`, showing `widget`.
    pub fn add_tab(&mut self, label: &String, label_width: i64, widget: GraphicElement)
        requires
            old(self)@.wf(),
            widget@.wf(),
            0 <= label_width <= COORD_LIMIT,
            old(self)@.buttons.len() + 1 < COORD_LIMIT,
            rect_in_range(old(self)@.position, old(self)@.grown_size(widget@.size())),
        ensures
            final(self)@.wf(),
            final(self)@ == old(self)@.with_tab(label@, label_width as int, widget@),
    {
        let ghost start = self@;
        let ghost w0 = widget@;
        let n: usize = self.buttons.len() + 1;
        let ws = widget.get_size();
        let mut new_size = self.size;
        if ws.x > self.size.x {
            new_size = Vec2::new(ws.x, new_size.y);
        }
        if ws.y > self.size.y - TAB_BAR_HEIGHT {
            new_size = Vec2::new(new_size.x, ws.y + TAB_BAR_HEIGHT);
        }
        let grew = new_size != self.size;
        self.size = new_size;
        let ghost grown = self@;
        assert(new_size == start.grown_size(widget@.size()));
        let content = Vec2::new(self.size.x, self.size.y - TAB_BAR_HEIGHT);
        let cpos = Vec2::new(self.position.x, self.position.y + TAB_BAR_HEIGHT);
        assert(content == grown.content_size());
        assert(cpos == grown.content_position());
        let mut widget = widget;
        if grew {
            self.resize_contents(content);
            widget.set_size(content);
        }
        widget.set_position(cpos);
        self.lay_out_buttons(n);
        let ghost laid = self@.buttons;
        assert(forall|j: int| 0 <= j < laid.len() ==> (#[trigger] laid[j]).wf());
        proof {
            lemma_share_within((n - 1) as int, new_size.x as int, n as int);
        }
        let bw: i64 = self.size.x / (n as i64);
        let mut nb = GraphicButton::new_init(
            Vec2::new(bw, TAB_BAR_HEIGHT),
            Vec2::new(self.position.x + ((n - 1) as i64) * bw, self.position.y),
            Color::rgb(10, 10, 10),
        );
        nb.set_label(label, label_width);
        if n == 1 {
            nb.set_pushed(true);
        }
        assert(nb@.wf());
        let ghost bs = self.buttons@;
        let ghost es = self.widgets@;
        self.buttons.push(nb);
        self.widgets.push(widget);
        proof {
            assert(button_views(bs.push(nb)) =~= button_views(bs).push(nb@));
            assert(element_views(es.push(widget)) =~= element_views(es).push(widget@));
            let goal = start.with_tab(label@, label_width as int, w0);
            assert(grown == (ContainerModel { size: start.grown_size(w0.size()), ..start }));
            assert(self@.buttons =~= goal.buttons);
            assert(self@.widgets =~= goal.widgets);
            assert(self@.size == goal.size);
            let m = self@;
            assert(m.buttons == button_views(bs).push(nb@));
            assert(m.buttons.last() == nb@);
            assert(rect_in_range(m.position, m.size));
            assert(m.size.y >= TAB_BAR_HEIGHT);
            assert(m.buttons.len() == m.widgets.len());
            assert(m.current_tab < m.buttons.len());
            assert forall|i: int| 0 <= i < m.buttons.len() implies (#[trigger] m.buttons[i]).wf() by {
                if i < m.buttons.len() - 1 {
                    assert(button_views(bs) == laid);
                    assert(m.buttons[i] == laid[i]);
                }
            }
            assert(forall|i: int| 0 <= i < m.widgets.len() ==> (#[trigger] m.widgets[i]).wf());
            assert(forall|i: int|
                0 <= i < m.buttons.len() ==> (#[trigger] m.buttons[i]).pushed == (i
                    == m.current_tab));
        }
    }

    fn switch_to(&mut self, i: usize)
        requires
            old(self)@.wf(),
            i < old(self)@.buttons.len(),
        ensures
            final(self)@.wf(),
            final(self)@ == old(self)@.switched(i as nat),
    {
        let ghost start = self@;
        let cur = self.current_tab;
        let ghost b0 = self.buttons@;
        let mut b = self.buttons.remove(cur);
        assert(button_views(b0)[cur as int] == b0[cur as int]@);
        b.set_pushed(false);
        proof {
            lemma_button_views_update(b0, cur as int, b);
        }
        self.buttons.insert(cur, b);
        let ghost b1 = self.buttons@;
        let mut c = self.buttons.remove(i);
        assert(button_views(b1)[i as int] == b1[i as int]@);
        c.set_pushed(true);
        proof {
            lemma_button_views_update(b1, i as int, c);
        }
        self.buttons.insert(i, c);
        let ghost w0 = self.widgets@;
        let mut w = self.widgets.remove(i);
        assert(element_views(w0)[i as int] == w0[i as int]@);
        w.invalidate();
        proof {
            lemma_element_views_update(w0, i as int, w);
        }
        self.widgets.insert(i, w);
        self.current_tab = i;
        proof {
            let goal = start.switched(i as nat);
            assert(self@.buttons =~= goal.buttons);
            assert(self@.widgets =~= goal.widgets);
        }
    }

    /// A click on the tab strip switches tabs; below it, it goes to the current content.
    pub fn clicked(&mut self, position: Vec2)
        requires
            old(self)@.wf(),
        ensures
            final(self)@.wf(),
            final(self)@ == old(self)@.clicked(position),
    {
        let ghost start = self@;
        if position.y <= self.position.y + TAB_BAR_HEIGHT {
            let mut i: usize = 0;
            while i < self.buttons.len()
                invariant
                    self@ == start,
                    start == old(self)@,
                    start.wf(),
                    position.y <= start.position.y + TAB_BAR_HEIGHT,
                    i <= start.buttons.len(),
                    first_hit(start.buttons, position, 0) == first_hit(
                        start.buttons,
                        position,
                        i as int,
                    ),
                decreases start.buttons.len() - i,
            {
                if self.buttons[i].is_inside(position) {
                    assert(first_hit(start.buttons, position, i as int) == Some(i as nat));
                    assert(position.y <= start.position.y + TAB_BAR_HEIGHT);
                    if self.buttons[i].is_pushed() {
                        assert(start.clicked(position) == start);
                        return;
                    }
                    assert(start.clicked(position) == start.switched(i as nat));
                    self.switch_to(i);
                    return;
                }
                assert(first_hit(start.buttons, position, i as int) == first_hit(
                    start.buttons,
                    position,
                    i + 1,
                ));
                i += 1;
            }
        } else if self.widgets.len() > 0 {
            let cur = self.current_tab;
            let ghost w0 = self.widgets@;
            let mut w = self.widgets.remove(cur);
            assert(element_views(w0)[cur as int] == w0[cur as int]@);
            w.clicked(position);
            proof {
                lemma_element_views_update(w0, cur as int, w);
            }
            self.widgets.insert(cur, w);
            assert(self@.widgets =~= start.clicked(position).widgets);
        }
    }

    /// Hovers what lies under the cursor and leaves the rest.
    pub fn cursor_moved(&mut self, position: Vec2)
        requires
            old(self)@.wf(),
        ensures
            final(self)@.wf(),
            final(self)@ == old(self)@.hovered(position),
    {
        let ghost start = self@;
        let mut i: usize = 0;
        while i < self.buttons.len()
            invariant
                self@ == (ContainerModel { buttons: self@.buttons, ..start }),
                start.wf(),
                self@.buttons.len() == start.buttons.len(),
                i <= self@.buttons.len(),
                forall|j: int| 0 <= j < self@.buttons.len() ==> (#[trigger] self@.buttons[j]).wf(),
                forall|j: int|
                    0 <= j < self@.buttons.len() ==> (#[trigger] self@.buttons[j]).pushed
                        == start.buttons[j].pushed,
                forall|j: int|
                    0 <= j < i ==> #[trigger] self@.buttons[j] == start.hovered(position).buttons[j],
                forall|j: int| i <= j < self@.buttons.len() ==> #[trigger] self@.buttons[j]
                    == start.buttons[j],
            decreases self@.buttons.len() - i,
        {
            let ghost before = self.buttons@;
            assert(button_views(before)[i as int] == before[i as int]@);
            let mut b = self.buttons.remove(i);
            if b.is_inside(position) {
                b.cursor_moved(position);
            } else {
                b.mouse_leave();
            }
            proof {
                lemma_button_views_update(before, i as int, b);
            }
            self.buttons.insert(i, b);
            i += 1;
        }
        if self.widgets.len() > 0 {
            let cur = self.current_tab;
            let ghost w0 = self.widgets@;
            let mut w = self.widgets.remove(cur);
            assert(element_views(w0)[cur as int] == w0[cur as int]@);
            if w.is_inside(position) {
                w.cursor_moved(position);
            } else {
                w.mouse_leave();
            }
            proof {
                lemma_element_views_update(w0, cur as int, w);
            }
            self.widgets.insert(cur, w);
        }
        assert(self@.buttons =~= start.hovered(position).buttons);
        assert(self@.widgets =~= start.hovered(position).widgets);
    }

    /// The cursor left: every button and the current content go back to idle.
    pub fn mouse_leave(&mut self)
        requires
            old(self)@.wf(),
        ensures
            final(self)@.wf(),
            final(self)@ == old(self)@.left(),
    {
        let ghost start = self@;
        let mut i: usize = 0;
        while i < self.buttons.len()
            invariant
                self@ == (ContainerModel { buttons: self@.buttons, ..start }),
                start.wf(),
                self@.buttons.len() == start.buttons.len(),
                i <= self@.buttons.len(),
                forall|j: int| 0 <= j < self@.buttons.len() ==> (#[trigger] self@.buttons[j]).wf(),
                forall|j: int|
                    0 <= j < self@.buttons.len() ==> (#[trigger] self@.buttons[j]).pushed
                        == start.buttons[j].pushed,
                forall|j: int| 0 <= j < i ==> #[trigger] self@.buttons[j] == start.buttons[j].left(),
                forall|j: int| i <= j < self@.buttons.len() ==> #[trigger] self@.buttons[j]
                    == start.buttons[j],
            decreases self@.buttons.len() - i,
        {
            let ghost before = self.buttons@;
            assert(button_views(before)[i as int] == before[i as int]@);
            let mut b = self.buttons.remove(i);
            b.mouse_leave();
            proof {
                lemma_button_views_update(before, i as int, b);
            }
            self.buttons.insert(i, b);
            i += 1;
        }
        if self.widgets.len() > 0 {
            let cur = self.current_tab;
            let ghost w0 = self.widgets@;
            let mut w = self.widgets.remove(cur);
            assert(element_views(w0)[cur as int] == w0[cur as int]@);
            w.mouse_leave();
            proof {
                lemma_element_views_update(w0, cur as int, w);
            }
            self.widgets.insert(cur, w);
        }
        assert(self@.buttons =~= start.left().buttons);
        assert(self@.widgets =~= start.left().widgets);
    }

    /// Draws every tab button, then the content of the current tab.
    pub fn draw(&mut self) -> (r: Vec<Primitive>)
        requires
            old(self)@.wf(),
        ensures
            final(self)@.wf(),
            final(self)@ == old(self)@.cleared(),
            shapes(r@) == old(self)@.drawn(),
    {
        let ghost start = self@;
        let mut r: Vec<Primitive> = Vec::new();
        proof {
            lemma_shapes_empty();
        }
        let mut i: usize = 0;
        while i < self.buttons.len()
            invariant
                self@ == (ContainerModel { buttons: self@.buttons, ..start }),
                start.wf(),
                self@.buttons.len() == start.buttons.len(),
                i <= self@.buttons.len(),
                forall|j: int| 0 <= j < self@.buttons.len() ==> (#[trigger] self@.buttons[j]).wf(),
                forall|j: int|
                    0 <= j < self@.buttons.len() ==> (#[trigger] self@.buttons[j]).pushed
                        == start.buttons[j].pushed,
                forall|j: int| 0 <= j < i ==> #[trigger] self@.buttons[j] == start.buttons[j].cleared(),
                forall|j: int| i <= j < self@.buttons.len() ==> #[trigger] self@.buttons[j]
                    == start.buttons[j],
                shapes(r@) == buttons_drawn(start.buttons.take(i as int)),
            decreases self@.buttons.len() - i,
        {
            let ghost before = self.buttons@;
            assert(button_views(before)[i as int] == before[i as int]@);
            let mut b = self.buttons.remove(i);
            let mut part = b.draw();
            proof {
                lemma_button_views_update(before, i as int, b);
                lemma_shapes_append(r@, part@);
                assert(start.buttons.take(i + 1).drop_last() =~= start.buttons.take(i as int));
            }
            self.buttons.insert(i, b);
            r.append(&mut part);
            i += 1;
        }
        assert(start.buttons.take(i as int) =~= start.buttons);
        if self.widgets.len() > 0 {
            let cur = self.current_tab;
            let ghost w0 = self.widgets@;
            let mut w = self.widgets.remove(cur);
            assert(element_views(w0)[cur as int] == w0[cur as int]@);
            let mut part = w.draw();
            proof {
                lemma_element_views_update(w0, cur as int, w);
                lemma_shapes_append(r@, part@);
            }
            self.widgets.insert(cur, w);
            r.append(&mut part);
        } else {
            assert(shapes(r@) =~= start.drawn());
        }
        assert(self@.buttons =~= start.cleared().buttons);
        assert(self@.widgets =~= start.cleared().widgets);
        r
    }

    /// Moves the content of every tab to `p`.
    fn move_contents(&mut self, p: Vec2)
        requires
            p.in_range(),
            forall|j: int|
                0 <= j < old(self)@.widgets.len() ==> (#[trigger] old(self)@.widgets[j]).wf(),
        ensures
            final(self)@ == (ContainerModel {
                widgets: Seq::new(
                    old(self)@.widgets.len(),
                    |j: int| old(self)@.widgets[j].moved(p),
                ),
                ..old(self)@
            }),
            forall|j: int|
                0 <= j < final(self)@.widgets.len() ==> (#[trigger] final(self)@.widgets[j]).wf(),
    {
        let ghost start = self@;
        let mut i: usize = 0;
        while i < self.widgets.len()
            invariant
                p.in_range(),
                self@ == (ContainerModel { widgets: self@.widgets, ..start }),
                self@.widgets.len() == start.widgets.len(),
                i <= self@.widgets.len(),
                forall|j: int| 0 <= j < self@.widgets.len() ==> (#[trigger] self@.widgets[j]).wf(),
                forall|j: int| 0 <= j < i ==> #[trigger] self@.widgets[j] == start.widgets[j].moved(p),
                forall|j: int| i <= j < self@.widgets.len() ==> #[trigger] self@.widgets[j]
                    == start.widgets[j],
            decreases self@.widgets.len() - i,
        {
            let ghost before = self.widgets@;
            assert(element_views(before)[i as int] == before[i as int]@);
            let mut e = self.widgets.remove(i);
            e.set_position(p);
            proof {
                lemma_element_views_update(before, i as int, e);
            }
            self.widgets.insert(i, e);
            i += 1;
        }
        assert(self@.widgets =~= Seq::new(start.widgets.len(), |j: int| start.widgets[j].moved(p)));
    }

    /// Moves the container, its buttons and every content.
    pub fn set_position(&mut self, position: Vec2)
        requires
            old(self)@.wf(),
            rect_in_range(position, old(self)@.size),
        ensures
            final(self)@.wf(),
            final(self)@ == old(self)@.moved(position),
    {
        let ghost start = self@;
        self.position = position;
        let n = self.buttons.len();
        if n > 0 {
            self.lay_out_buttons(n);
        } else {
            assert(self@.buttons =~= start.moved(position).buttons);
        }
        let cpos = Vec2::new(position.x, position.y + TAB_BAR_HEIGHT);
        self.move_contents(cpos);
        proof {
            let m = self@;
            assert(m.buttons =~= start.moved(position).buttons);
            assert forall|i: int|
                0 <= i < m.buttons.len() implies (#[trigger] m.buttons[i]).pushed == (i
                == m.current_tab) by {
                assert(m.buttons[i].pushed == start.buttons[i].pushed);
            }
        }
    }

    /// Resizes the container; a size below the minimum, or that would leave
    /// the coordinate range, is refused.
    pub fn set_size(&mut self, size: Vec2)
        requires
            old(self)@.wf(),
        ensures
            final(self)@.wf(),
            final(self)@ == old(self)@.resized(size),
    {
        let ghost start = self@;
        if 40 <= size.x && TAB_BAR_HEIGHT + 1 <= size.y && size.x <= COORD_LIMIT && size.y
            <= COORD_LIMIT && 0 <= size.x && self.position.x + size.x <= COORD_LIMIT
            && self.position.y + size.y <= COORD_LIMIT {
            self.size = size;
            let n = self.buttons.len();
            if n > 0 {
                self.lay_out_buttons(n);
            } else {
                assert(self@.buttons =~= start.resized(size).buttons);
            }
            let content = Vec2::new(size.x, size.y - TAB_BAR_HEIGHT);
            self.resize_contents(content);
            proof {
                let m = self@;
                assert(m.buttons =~= start.resized(size).buttons);
                assert forall|i: int|
                    0 <= i < m.buttons.len() implies (#[trigger] m.buttons[i]).pushed == (i
                    == m.current_tab) by {
                    assert(m.buttons[i].pushed == start.buttons[i].pushed);
                }
            }
        }
    }

    pub fn get_position(&self) -> (r: Vec2)
        ensures
            r == self@.position,
    {
        self.position
    }

    pub fn get_size(&self) -> (r: Vec2)
        ensures
            r == self@.size,
    {
        self.size
    }

    pub fn get_min_size(&self) -> (r: Vec2)
        ensures
            r == container_min_size(),
    {
        Vec2::new(40, TAB_BAR_HEIGHT + 1)
    }

    pub fn get_max_size(&self) -> (r: Option<Vec2>)
        ensures
            r is None,
    {
        None
    }

    pub fn is_inside(&self, p: Vec2) -> (r: bool)
        ensures
            r == rect_contains(self@.position, self@.size, p),
    {
        is_in_rect(self.position, self.size, p)
    }

    pub fn set_element_name(&mut self, name: &String)
        ensures
            final(self)@ == (ContainerModel { name: name@, ..old(self)@ }),
    {
        self.name = name.clone();
    }

    pub fn get_element_name(&self) -> (r: &String)
        ensures
            r@ == self@.name,
    {
        &self.name
    }
}

/// Adding two tabs to an empty container, each content wider than the
/// container, widens it to the wider of the two contents, and the two tab
/// buttons share that width equally.
pub proof fn two_wide_tabs_widen_container(
    c: ContainerModel,
    label1: Seq<char>,
    width1: int,
    content1: ElementModel,
    label2: Seq<char>,
    width2: int,
    content2: ElementModel,
)
    requires
        c.wf(),
        c.buttons.len() == 0,
        content1.wf(),
        content2.wf(),
        content1.size().x > c.size.x,
        content2.size().x > c.size.x,
    ensures
        ({
            let after = c.with_tab(label1, width1, content1).with_tab(label2, width2, content2);
            &&& after.size.x == (if content1.size().x > content2.size().x {
                content1.size().x
            } else {
                content2.size().x
            })
            &&& after.buttons.len() == 2
            &&& after.buttons[0].size.x == after.size.x / 2
            &&& after.buttons[1].size.x == after.size.x / 2
        }),
{
    let once = c.with_tab(label1, width1, content1);
    assert(once.size.x == content1.size().x);
    let after = once.with_tab(label2, width2, content2);
    assert(after.buttons[1].size == vec2(after.size.x / 2, TAB_BAR_HEIGHT as int));
    assert(after.size.x / 2 >= 4);
    assert(after.buttons[0] == after.laid_out(once.buttons[0], 0, 2));
}

} // verus!
