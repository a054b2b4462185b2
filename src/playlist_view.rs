use vstd::prelude::*;
use vstd::string::StrSliceExecFns;
use crate::geometry::{
    COORD_LIMIT,
    Color,
    Primitive,
    Shape,
    Vec2,
    is_in_rect,
    lemma_shapes_empty,
    lemma_shapes_push,
    rect_contains,
    rgb,
    shapes,
    vec2,
};
use crate::playlist::{lemma_views_push, views_of};

verus! {

/// Height of a row, in pixels.
pub const ROW_HEIGHT: i64 = 22;

/// The last component of a path: what follows its last `/`, or all of it.
pub open spec fn path_basename(path: Seq<char>) -> Seq<char>
    decreases path.len(),
{
    if path.len() == 0 {
        path
    } else if path.last() == '/' {
        seq![]
    } else {
        path_basename(path.drop_last()).push(path.last())
    }
}

proof fn lemma_basename_from(path: Seq<char>, i: int)
    requires
        0 <= i <= path.len(),
        forall|k: int| i <= k < path.len() ==> path[k] != '/',
        i == 0 || path[i - 1] == '/',
    ensures
        path_basename(path) == path.subrange(i, path.len() as int),
    decreases path.len(),
{
    if path.len() == i {
        assert(path.subrange(i, path.len() as int) =~= seq![]);
        if i > 0 {
            assert(path.last() == '/');
        } else {
            assert(path =~= seq![]);
        }
    } else {
        lemma_basename_from(path.drop_last(), i);
        assert(path.subrange(i, path.len() as int) =~= path.drop_last().subrange(
            i,
            path.len() - 1,
        ).push(path.last()));
    }
}

/// The last component of `path`.
fn basename(path: &String) -> (r: String)
    ensures
        r@ == path_basename(path@),
{
    let s = path.as_str();
    let n = s.unicode_len();
    let mut i: usize = n;
    while i > 0 && s.get_char(i - 1) != '/'
        invariant
            s@ == path@,
            n == s@.len(),
            i <= n,
            forall|k: int| i <= k < n ==> s@[k] != '/',
        decreases i,
    {
        i -= 1;
    }
    proof {
        lemma_basename_from(s@, i as int);
    }
    s.substring_char(i, n).to_owned()
}

/// The last component of each of `paths`.
pub open spec fn basenames(paths: Seq<Seq<char>>) -> Seq<Seq<char>> {
    paths.map_values(|p: Seq<char>| path_basename(p))
}

/// Returned when the list has become empty.
#[derive(Clone, Copy, Debug, PartialEq, Eq, Structural)]
pub enum PlayerError {
    NoMoreMusic,
}

/// The visible list of tracks: one row per track, scrolled so that a window of
/// rows shows, with the current track and the one under the cursor highlighted.
pub struct GraphicPlayList {
    musics: Vec<String>,
    texts: Vec<String>,
    position: Vec2,
    size: Vec2,
    current: usize,
    hover_element: Option<usize>,
    add_to_view: usize,
    need_to_draw: bool,
    has_mouse: bool,
    name: String,
}

/// The state of a `GraphicPlayList`.
pub struct PlayListViewModel {
    pub tracks: Seq<Seq<char>>,
    /// The row labels: the last component of each path.
    pub labels: Seq<Seq<char>>,
    pub position: Vec2,
    pub size: Vec2,
    pub current: nat,
    pub hover: Option<nat>,
    /// The first visible row.
    pub scroll: nat,
    pub need_to_draw: bool,
    pub has_mouse: bool,
    pub name: Seq<char>,
}

/// `v` clamped to `[0, hi]`.
pub open spec fn clamp_to(v: int, hi: nat) -> nat {
    if v < 0 {
        0
    } else if v > hi {
        hi
    } else {
        v as nat
    }
}

impl PlayListViewModel {
    /// How many rows fit in the frame.
    pub open spec fn capacity(self) -> nat {
        if self.size.y >= 1 {
            ((self.size.y - 1) / (ROW_HEIGHT as int)) as nat
        } else {
            0
        }
    }

    /// How many rows are shown.
    pub open spec fn visible(self) -> nat {
        if self.tracks.len() < self.capacity() {
            self.tracks.len()
        } else {
            self.capacity()
        }
    }

    /// The furthest the list can scroll: the last row at the bottom of the window.
    pub open spec fn max_scroll(self) -> nat {
        (self.tracks.len() - self.visible()) as nat
    }

    pub open spec fn wf(self) -> bool {
        &&& self.position.in_range()
        &&& self.size.in_range()
        &&& self.labels.len() == self.tracks.len()
        &&& self.tracks.len() < COORD_LIMIT
        &&& (if self.tracks.len() == 0 {
            self.current == 0
        } else {
            self.current < self.tracks.len()
        })
        &&& (self.hover matches Some(h) ==> h < self.tracks.len())
        &&& self.hover != Some(self.current)
        &&& self.scroll <= self.max_scroll()
    }

    /// The y coordinate of the top of the first visible row.
    pub open spec fn top(self) -> int {
        self.position.y + 1
    }

    pub open spec fn scrolled(self, to_add: int) -> PlayListViewModel {
        let s = clamp_to(to_add, self.max_scroll());
        if s == self.scroll {
            self
        } else {
            PlayListViewModel { scroll: s, need_to_draw: true, ..self }
        }
    }

    /// Makes `current` the current row, which stops being highlighted as
    /// hovered; unless the change comes from a click,
    /// scrolls so that the row stands two rows inside the window (or at its
    /// top, when the window shows fewer than two rows).
    pub open spec fn with_current(self, current: nat, by_click: bool) -> PlayListViewModel {
        if self.tracks.len() == 0 || current >= self.tracks.len() || current == self.current {
            self
        } else {
            let m = PlayListViewModel {
                current,
                hover: if self.hover == Some(current) {
                    None
                } else {
                    self.hover
                },
                need_to_draw: true,
                ..self
            };
            if by_click {
                m
            } else if current + 2 >= self.visible() + self.scroll {
                m.scrolled(
                    if self.visible() >= 2 {
                        current + 2 - self.visible()
                    } else {
                        current as int
                    },
                )
            } else if current < self.scroll {
                m.scrolled(current as int)
            } else {
                m
            }
        }
    }

    /// The row under height `y`, counted from the first row of the list.
    pub open spec fn row_at(self, y: int) -> int {
        (y - self.top()) / (ROW_HEIGHT as int) + self.scroll
    }

    pub open spec fn hovered(self, p: Vec2) -> PlayListViewModel {
        let row = self.row_at(p.y as int);
        PlayListViewModel {
            hover: if p.y >= self.top() && row < self.tracks.len() && row != self.current {
                Some(row as nat)
            } else {
                None
            },
            has_mouse: true,
            need_to_draw: true,
            ..self
        }
    }

    pub open spec fn clicked(self, p: Vec2) -> PlayListViewModel {
        let row = self.row_at(p.y as int);
        if p.y < self.top() {
            self
        } else if row >= self.tracks.len() {
            PlayListViewModel { need_to_draw: true, ..self }
        } else {
            PlayListViewModel { hover: None, need_to_draw: true, ..self }.with_current(
                row as nat,
                true,
            )
        }
    }

    pub open spec fn left(self) -> PlayListViewModel {
        if !self.has_mouse {
            self
        } else if self.hover is Some {
            PlayListViewModel { hover: None, has_mouse: false, need_to_draw: true, ..self }
        } else {
            PlayListViewModel { has_mouse: false, ..self }
        }
    }

    /// The current index after removing row `pos` from a list of `len` rows.
    pub open spec fn current_after_removal(self, pos: nat) -> nat {
        let len = self.tracks.len();
        if len <= 1 {
            0
        } else if pos < self.current {
            (self.current - 1) as nat
        } else if self.current >= len - 1 {
            (len - 2) as nat
        } else {
            self.current
        }
    }

    /// Row `pos` removed: the current row stays on its track, or moves to the
    /// following one (the last one at the end); the scroll is kept within bounds.
    pub open spec fn removed(self, pos: nat) -> PlayListViewModel {
        if pos >= self.tracks.len() {
            self
        } else {
            let m = PlayListViewModel {
                tracks: self.tracks.remove(pos as int),
                labels: self.labels.remove(pos as int),
                current: self.current_after_removal(pos),
                hover: None,
                need_to_draw: true,
                ..self
            };
            PlayListViewModel {
                scroll: if m.scroll > m.max_scroll() {
                    m.max_scroll()
                } else {
                    m.scroll
                },
                ..m
            }
        }
    }

    pub open spec fn row_color(self, i: nat) -> Color {
        if i == self.current {
            rgb(255, 125, 25)
        } else if self.hover == Some(i) {
            rgb(255, 175, 100)
        } else {
            rgb(255, 255, 255)
        }
    }

    pub open spec fn row_shape(self, k: int) -> Shape {
        Shape::Text {
            position: vec2(self.position.x + 5, self.top() + k * ROW_HEIGHT),
            text: self.labels[self.scroll + k],
            color: self.row_color((self.scroll + k) as nat),
            char_size: 20,
        }
    }

    pub open spec fn shapes(self) -> Seq<Shape> {
        seq![
            Shape::Rect {
                position: vec2(self.position.x + 1, self.position.y + 1),
                size: vec2(self.size.x - 2, self.size.y - 2),
                fill: rgb(0, 0, 0),
                outline: rgb(255, 255, 255),
                thickness: 1,
                rotation: 0,
            },
        ] + Seq::new(self.visible(), |k: int| self.row_shape(k))
    }

    pub open spec fn moved(self, position: Vec2) -> PlayListViewModel {
        PlayListViewModel { position, need_to_draw: true, ..self }
    }

    pub open spec fn resized(self, size: Vec2) -> PlayListViewModel {
        if playlist_view_min_size().x <= size.x
            && playlist_view_min_size().y <= size.y && size.in_range() {
            let m = PlayListViewModel { size, need_to_draw: true, ..self };
            PlayListViewModel {
                scroll: if m.scroll > m.max_scroll() {
                    m.max_scroll()
                } else {
                    m.scroll
                },
                ..m
            }
        } else {
            self
        }
    }

    /// What `draw` emits: everything when something changed, else nothing.
    pub open spec fn drawn(self) -> Seq<Shape> {
        if self.need_to_draw {
            self.shapes()
        } else {
            seq![]
        }
    }

    pub open spec fn cleared(self) -> PlayListViewModel {
        PlayListViewModel { need_to_draw: false, ..self }
    }
}

impl View for GraphicPlayList {
    type V = PlayListViewModel;

    closed spec fn view(&self) -> PlayListViewModel {
        PlayListViewModel {
            tracks: views_of(self.musics@),
            labels: views_of(self.texts@),
            position: self.position,
            size: self.size,
            current: self.current as nat,
            hover: match self.hover_element {
                Some(h) => Some(h as nat),
                None => None,
            },
            scroll: self.add_to_view as nat,
            need_to_draw: self.need_to_draw,
            has_mouse: self.has_mouse,
            name: self.name@,
        }
    }
}

pub open spec fn playlist_view_min_size() -> Vec2 {
    vec2(50, 50)
}

proof fn lemma_views_remove(v: Seq<String>, i: int)
    requires
        0 <= i < v.len(),
    ensures
        views_of(v.remove(i)) == views_of(v).remove(i),
{
    assert(views_of(v.remove(i)) =~= views_of(v).remove(i));
}

impl GraphicPlayList {
    /// An empty list, to be drawn.
    pub fn new_init(size: Vec2, position: Vec2, color: Color) -> (r: GraphicPlayList)
        requires
            size.in_range(),
            position.in_range(),
        ensures
            r@.wf(),
            r@ == (PlayListViewModel {
                tracks: seq![],
                labels: seq![],
                position,
                size,
                current: 0,
                hover: None,
                scroll: 0,
                need_to_draw: true,
                has_mouse: false,
                name: seq![],
            }),
    {
        let r = GraphicPlayList {
            musics: Vec::new(),
            texts: Vec::new(),
            position,
            size,
            current: 0,
            hover_element: None,
            add_to_view: 0,
            need_to_draw: true,
            has_mouse: false,
            name: String::new(),
        };
        assert(r@.tracks =~= seq![]);
        assert(r@.labels =~= seq![]);
        r
    }

    fn capacity(&self) -> (r: usize)
        requires
            self@.size.in_range(),
        ensures
            r == self@.capacity(),
    {
        if self.size.y >= 1 {
            ((self.size.y - 1) / ROW_HEIGHT) as usize
        } else {
            0
        }
    }

    fn visible(&self) -> (r: usize)
        requires
            self@.size.in_range(),
        ensures
            r == self@.visible(),
    {
        let c = self.capacity();
        if self.musics.len() < c {
            self.musics.len()
        } else {
            c
        }
    }

    /// Appends a row for `music`, unless it is listed already.
    pub fn add_music(&mut self, music: String)
        requires
            old(self)@.wf(),
            old(self)@.tracks.len() + 1 < COORD_LIMIT,
        ensures
            final(self)@.wf(),
            final(self)@ == (if old(self)@.tracks.contains(music@) {
                old(self)@
            } else {
                PlayListViewModel {
                    tracks: old(self)@.tracks.push(music@),
                    labels: old(self)@.labels.push(path_basename(music@)),
                    need_to_draw: true,
                    ..old(self)@
                }
            }),
    {
        let mut i: usize = 0;
        while i < self.musics.len()
            invariant
                self@ == old(self)@,
                self@.wf(),
                i <= self.musics@.len(),
                forall|j: int| 0 <= j < i ==> self@.tracks[j] != music@,
            decreases self.musics@.len() - i,
        {
            if self.musics[i] == music {
                assert(self@.tracks[i as int] == music@);
                return;
            }
            i += 1;
        }
        self.push_row(music);
    }

    /// Appends a row for `music`.
    fn push_row(&mut self, music: String)
        requires
            old(self)@.wf(),
            old(self)@.tracks.len() + 1 < COORD_LIMIT,
        ensures
            final(self)@.wf(),
            final(self)@ == (PlayListViewModel {
                tracks: old(self)@.tracks.push(music@),
                labels: old(self)@.labels.push(path_basename(music@)),
                need_to_draw: true,
                ..old(self)@
            }),
    {
        let label = basename(&music);
        proof {
            lemma_views_push(self.musics@, music);
            lemma_views_push(self.texts@, label);
        }
        self.musics.push(music);
        self.texts.push(label);
        self.need_to_draw = true;
    }

    /// Appends a row for each of `musics`, in order, repeated paths included.
    pub fn push_musics(&mut self, musics: &Vec<String>)
        requires
            old(self)@.wf(),
            old(self)@.tracks.len() + musics@.len() + 1 < COORD_LIMIT,
        ensures
            final(self)@.wf(),
            final(self)@ == (PlayListViewModel {
                tracks: old(self)@.tracks + views_of(musics@),
                labels: old(self)@.labels + basenames(views_of(musics@)),
                need_to_draw: old(self)@.need_to_draw || musics@.len() > 0,
                ..old(self)@
            }),
    {
        let ghost start = self@;
        let mut i: usize = 0;
        while i < musics.len()
            invariant
                i <= musics@.len(),
                self@.wf(),
                start.tracks.len() + musics@.len() + 1 < COORD_LIMIT,
                self@ == (PlayListViewModel {
                    tracks: start.tracks + views_of(musics@).take(i as int),
                    labels: start.labels + basenames(views_of(musics@).take(i as int)),
                    need_to_draw: start.need_to_draw || i > 0,
                    ..start
                }),
            decreases musics@.len() - i,
        {
            let m = musics[i].clone();
            proof {
                let t = views_of(musics@);
                assert(t.take(i + 1) =~= t.take(i as int).push(m@));
                assert(start.tracks + t.take(i + 1) =~= (start.tracks + t.take(i as int)).push(
                    m@,
                ));
                assert(start.labels + basenames(t.take(i + 1)) =~= (start.labels + basenames(
                    t.take(i as int),
                )).push(path_basename(m@)));
            }
            self.push_row(m);
            i += 1;
        }
        assert(views_of(musics@).take(i as int) =~= views_of(musics@));
    }

    /// Adds each of `musics` in turn with `add_music`.
    pub fn add_musics(&mut self, musics: &Vec<String>)
        requires
            old(self)@.wf(),
            old(self)@.tracks.len() + musics@.len() + 1 < COORD_LIMIT,
        ensures
            final(self)@.wf(),
            final(self)@.tracks == crate::playlist::with_tracks(
                old(self)@.tracks,
                views_of(musics@),
            ),
            final(self)@.current == old(self)@.current,
            final(self)@.scroll == old(self)@.scroll,
            final(self)@.position == old(self)@.position,
            final(self)@.size == old(self)@.size,
            final(self)@.hover == old(self)@.hover,
            final(self)@.has_mouse == old(self)@.has_mouse,
            final(self)@.name == old(self)@.name,
    {
        let mut i: usize = 0;
        while i < musics.len()
            invariant
                i <= musics@.len(),
                self@.wf(),
                self@.tracks.len() <= old(self)@.tracks.len() + i,
                old(self)@.tracks.len() + musics@.len() + 1 < COORD_LIMIT,
                self@.current == old(self)@.current,
                self@.scroll == old(self)@.scroll,
                self@.position == old(self)@.position,
                self@.size == old(self)@.size,
                self@.hover == old(self)@.hover,
                self@.has_mouse == old(self)@.has_mouse,
                self@.name == old(self)@.name,
                self@.tracks == crate::playlist::with_tracks(
                    old(self)@.tracks,
                    views_of(musics@).take(i as int),
                ),
            decreases musics@.len() - i,
        {
            let m = musics[i].clone();
            proof {
                assert(views_of(musics@).take(i + 1).drop_last() =~= views_of(musics@).take(
                    i as int,
                ));
                assert(views_of(musics@).take(i + 1).last() == m@);
            }
            self.add_music(m);
            i += 1;
        }
        assert(views_of(musics@).take(i as int) =~= views_of(musics@));
    }

    /// Scrolls so that row `to_add` is the first shown, clamped so that the
    /// window never passes the end of the list.
    pub fn set_to_add(&mut self, to_add: isize)
        requires
            old(self)@.wf(),
        ensures
            final(self)@.wf(),
            final(self)@ == old(self)@.scrolled(to_add as int),
    {
        let max = self.musics.len() - self.visible();
        let s: usize = if to_add < 0 {
            0
        } else if to_add as usize > max {
            max
        } else {
            to_add as usize
        };
        if s != self.add_to_view {
            self.add_to_view = s;
            self.need_to_draw = true;
        }
    }

    /// Makes `current` the current row and scrolls it into view.
    pub fn set_current(&mut self, current: usize)
        requires
            old(self)@.wf(),
        ensures
            final(self)@.wf(),
            final(self)@ == old(self)@.with_current(current as nat, false),
            current < old(self)@.tracks.len() && current != old(self)@.current
                && final(self)@.visible() > 0 ==> final(self)@.scroll <= final(self)@.current
                < final(self)@.scroll + final(self)@.visible(),
    {
        self.set_current_intern(current, false)
    }

    fn set_current_intern(&mut self, current: usize, by_click: bool)
        requires
            old(self)@.wf(),
        ensures
            final(self)@.wf(),
            final(self)@ == old(self)@.with_current(current as nat, by_click),
    {
        if self.musics.len() > 0 && current < self.musics.len() && current != self.current {
            let visible = self.visible();
            let scroll = self.add_to_view;
            self.current = current;
            if self.hover_element == Some(current) {
                self.hover_element = None;
            }
            self.need_to_draw = true;
            if !by_click {
                if current + 2 >= visible + scroll {
                    if visible >= 2 {
                        self.set_to_add((current + 2 - visible) as isize);
                    } else {
                        self.set_to_add(current as isize);
                    }
                } else if current < scroll {
                    self.set_to_add(current as isize);
                }
            }
        }
    }

    pub fn get_current(&self) -> (r: usize)
        ensures
            r == self@.current,
    {
        self.current
    }

    pub fn get_add_to_view(&self) -> (r: usize)
        ensures
            r == self@.scroll,
    {
        self.add_to_view
    }

    pub fn get_nb_musics(&self) -> (r: usize)
        ensures
            r == self@.tracks.len(),
    {
        self.musics.len()
    }

    /// Removes row `pos`. The current row stays on the same track when another
    /// one goes, or moves to the following one (the last one at the end).
    /// Fails with `NoMoreMusic` exactly when no row is left.
    pub fn remove_music(&mut self, pos: usize) -> (r: Result<(), PlayerError>)
        requires
            old(self)@.wf(),
        ensures
            final(self)@.wf(),
            final(self)@ == old(self)@.removed(pos as nat),
            r is Err <==> final(self)@.tracks.len() == 0,
            final(self)@.tracks.len() > 0 ==> final(self)@.current < final(self)@.tracks.len(),
    {
        if pos < self.musics.len() {
            let ghost before = self@;
            let len = self.musics.len();
            let new_current: usize = if len <= 1 {
                0
            } else if pos < self.current {
                self.current - 1
            } else if self.current >= len - 1 {
                len - 2
            } else {
                self.current
            };
            proof {
                lemma_views_remove(self.musics@, pos as int);
                lemma_views_remove(self.texts@, pos as int);
            }
            self.musics.remove(pos);
            self.texts.remove(pos);
            self.current = new_current;
            self.hover_element = None;
            self.need_to_draw = true;
            let max = self.musics.len() - self.visible();
            if self.add_to_view > max {
                self.add_to_view = max;
            }
        }
        if self.musics.len() == 0 {
            Err(PlayerError::NoMoreMusic)
        } else {
            Ok(())
        }
    }

    /// Highlights the row under the cursor, unless it is the current one.
    pub fn cursor_moved(&mut self, position: Vec2)
        requires
            old(self)@.wf(),
        ensures
            final(self)@.wf(),
            final(self)@ == old(self)@.hovered(position),
    {
        self.has_mouse = true;
        self.need_to_draw = true;
        let top = self.position.y + 1;
        if position.y < top {
            self.hover_element = None;
        } else {
            let row: i128 = (position.y as i128 - top as i128) / (ROW_HEIGHT as i128);
            if row + (self.add_to_view as i128) < self.musics.len() as i128 {
                let r = row as usize + self.add_to_view;
                if r != self.current {
                    self.hover_element = Some(r);
                } else {
                    self.hover_element = None;
                }
            } else {
                self.hover_element = None;
            }
        }
    }

    /// Selects the row under the click, without scrolling; below the last row
    /// nothing is selected.
    pub fn clicked(&mut self, position: Vec2)
        requires
            old(self)@.wf(),
        ensures
            final(self)@.wf(),
            final(self)@ == old(self)@.clicked(position),
    {
        let top = self.position.y + 1;
        if position.y >= top {
            let row: i128 = (position.y as i128 - top as i128) / (ROW_HEIGHT as i128);
            self.need_to_draw = true;
            if row + (self.add_to_view as i128) < self.musics.len() as i128 {
                self.hover_element = None;
                let r = row as usize + self.add_to_view;
                self.set_current_intern(r, true);
            }
        }
    }

    pub fn mouse_leave(&mut self)
        requires
            old(self)@.wf(),
        ensures
            final(self)@.wf(),
            final(self)@ == old(self)@.left(),
    {
        if self.has_mouse {
            if self.hover_element.is_some() {
                self.hover_element = None;
                self.need_to_draw = true;
            }
            self.has_mouse = false;
        }
    }

    pub fn draw(&mut self) -> (r: Vec<Primitive>)
        requires
            old(self)@.wf(),
        ensures
            final(self)@ == old(self)@.cleared(),
            shapes(r@) == old(self)@.drawn(),
    {
        let mut r: Vec<Primitive> = Vec::new();
        proof {
            lemma_shapes_empty();
        }
        if self.need_to_draw {
            let frame = Primitive::Rect {
                position: Vec2::new(self.position.x + 1, self.position.y + 1),
                size: Vec2::new(self.size.x - 2, self.size.y - 2),
                fill: Color::rgb(0, 0, 0),
                outline: Color::rgb(255, 255, 255),
                thickness: 1,
                rotation: 0,
            };
            proof {
                lemma_shapes_push(r@, frame);
            }
            r.push(frame);
            let ghost m = self@;
            let visible = self.visible();
            let mut k: usize = 0;
            while k < visible
                invariant
                    m == self@,
                    m.wf(),
                    visible == m.visible(),
                    k <= visible,
                    shapes(r@) == seq![m.shapes()[0]] + Seq::new(k as nat, |j: int| m.row_shape(j)),
                decreases visible - k,
            {
                let i = self.add_to_view + k;
                let color = if i == self.current {
                    Color::rgb(255, 125, 25)
                } else if self.hover_element == Some(i) {
                    Color::rgb(255, 175, 100)
                } else {
                    Color::rgb(255, 255, 255)
                };
                let row = Primitive::Text {
                    position: Vec2::new(self.position.x + 5, self.position.y + 1 + (k as i64) * ROW_HEIGHT),
                    text: self.texts[i].clone(),
                    color,
                    char_size: 20,
                };
                proof {
                    lemma_shapes_push(r@, row);
                    assert(row@ == m.row_shape(k as int));
                }
                r.push(row);
                k += 1;
                assert(shapes(r@) =~= seq![m.shapes()[0]] + Seq::new(k as nat, |j: int| m.row_shape(j)));
            }
            assert(shapes(r@) =~= old(self)@.shapes());
        }
        self.need_to_draw = false;
        r
    }

    pub fn set_position(&mut self, position: Vec2)
        requires
            old(self)@.wf(),
            position.in_range(),
        ensures
            final(self)@.wf(),
            final(self)@ == old(self)@.moved(position),
    {
        self.position = position;
        self.need_to_draw = true;
    }

    pub fn get_position(&self) -> (r: Vec2)
        ensures
            r == self@.position,
    {
        self.position
    }

    /// Resizes the list, scrolling back where fewer rows are then hidden; a size
    /// below the minimum or out of range is refused.
    pub fn set_size(&mut self, size: Vec2)
        requires
            old(self)@.wf(),
        ensures
            final(self)@.wf(),
            final(self)@ == old(self)@.resized(size),
    {
        if 50 <= size.x && 50 <= size.y && size.x <= COORD_LIMIT && size.y <= COORD_LIMIT {
            self.size = size;
            self.need_to_draw = true;
            let max = self.musics.len() - self.visible();
            if self.add_to_view > max {
                self.add_to_view = max;
            }
        }
    }

    pub fn get_size(&self) -> (r: Vec2)
        ensures
            r == self@.size,
    {
        self.size
    }

    pub fn get_min_size(&self) -> (r: Vec2)
        ensures
            r == playlist_view_min_size(),
    {
        Vec2::new(50, 50)
    }

    pub fn get_max_size(&self) -> (r: Option<Vec2>)
        ensures
            r is None,
    {
        None
    }

    pub fn is_inside(&self, p: Vec2) -> (r: bool)
        ensures
            r == rect_contains(self@.position, self@.size, p),
    {
        is_in_rect(self.position, self.size, p)
    }

    /// Forces the next `draw` to emit the widget.
    pub fn invalidate(&mut self)
        ensures
            final(self)@ == (PlayListViewModel { need_to_draw: true, ..old(self)@ }),
    {
        self.need_to_draw = true;
    }

    pub fn set_element_name(&mut self, name: &String)
        ensures
            final(self)@ == (PlayListViewModel { name: name@, ..old(self)@ }),
    {
        self.name = name.clone();
    }

    pub fn get_element_name(&self) -> (r: &String)
        ensures
            r@ == self@.name,
    {
        &self.name
    }
}

/// Removing a row leaves the current index on a row of the shorter list, and
/// removing the only row leaves the list empty, which `remove_music` reports
/// as `NoMoreMusic`.
pub proof fn removal_keeps_current_valid(m: PlayListViewModel, pos: nat)
    requires
        m.wf(),
        pos < m.tracks.len(),
    ensures
        m.removed(pos).wf(),
        m.removed(pos).tracks.len() == m.tracks.len() - 1,
        m.removed(pos).tracks.len() > 0 ==> m.removed(pos).current < m.removed(pos).tracks.len(),
        m.tracks.len() == 1 ==> m.removed(pos).tracks.len() == 0,
{
}

} // verus!
