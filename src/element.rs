use vstd::prelude::*;
use crate::button::{ButtonModel, GraphicButton};
use crate::geometry::{Primitive, Shape, Vec2, rect_contains, shapes};
use crate::playlist_view::{GraphicPlayList, PlayListViewModel};
use crate::progress_bar::{ProgressBar, ProgressModel};
use crate::sound_position::{GraphicSoundPosition, SoundPositionModel};
use crate::spectrum::{GraphicSpectrum, SpectrumModel};
use crate::timer::{GraphicTimer, TimerModel};

verus! {

/// Any of the widgets, behind one interface: position and size, drawing,
/// hit-testing and the mouse.
pub enum GraphicElement {
    Button(GraphicButton),
    ProgressBar(ProgressBar),
    PlayList(GraphicPlayList),
    Spectrum(GraphicSpectrum),
    SoundPosition(GraphicSoundPosition),
    Timer(GraphicTimer),
}

/// The state of a `GraphicElement`.
pub enum ElementModel {
    Button(ButtonModel),
    ProgressBar(ProgressModel),
    PlayList(PlayListViewModel),
    Spectrum(SpectrumModel),
    SoundPosition(SoundPositionModel),
    Timer(TimerModel),
}

impl ElementModel {
    pub open spec fn wf(self) -> bool {
        match self {
            ElementModel::Button(m) => m.wf(),
            ElementModel::ProgressBar(m) => m.wf(),
            ElementModel::PlayList(m) => m.wf(),
            ElementModel::Spectrum(m) => m.wf(),
            ElementModel::SoundPosition(m) => m.wf(),
            ElementModel::Timer(m) => m.wf(),
        }
    }

    pub open spec fn position(self) -> Vec2 {
        match self {
            ElementModel::Button(m) => m.position,
            ElementModel::ProgressBar(m) => m.position,
            ElementModel::PlayList(m) => m.position,
            ElementModel::Spectrum(m) => m.position,
            ElementModel::SoundPosition(m) => m.position,
            ElementModel::Timer(m) => m.position,
        }
    }

    pub open spec fn size(self) -> Vec2 {
        match self {
            ElementModel::Button(m) => m.size,
            ElementModel::ProgressBar(m) => m.size,
            ElementModel::PlayList(m) => m.size,
            ElementModel::Spectrum(m) => m.size,
            ElementModel::SoundPosition(m) => m.size,
            ElementModel::Timer(m) => m.size,
        }
    }

    pub open spec fn need_to_draw(self) -> bool {
        match self {
            ElementModel::Button(m) => m.need_to_draw,
            ElementModel::ProgressBar(m) => m.need_to_draw,
            ElementModel::PlayList(m) => m.need_to_draw,
            ElementModel::Spectrum(m) => m.need_to_draw,
            ElementModel::SoundPosition(m) => m.need_to_draw,
            ElementModel::Timer(m) => m.need_to_draw,
        }
    }

    pub open spec fn name(self) -> Seq<char> {
        match self {
            ElementModel::Button(m) => m.name,
            ElementModel::ProgressBar(m) => m.name,
            ElementModel::PlayList(m) => m.name,
            ElementModel::Spectrum(m) => m.name,
            ElementModel::SoundPosition(m) => m.name,
            ElementModel::Timer(m) => m.name,
        }
    }

    pub open spec fn named(self, name: Seq<char>) -> ElementModel {
        match self {
            ElementModel::Button(m) => ElementModel::Button(ButtonModel { name, ..m }),
            ElementModel::ProgressBar(m) => ElementModel::ProgressBar(ProgressModel { name, ..m }),
            ElementModel::PlayList(m) => ElementModel::PlayList(PlayListViewModel { name, ..m }),
            ElementModel::Spectrum(m) => ElementModel::Spectrum(SpectrumModel { name, ..m }),
            ElementModel::SoundPosition(m) => ElementModel::SoundPosition(
                SoundPositionModel { name, ..m },
            ),
            ElementModel::Timer(m) => ElementModel::Timer(TimerModel { name, ..m }),
        }
    }

    pub open spec fn drawn(self) -> Seq<Shape> {
        match self {
            ElementModel::Button(m) => m.drawn(),
            ElementModel::ProgressBar(m) => m.drawn(),
            ElementModel::PlayList(m) => m.drawn(),
            ElementModel::Spectrum(m) => m.drawn(),
            ElementModel::SoundPosition(m) => m.drawn(),
            ElementModel::Timer(m) => m.drawn(),
        }
    }

    pub open spec fn cleared(self) -> ElementModel {
        match self {
            ElementModel::Button(m) => ElementModel::Button(m.cleared()),
            ElementModel::ProgressBar(m) => ElementModel::ProgressBar(m.cleared()),
            ElementModel::PlayList(m) => ElementModel::PlayList(m.cleared()),
            ElementModel::Spectrum(m) => ElementModel::Spectrum(m.cleared()),
            ElementModel::SoundPosition(m) => ElementModel::SoundPosition(m.cleared()),
            ElementModel::Timer(m) => ElementModel::Timer(m.cleared()),
        }
    }

    pub open spec fn invalidated(self) -> ElementModel {
        match self {
            ElementModel::Button(m) => ElementModel::Button(ButtonModel { need_to_draw: true, ..m }),
            ElementModel::ProgressBar(m) => ElementModel::ProgressBar(
                ProgressModel { need_to_draw: true, ..m },
            ),
            ElementModel::PlayList(m) => ElementModel::PlayList(
                PlayListViewModel { need_to_draw: true, ..m },
            ),
            ElementModel::Spectrum(m) => ElementModel::Spectrum(
                SpectrumModel { need_to_draw: true, ..m },
            ),
            ElementModel::SoundPosition(m) => ElementModel::SoundPosition(
                SoundPositionModel { need_to_draw: true, ..m },
            ),
            ElementModel::Timer(m) => ElementModel::Timer(TimerModel { need_to_draw: true, ..m }),
        }
    }

    pub open spec fn moved(self, p: Vec2) -> ElementModel {
        match self {
            ElementModel::Button(m) => ElementModel::Button(m.moved(p)),
            ElementModel::ProgressBar(m) => ElementModel::ProgressBar(m.moved(p)),
            ElementModel::PlayList(m) => ElementModel::PlayList(m.moved(p)),
            ElementModel::Spectrum(m) => ElementModel::Spectrum(m.moved(p)),
            ElementModel::SoundPosition(m) => ElementModel::SoundPosition(m.moved(p)),
            ElementModel::Timer(m) => ElementModel::Timer(m.moved(p)),
        }
    }

    pub open spec fn resized(self, s: Vec2) -> ElementModel {
        match self {
            ElementModel::Button(m) => ElementModel::Button(m.resized(s)),
            ElementModel::ProgressBar(m) => ElementModel::ProgressBar(m.resized(s)),
            ElementModel::PlayList(m) => ElementModel::PlayList(m.resized(s)),
            ElementModel::Spectrum(m) => ElementModel::Spectrum(m.resized(s)),
            ElementModel::SoundPosition(m) => ElementModel::SoundPosition(m.resized(s)),
            ElementModel::Timer(m) => ElementModel::Timer(m.resized(s)),
        }
    }

    /// A click: a button toggles, a bar or a list or a pad takes the point;
    /// the spectrum and the timer ignore it.
    pub open spec fn clicked(self, p: Vec2) -> ElementModel {
        match self {
            ElementModel::Button(m) => ElementModel::Button(m.with_pushed(!m.pushed)),
            ElementModel::ProgressBar(m) => ElementModel::ProgressBar(m.clicked(p)),
            ElementModel::PlayList(m) => ElementModel::PlayList(m.clicked(p)),
            ElementModel::SoundPosition(m) => ElementModel::SoundPosition(m.clicked(p)),
            _ => self,
        }
    }

    /// The cursor moved within the bounds; only buttons and lists react.
    pub open spec fn hovered(self, p: Vec2) -> ElementModel {
        match self {
            ElementModel::Button(m) => ElementModel::Button(m.hovered()),
            ElementModel::PlayList(m) => ElementModel::PlayList(m.hovered(p)),
            _ => self,
        }
    }

    /// The cursor left the bounds; only buttons and lists react.
    pub open spec fn left(self) -> ElementModel {
        match self {
            ElementModel::Button(m) => ElementModel::Button(m.left()),
            ElementModel::PlayList(m) => ElementModel::PlayList(m.left()),
            _ => self,
        }
    }
}

impl View for GraphicElement {
    type V = ElementModel;

    open spec fn view(&self) -> ElementModel {
        match self {
            GraphicElement::Button(w) => ElementModel::Button(w@),
            GraphicElement::ProgressBar(w) => ElementModel::ProgressBar(w@),
            GraphicElement::PlayList(w) => ElementModel::PlayList(w@),
            GraphicElement::Spectrum(w) => ElementModel::Spectrum(w@),
            GraphicElement::SoundPosition(w) => ElementModel::SoundPosition(w@),
            GraphicElement::Timer(w) => ElementModel::Timer(w@),
        }
    }
}

impl GraphicElement {
    /// The primitives to draw when something changed since the last call, else none.
    pub fn draw(&mut self) -> (r: Vec<Primitive>)
        requires
            old(self)@.wf(),
        ensures
            final(self)@ == old(self)@.cleared(),
            shapes(r@) == old(self)@.drawn(),
    {
        match self {
            GraphicElement::Button(w) => w.draw(),
            GraphicElement::ProgressBar(w) => w.draw(),
            GraphicElement::PlayList(w) => w.draw(),
            GraphicElement::Spectrum(w) => w.draw(),
            GraphicElement::SoundPosition(w) => w.draw(),
            GraphicElement::Timer(w) => w.draw(),
        }
    }

    /// Whether `p` lies within the widget's bounds, edges included.
    pub fn is_inside(&self, p: Vec2) -> (r: bool)
        ensures
            r == rect_contains(self@.position(), self@.size(), p),
    {
        match self {
            GraphicElement::Button(w) => w.is_inside(p),
            GraphicElement::ProgressBar(w) => w.is_inside(p),
            GraphicElement::PlayList(w) => w.is_inside(p),
            GraphicElement::Spectrum(w) => w.is_inside(p),
            GraphicElement::SoundPosition(w) => w.is_inside(p),
            GraphicElement::Timer(w) => w.is_inside(p),
        }
    }

    pub fn clicked(&mut self, p: Vec2)
        requires
            old(self)@.wf(),
        ensures
            final(self)@ == old(self)@.clicked(p),
            final(self)@.wf(),
    {
        match self {
            GraphicElement::Button(w) => w.clicked(p),
            GraphicElement::ProgressBar(w) => w.clicked(p),
            GraphicElement::PlayList(w) => w.clicked(p),
            GraphicElement::SoundPosition(w) => w.clicked(p),
            _ => {},
        }
    }

    pub fn cursor_moved(&mut self, p: Vec2)
        requires
            old(self)@.wf(),
        ensures
            final(self)@ == old(self)@.hovered(p),
            final(self)@.wf(),
    {
        match self {
            GraphicElement::Button(w) => w.cursor_moved(p),
            GraphicElement::PlayList(w) => w.cursor_moved(p),
            _ => {},
        }
    }

    pub fn mouse_leave(&mut self)
        requires
            old(self)@.wf(),
        ensures
            final(self)@ == old(self)@.left(),
            final(self)@.wf(),
    {
        match self {
            GraphicElement::Button(w) => w.mouse_leave(),
            GraphicElement::PlayList(w) => w.mouse_leave(),
            _ => {},
        }
    }

    pub fn set_position(&mut self, p: Vec2)
        requires
            old(self)@.wf(),
            p.in_range(),
        ensures
            final(self)@ == old(self)@.moved(p),
            final(self)@.wf(),
    {
        match self {
            GraphicElement::Button(w) => w.set_position(p),
            GraphicElement::ProgressBar(w) => w.set_position(p),
            GraphicElement::PlayList(w) => w.set_position(p),
            GraphicElement::Spectrum(w) => w.set_position(p),
            GraphicElement::SoundPosition(w) => w.set_position(p),
            GraphicElement::Timer(w) => w.set_position(p),
        }
    }

    pub fn get_position(&self) -> (r: Vec2)
        ensures
            r == self@.position(),
    {
        match self {
            GraphicElement::Button(w) => w.get_position(),
            GraphicElement::ProgressBar(w) => w.get_position(),
            GraphicElement::PlayList(w) => w.get_position(),
            GraphicElement::Spectrum(w) => w.get_position(),
            GraphicElement::SoundPosition(w) => w.get_position(),
            GraphicElement::Timer(w) => w.get_position(),
        }
    }

    /// Resizes the widget, which refuses a size outside its minimum and maximum.
    pub fn set_size(&mut self, s: Vec2)
        requires
            old(self)@.wf(),
        ensures
            final(self)@ == old(self)@.resized(s),
            final(self)@.wf(),
    {
        match self {
            GraphicElement::Button(w) => w.set_size(s),
            GraphicElement::ProgressBar(w) => w.set_size(s),
            GraphicElement::PlayList(w) => w.set_size(s),
            GraphicElement::Spectrum(w) => w.set_size(s),
            GraphicElement::SoundPosition(w) => w.set_size(s),
            GraphicElement::Timer(w) => w.set_size(s),
        }
    }

    pub fn get_size(&self) -> (r: Vec2)
        ensures
            r == self@.size(),
    {
        match self {
            GraphicElement::Button(w) => w.get_size(),
            GraphicElement::ProgressBar(w) => w.get_size(),
            GraphicElement::PlayList(w) => w.get_size(),
            GraphicElement::Spectrum(w) => w.get_size(),
            GraphicElement::SoundPosition(w) => w.get_size(),
            GraphicElement::Timer(w) => w.get_size(),
        }
    }

    /// Forces the next `draw` to emit the widget.
    pub fn invalidate(&mut self)
        requires
            old(self)@.wf(),
        ensures
            final(self)@ == old(self)@.invalidated(),
            final(self)@.wf(),
    {
        match self {
            GraphicElement::Button(w) => w.invalidate(),
            GraphicElement::ProgressBar(w) => w.invalidate(),
            GraphicElement::PlayList(w) => w.invalidate(),
            GraphicElement::Spectrum(w) => w.invalidate(),
            GraphicElement::SoundPosition(w) => w.invalidate(),
            GraphicElement::Timer(w) => w.invalidate(),
        }
    }

    pub fn set_element_name(&mut self, name: &String)
        ensures
            final(self)@.name() == name@,
            final(self)@ == old(self)@.named(name@),
    {
        match self {
            GraphicElement::Button(w) => w.set_element_name(name),
            GraphicElement::ProgressBar(w) => w.set_element_name(name),
            GraphicElement::PlayList(w) => w.set_element_name(name),
            GraphicElement::Spectrum(w) => w.set_element_name(name),
            GraphicElement::SoundPosition(w) => w.set_element_name(name),
            GraphicElement::Timer(w) => w.set_element_name(name),
        }
    }

    pub fn get_element_name(&self) -> (r: &String)
        ensures
            r@ == self@.name(),
    {
        match self {
            GraphicElement::Button(w) => w.get_element_name(),
            GraphicElement::ProgressBar(w) => w.get_element_name(),
            GraphicElement::PlayList(w) => w.get_element_name(),
            GraphicElement::Spectrum(w) => w.get_element_name(),
            GraphicElement::SoundPosition(w) => w.get_element_name(),
            GraphicElement::Timer(w) => w.get_element_name(),
        }
    }
}

/// Drawing twice with no change in between emits the widget once: the second
/// call finds nothing to draw.
pub proof fn draw_is_idempotent(e: ElementModel)
    ensures
        e.cleared().drawn() == Seq::<Shape>::empty(),
        e.cleared().cleared() == e.cleared(),
{
}

} // verus!
