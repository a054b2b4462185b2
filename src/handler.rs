use vstd::prelude::*;
use vstd::string::StringExecFns;
use crate::button::{ButtonModel, GraphicButton};
use crate::geometry::{
    COORD_LIMIT,
    Color,
    Primitive,
    Shape,
    Vec2,
    lemma_shapes_append,
    rect_contains,
    shapes,
    vec2,
};
use crate::playlist::{PlayList, PlayListModel};
use crate::playlist_view::{GraphicPlayList, PlayListViewModel, PlayerError};
use crate::progress_bar::{ProgressBar, ProgressModel};
use crate::sound_position::{GraphicSoundPosition, SoundPositionModel};
use crate::spectrum::{GraphicSpectrum, SpectrumModel};
use crate::timer::{GraphicTimer, TimerModel};

verus! {

/// The keys that the player reacts to.
#[derive(Clone, Copy, Debug, PartialEq, Eq, Structural)]
pub enum Key {
    Escape,
    Up,
    Down,
    Space,
    Delete,
    BackSpace,
    R,
    Add,
    Subtract,
    Other,
}

/// An input event, as the window reports it.
#[derive(Clone, Copy, Debug, PartialEq, Eq, Structural)]
pub enum InputEvent {
    Closed,
    KeyPressed(Key),
    KeyReleased(Key),
    /// The left mouse button was released at a point.
    LeftReleased(Vec2),
    MouseMoved(Vec2),
    /// The wheel turned by this many notches, positive away from the user.
    WheelScrolled(i64),
}

/// What the audio side is to do after an event.
#[derive(Clone, Copy, Debug, PartialEq, Eq, Structural)]
pub enum Command {
    Nothing,
    Quit,
    /// Open and play the current track of the playlist.
    PlayCurrent,
    TogglePause,
    /// Set the volume, in percent.
    SetVolume(u64),
    /// Seek to a position, in milliseconds.
    Seek(u64),
    /// Move the listener, in thousandths of a unit across and ahead.
    SetListener(i64, i64),
}

/// What the audio side reported at the start of a frame.
#[derive(Clone, Copy, Debug, PartialEq, Eq, Structural)]
pub enum Playback {
    /// The track has ended.
    Stopped,
    /// The track plays, at this position in milliseconds.
    At(u64),
    /// The position could not be read this frame.
    Unreadable,
}

/// What the audio side is to do after a frame's report.
#[derive(Clone, Copy, Debug, PartialEq, Eq, Structural)]
pub enum FrameAction {
    Idle,
    /// The position moved: hand fresh spectrum bins to `update_spectrum`.
    Refresh,
    /// The track has ended: call `track_ended`, then open and play the
    /// current track of the playlist.
    Ended,
}

/// Ties the widgets to the playlist and turns input and playback reports
/// into commands for the audio side.
pub struct GraphicHandler {
    musics: GraphicPlayList,
    timer: GraphicTimer,
    music_bar: ProgressBar,
    volume_bar: ProgressBar,
    playlist: PlayList,
    spectrum: GraphicSpectrum,
    graph_sound: GraphicSoundPosition,
    spectrum_button: GraphicButton,
    position_button: GraphicButton,
    old_position: Option<u64>,
}

/// The state of a `GraphicHandler`.
pub struct HandlerModel {
    pub musics: PlayListViewModel,
    pub timer: TimerModel,
    pub music_bar: ProgressModel,
    pub volume_bar: ProgressModel,
    pub playlist: PlayListModel,
    pub spectrum: SpectrumModel,
    pub graph_sound: SoundPositionModel,
    pub spectrum_button: ButtonModel,
    pub position_button: ButtonModel,
    /// The playback position seen last, if any since the track started.
    pub old_position: Option<u64>,
}

/// `v` plus one, or `v` at the top of its range.
pub open spec fn one_more(v: nat) -> nat {
    if v < u64::MAX {
        v + 1
    } else {
        v
    }
}

/// `v` minus one, or zero.
pub open spec fn one_less(v: nat) -> nat {
    if v > 0 {
        (v - 1) as nat
    } else {
        0
    }
}

impl HandlerModel {
    pub open spec fn wf(self) -> bool {
        &&& self.musics.wf()
        &&& self.timer.wf()
        &&& self.music_bar.wf()
        &&& self.volume_bar.wf()
        &&& self.playlist.wf()
        &&& self.spectrum.wf()
        &&& self.graph_sound.wf()
        &&& self.spectrum_button.wf()
        &&& self.position_button.wf()
        &&& self.spectrum_button.pushed != self.position_button.pushed
        &&& self.musics.tracks == self.playlist.tracks
    }

    /// The current track opened, `length` milliseconds long: the playlist
    /// view shows it as current and the music bar spans it.
    pub open spec fn opened(self, length: nat) -> HandlerModel {
        HandlerModel {
            musics: self.musics.with_current(self.playlist.pos, false),
            music_bar: self.music_bar.with_maximum(length),
            old_position: None,
            ..self
        }
    }

    /// Every widget to be drawn at the next frame.
    pub open spec fn invalidated(self) -> HandlerModel {
        HandlerModel {
            musics: PlayListViewModel { need_to_draw: true, ..self.musics },
            timer: TimerModel { need_to_draw: true, ..self.timer },
            music_bar: ProgressModel { need_to_draw: true, ..self.music_bar },
            volume_bar: ProgressModel { need_to_draw: true, ..self.volume_bar },
            spectrum: SpectrumModel { need_to_draw: true, ..self.spectrum },
            graph_sound: SoundPositionModel { need_to_draw: true, ..self.graph_sound },
            spectrum_button: ButtonModel { need_to_draw: true, ..self.spectrum_button },
            position_button: ButtonModel { need_to_draw: true, ..self.position_button },
            ..self
        }
    }

    /// The state and the command after a click at `p`: the first of the music
    /// bar, the volume bar, the playlist, the 3D pad (when shown) and the two
    /// tab buttons whose bounds hold `p` takes it.
    pub open spec fn on_click(self, p: Vec2) -> (HandlerModel, Command) {
        if rect_contains(self.music_bar.position, self.music_bar.size, p) {
            let bar = self.music_bar.clicked(p);
            (HandlerModel { music_bar: bar, ..self }, Command::Seek(bar.real_value as u64))
        } else if rect_contains(self.volume_bar.position, self.volume_bar.size, p) {
            let bar = self.volume_bar.clicked(p);
            (HandlerModel { volume_bar: bar, ..self }, Command::SetVolume(bar.real_value as u64))
        } else if rect_contains(self.musics.position, self.musics.size, p) {
            let view = self.musics.clicked(p);
            if view.current != self.musics.current {
                (
                    HandlerModel {
                        musics: view,
                        playlist: self.playlist.with_actual(view.current),
                        ..self
                    },
                    Command::PlayCurrent,
                )
            } else {
                (HandlerModel { musics: view, ..self }, Command::Nothing)
            }
        } else if !self.spectrum_button.pushed && rect_contains(
            self.graph_sound.position,
            self.graph_sound.size,
            p,
        ) {
            let pad = self.graph_sound.clicked(p);
            (
                HandlerModel { graph_sound: pad, ..self },
                Command::SetListener(pad.x as i64, pad.y as i64),
            )
        } else if rect_contains(self.spectrum_button.position, self.spectrum_button.size, p)
            && !self.spectrum_button.pushed {
            (
                HandlerModel {
                    spectrum_button: self.spectrum_button.with_pushed(true),
                    position_button: self.position_button.with_pushed(
                        !self.position_button.pushed,
                    ),
                    spectrum: SpectrumModel { need_to_draw: true, ..self.spectrum },
                    ..self
                },
                Command::Nothing,
            )
        } else if rect_contains(self.position_button.position, self.position_button.size, p)
            && !self.position_button.pushed {
            (
                HandlerModel {
                    position_button: self.position_button.with_pushed(true),
                    spectrum_button: self.spectrum_button.with_pushed(
                        !self.spectrum_button.pushed,
                    ),
                    graph_sound: SoundPositionModel { need_to_draw: true, ..self.graph_sound },
                    ..self
                },
                Command::Nothing,
            )
        } else {
            (self, Command::Nothing)
        }
    }

    /// The cursor moved to `p`: the playlist and the tab buttons under it are
    /// hovered, the others left.
    pub open spec fn on_move(self, p: Vec2) -> HandlerModel {
        HandlerModel {
            musics: if rect_contains(self.musics.position, self.musics.size, p) {
                self.musics.hovered(p)
            } else {
                self.musics.left()
            },
            spectrum_button: if rect_contains(
                self.spectrum_button.position,
                self.spectrum_button.size,
                p,
            ) {
                self.spectrum_button.hovered()
            } else {
                self.spectrum_button.left()
            },
            position_button: if rect_contains(
                self.position_button.position,
                self.position_button.size,
                p,
            ) {
                self.position_button.hovered()
            } else {
                self.position_button.left()
            },
            ..self
        }
    }

    /// The state and the outcome after input event `e`.
    pub open spec fn on_event(self, e: InputEvent) -> (HandlerModel, Result<Command, PlayerError>) {
        match e {
            InputEvent::Closed => (self, Ok(Command::Quit)),
            InputEvent::KeyReleased(k) => match k {
                Key::Escape => (self, Ok(Command::Quit)),
                Key::Up => if self.playlist.tracks.len() == 0 {
                    (self, Err(PlayerError::NoMoreMusic))
                } else {
                    (
                        HandlerModel { playlist: self.playlist.retreated(), ..self },
                        Ok(Command::PlayCurrent),
                    )
                },
                Key::Down => if self.playlist.tracks.len() == 0 {
                    (self, Err(PlayerError::NoMoreMusic))
                } else {
                    (
                        HandlerModel { playlist: self.playlist.advanced(), ..self },
                        Ok(Command::PlayCurrent),
                    )
                },
                Key::Space => (self, Ok(Command::TogglePause)),
                Key::Delete => {
                    let after = HandlerModel {
                        musics: self.musics.removed(self.playlist.pos),
                        playlist: self.playlist.removed_current(),
                        ..self
                    };
                    if after.playlist.tracks.len() == 0 {
                        (after, Err(PlayerError::NoMoreMusic))
                    } else {
                        (after, Ok(Command::PlayCurrent))
                    }
                },
                Key::BackSpace => (
                    HandlerModel { graph_sound: self.graph_sound.reset(), ..self },
                    Ok(Command::SetListener(0, 0)),
                ),
                Key::R => (
                    HandlerModel {
                        playlist: PlayListModel { repeat: !self.playlist.repeat, ..self.playlist },
                        ..self
                    },
                    Ok(Command::Nothing),
                ),
                _ => (self, Ok(Command::Nothing)),
            },
            InputEvent::KeyPressed(k) => match k {
                Key::Add => {
                    let bar = self.volume_bar.with_progress(one_more(self.volume_bar.real_value));
                    (
                        HandlerModel { volume_bar: bar, ..self },
                        Ok(Command::SetVolume(bar.real_value as u64)),
                    )
                },
                Key::Subtract => {
                    let bar = self.volume_bar.with_progress(one_less(self.volume_bar.real_value));
                    (
                        HandlerModel { volume_bar: bar, ..self },
                        Ok(Command::SetVolume(bar.real_value as u64)),
                    )
                },
                _ => (self, Ok(Command::Nothing)),
            },
            InputEvent::LeftReleased(p) => {
                let (m, c) = self.on_click(p);
                (m, Ok(c))
            },
            InputEvent::MouseMoved(p) => (self.on_move(p), Ok(Command::Nothing)),
            InputEvent::WheelScrolled(d) => (
                HandlerModel { musics: self.musics.scrolled(self.musics.scroll - d), ..self },
                Ok(Command::Nothing),
            ),
        }
    }

    /// What a frame draws, in order.
    pub open spec fn drawn(self) -> Seq<Shape> {
        self.musics.drawn() + self.volume_bar.drawn() + self.timer.drawn()
            + self.spectrum_button.drawn() + self.position_button.drawn() + (
        if self.spectrum_button.pushed {
            self.spectrum.drawn()
        } else {
            self.graph_sound.drawn()
        }) + self.music_bar.drawn()
    }

    /// Everything drawn that a frame draws.
    pub open spec fn cleared(self) -> HandlerModel {
        HandlerModel {
            musics: self.musics.cleared(),
            volume_bar: self.volume_bar.cleared(),
            timer: self.timer.cleared(),
            spectrum_button: self.spectrum_button.cleared(),
            position_button: self.position_button.cleared(),
            spectrum: if self.spectrum_button.pushed {
                self.spectrum.cleared()
            } else {
                self.spectrum
            },
            graph_sound: if self.spectrum_button.pushed {
                self.graph_sound
            } else {
                self.graph_sound.cleared()
            },
            music_bar: self.music_bar.cleared(),
            ..self
        }
    }

    /// The state after a track has ended: the cursor on the track that is to
    /// follow, and no playback position seen yet.
    pub open spec fn ended(self) -> HandlerModel {
        HandlerModel { playlist: self.playlist.after_end(), old_position: None, ..self }
    }

    /// The state and the action after a frame's playback report. A new
    /// position moves the music bar and the timer; the end of a track
    /// changes nothing and is reported.
    pub open spec fn on_frame(self, report: Playback) -> (HandlerModel, FrameAction) {
        match report {
            Playback::Stopped => (self, FrameAction::Ended),
            Playback::At(p) => if self.old_position == Some(p) {
                (self, FrameAction::Idle)
            } else {
                let text = crate::timer::time_text(p as nat, self.music_bar.maximum);
                (
                    HandlerModel {
                        timer: if text == self.timer.text {
                            self.timer
                        } else {
                            TimerModel { text, need_to_draw: true, ..self.timer }
                        },
                        music_bar: self.music_bar.with_progress(p as nat),
                        old_position: Some(p),
                        ..self
                    },
                    FrameAction::Refresh,
                )
            },
            Playback::Unreadable => (self, FrameAction::Idle),
        }
    }
}

impl View for GraphicHandler {
    type V = HandlerModel;

    closed spec fn view(&self) -> HandlerModel {
        HandlerModel {
            musics: self.musics@,
            timer: self.timer@,
            music_bar: self.music_bar@,
            volume_bar: self.volume_bar@,
            playlist: self.playlist.model(),
            spectrum: self.spectrum@,
            graph_sound: self.graph_sound@,
            spectrum_button: self.spectrum_button@,
            position_button: self.position_button@,
            old_position: self.old_position,
        }
    }
}

impl GraphicHandler {
    /// Lays the widgets out in a window of size `window` and fills the
    /// playlist view from `playlist`. The tab labels, "Spectrum" and
    /// "3D position", are as wide as given when rendered.
    pub fn new(
        window: Vec2,
        playlist: PlayList,
        spectrum_label_width: i64,
        position_label_width: i64,
    ) -> (r: GraphicHandler)
        requires
            0 <= window.x <= COORD_LIMIT / 2,
            0 <= window.y <= COORD_LIMIT / 2,
            playlist.wf(),
            playlist.tracks().len() + 1 < COORD_LIMIT,
            0 <= spectrum_label_width <= COORD_LIMIT,
            0 <= position_label_width <= COORD_LIMIT,
        ensures
            r@.wf(),
            r@.playlist == playlist.model(),
            r@.musics.tracks == playlist.tracks(),
            r@.musics.position == vec2(513, 0),
            r@.musics.size == vec2(window.x - 511, window.y - 32),
            r@.timer.position == vec2(634, window.y - 34),
            r@.timer.size == vec2(window.x - 633, 27),
            r@.music_bar.position == vec2(-1, window.y - 8),
            r@.music_bar.size == vec2(window.x + 2, 8),
            r@.music_bar.maximum == 1,
            r@.volume_bar.position == vec2(512, window.y - 30),
            r@.volume_bar.size == vec2(120, 20),
            r@.volume_bar.maximum == 100,
            r@.volume_bar.real_value == 100,
            r@.spectrum.position == vec2(0, 25),
            r@.spectrum.size == vec2(
                512,
                if window.y >= 33 {
                    window.y - 33
                } else {
                    0
                },
            ),
            r@.graph_sound.position == vec2(0, 26),
            r@.graph_sound.size == vec2(512, window.y - 35),
            r@.spectrum_button.position == vec2(0, 0),
            r@.spectrum_button.size == vec2(256, 25),
            r@.spectrum_button.pushed,
            r@.spectrum_button.label == "Spectrum"@,
            r@.position_button.label == "3D position"@,
            r@.position_button.position == vec2(256, 0),
            r@.position_button.size == vec2(256, 25),
            !r@.position_button.pushed,
            r@.old_position is None,
    {
        let w = window.x;
        let h = window.y;
        let mut musics = GraphicPlayList::new_init(
            Vec2::new(w - 511, h - 32),
            Vec2::new(513, 0),
            Color::rgb(0, 0, 0),
        );
        let timer = GraphicTimer::new_init(
            Vec2::new(w - 633, 27),
            Vec2::new(634, h - 34),
            Color::rgb(0, 0, 0),
        );
        let mut music_bar = ProgressBar::new_init(
            Vec2::new(w + 2, 8),
            Vec2::new(-1, h - 8),
            Color::rgb(255, 255, 255),
        );
        let mut volume_bar = ProgressBar::new_init(
            Vec2::new(120, 20),
            Vec2::new(512, h - 30),
            Color::rgb(255, 25, 25),
        );
        let mut spectrum_button = GraphicButton::new_init(
            Vec2::new(256, 25),
            Vec2::new(0, 0),
            Color::rgb(0, 0, 0),
        );
        let mut position_button = GraphicButton::new_init(
            Vec2::new(256, 25),
            Vec2::new(256, 0),
            Color::rgb(0, 0, 0),
        );
        let spectrum = GraphicSpectrum::new_init(
            Vec2::new(512, h - 33),
            Vec2::new(0, 25),
            Color::rgb(50, 100, 30),
        );
        let graph_sound = GraphicSoundPosition::new_init(
            Vec2::new(512, h - 35),
            Vec2::new(0, 26),
            Color::rgb(0, 0, 0),
        );
        music_bar.set_maximum(1);
        let paths = playlist.to_vec();
        musics.push_musics(&paths);
        volume_bar.set_maximum(100);
        volume_bar.set_progress(100);
        spectrum_button.set_pushed(true);
        proof {
            reveal_strlit("Spectrum");
            reveal_strlit("3D position");
        }
        let spectrum_label = String::from_str("Spectrum");
        let position_label = String::from_str("3D position");
        spectrum_button.set_label(&spectrum_label, spectrum_label_width);
        position_button.set_label(&position_label, position_label_width);
        GraphicHandler {
            musics,
            timer,
            music_bar,
            volume_bar,
            playlist,
            spectrum,
            graph_sound,
            spectrum_button,
            position_button,
            old_position: None,
        }
    }

    /// The path of the current track, if the playlist holds any.
    pub fn current_track(&self) -> (r: Option<String>)
        requires
            self@.wf(),
        ensures
            self@.playlist.tracks.len() == 0 <==> r is None,
            r matches Some(t) ==> t@ == self@.playlist.tracks[self@.playlist.pos as int],
    {
        if self.playlist.get_nb_musics() == 0 {
            None
        } else {
            Some(self.playlist.get_current())
        }
    }

    /// The current track was opened, `length` milliseconds long: the playlist
    /// view shows it and the music bar spans it. Returns whether the track is
    /// to loop, which it does when it is the only one.
    pub fn track_opened(&mut self, length: u64) -> (looping: bool)
        requires
            old(self)@.wf(),
        ensures
            final(self)@.wf(),
            looping == (old(self)@.playlist.tracks.len() <= 1),
            final(self)@ == old(self)@.opened(length as nat),
    {
        let pos = self.playlist.get_pos();
        self.musics.set_current(pos);
        self.music_bar.set_maximum(length);
        self.old_position = None;
        self.playlist.get_nb_musics() <= 1
    }

    /// The current track could not be opened: it leaves the playlist and its
    /// view. Returns the path of the track to try next, or `NoMoreMusic`
    /// when none is left.
    pub fn track_failed(&mut self) -> (r: Result<String, PlayerError>)
        requires
            old(self)@.wf(),
        ensures
            final(self)@.wf(),
            final(self)@ == (HandlerModel {
                musics: old(self)@.musics.removed(old(self)@.playlist.pos),
                playlist: old(self)@.playlist.removed_current(),
                ..old(self)@
            }),
            r is Err <==> final(self)@.playlist.tracks.len() == 0,
            r matches Ok(t) ==> t@ == final(self)@.playlist.tracks[final(self)@.playlist.pos as int],
    {
        let pos = self.playlist.get_pos();
        let _ = self.musics.remove_music(pos);
        self.playlist.remove_current();
        if self.playlist.get_nb_musics() == 0 {
            Err(PlayerError::NoMoreMusic)
        } else {
            Ok(self.playlist.get_current())
        }
    }

    /// Moves the music bar to `position` milliseconds.
    pub fn set_music_position(&mut self, position: u64)
        requires
            old(self)@.wf(),
        ensures
            final(self)@.wf(),
            final(self)@ == (HandlerModel {
                music_bar: old(self)@.music_bar.with_progress(position as nat),
                ..old(self)@
            }),
    {
        self.music_bar.set_progress(position);
    }

    /// The volume, in percent.
    pub fn get_volume(&self) -> (r: u64)
        ensures
            r == self@.volume_bar.real_value,
    {
        self.volume_bar.get_real_value()
    }

    /// The listener position, in thousandths of a unit across and ahead.
    pub fn get_listener(&self) -> (r: (i64, i64))
        ensures
            r == (self@.graph_sound.x as i64, self@.graph_sound.y as i64),
    {
        (self.graph_sound.get_x(), self.graph_sound.get_y())
    }

    /// The text the timer shows, to be measured for `set_timer_text_width`.
    pub fn timer_text(&self) -> (r: String)
        ensures
            r@ == self@.timer.text,
    {
        self.timer.get_text().clone()
    }

    pub fn set_timer_text_width(&mut self, width: i64)
        requires
            old(self)@.wf(),
            0 <= width <= COORD_LIMIT,
        ensures
            final(self)@.wf(),
            final(self)@.timer == (if width as int == old(self)@.timer.text_width {
                old(self)@.timer
            } else {
                TimerModel { text_width: width as int, need_to_draw: true, ..old(self)@.timer }
            }),
            final(self)@ == (HandlerModel { timer: final(self)@.timer, ..old(self)@ }),
    {
        self.timer.set_text_width(width);
    }

    /// Hands fresh spectrum bins of both channels, in millionths, to the
    /// spectrum view; bins past its last bar are ignored.
    pub fn update_spectrum(&mut self, left: &Vec<i64>, right: &Vec<i64>)
        requires
            old(self)@.wf(),
        ensures
            final(self)@.wf(),
            final(self)@ == (HandlerModel {
                spectrum: old(self)@.spectrum.updated(left@, right@),
                ..old(self)@
            }),
    {
        self.spectrum.update_spectrum(left, right);
    }

    /// Marks every widget to be drawn at the next `update`, as after the
    /// window was cleared.
    pub fn invalidate(&mut self)
        requires
            old(self)@.wf(),
        ensures
            final(self)@.wf(),
            final(self)@ == old(self)@.invalidated(),
    {
        self.musics.invalidate();
        self.timer.invalidate();
        self.music_bar.invalidate();
        self.volume_bar.invalidate();
        self.spectrum.invalidate();
        self.graph_sound.invalidate();
        self.spectrum_button.invalidate();
        self.position_button.invalidate();
    }

    /// The current track has ended: moves to the one that is to follow (the
    /// same one when repeating). Fails with `NoMoreMusic`, changing nothing,
    /// when the playlist is empty.
    pub fn track_ended(&mut self) -> (r: Result<(), PlayerError>)
        requires
            old(self)@.wf(),
        ensures
            final(self)@.wf(),
            old(self)@.playlist.tracks.len() == 0 ==> r is Err && final(self)@ == old(self)@,
            old(self)@.playlist.tracks.len() > 0 ==> r is Ok && final(self)@ == old(self)@.ended(),
    {
        if self.playlist.get_nb_musics() == 0 {
            return Err(PlayerError::NoMoreMusic);
        }
        if !self.playlist.get_repeat() {
            let _ = self.playlist.get_next();
        }
        self.old_position = None;
        Ok(())
    }

    /// Takes the frame's playback report.
    pub fn main_loop(&mut self, report: Playback) -> (r: FrameAction)
        requires
            old(self)@.wf(),
        ensures
            final(self)@.wf(),
            (final(self)@, r) == old(self)@.on_frame(report),
    {
        match report {
            Playback::Stopped => FrameAction::Ended,
            Playback::At(p) => {
                if self.old_position == Some(p) {
                    return FrameAction::Idle;
                }
                let length = self.music_bar.get_maximum();
                let _ = self.timer.update_display(p, length);
                self.music_bar.set_progress(p);
                self.old_position = Some(p);
                FrameAction::Refresh
            },
            Playback::Unreadable => FrameAction::Idle,
        }
    }

    fn click(&mut self, p: Vec2) -> (r: Command)
        requires
            old(self)@.wf(),
        ensures
            final(self)@.wf(),
            (final(self)@, r) == old(self)@.on_click(p),
    {
        if self.music_bar.is_inside(p) {
            self.music_bar.clicked(p);
            Command::Seek(self.music_bar.get_real_value())
        } else if self.volume_bar.is_inside(p) {
            self.volume_bar.clicked(p);
            Command::SetVolume(self.volume_bar.get_real_value())
        } else if self.musics.is_inside(p) {
            let old_c = self.musics.get_current();
            self.musics.clicked(p);
            if old_c != self.musics.get_current() {
                let c = self.musics.get_current();
                self.playlist.set_actual(c);
                Command::PlayCurrent
            } else {
                Command::Nothing
            }
        } else if !self.spectrum_button.is_pushed() && self.graph_sound.is_inside(p) {
            self.graph_sound.clicked(p);
            Command::SetListener(self.graph_sound.get_x(), self.graph_sound.get_y())
        } else if self.spectrum_button.is_inside(p) && !self.spectrum_button.is_pushed() {
            self.spectrum_button.clicked(p);
            self.position_button.clicked(p);
            self.spectrum.invalidate();
            Command::Nothing
        } else if self.position_button.is_inside(p) && !self.position_button.is_pushed() {
            self.position_button.clicked(p);
            self.spectrum_button.clicked(p);
            self.graph_sound.invalidate();
            Command::Nothing
        } else {
            Command::Nothing
        }
    }

    /// Takes one input event: updates the widgets and the playlist, and says
    /// what the audio side is to do. Fails with `NoMoreMusic` where a track is
    /// to play and the playlist is empty.
    pub fn handle_event(&mut self, event: InputEvent) -> (r: Result<Command, PlayerError>)
        requires
            old(self)@.wf(),
        ensures
            final(self)@.wf(),
            (final(self)@, r) == old(self)@.on_event(event),
    {
        match event {
            InputEvent::Closed => Ok(Command::Quit),
            InputEvent::KeyReleased(k) => match k {
                Key::Escape => Ok(Command::Quit),
                Key::Up => {
                    if self.playlist.get_nb_musics() == 0 {
                        return Err(PlayerError::NoMoreMusic);
                    }
                    let _ = self.playlist.get_prev();
                    Ok(Command::PlayCurrent)
                },
                Key::Down => {
                    if self.playlist.get_nb_musics() == 0 {
                        return Err(PlayerError::NoMoreMusic);
                    }
                    let _ = self.playlist.get_next();
                    Ok(Command::PlayCurrent)
                },
                Key::Space => Ok(Command::TogglePause),
                Key::Delete => {
                    let pos = self.playlist.get_pos();
                    let _ = self.musics.remove_music(pos);
                    self.playlist.remove_current();
                    if self.playlist.get_nb_musics() == 0 {
                        Err(PlayerError::NoMoreMusic)
                    } else {
                        Ok(Command::PlayCurrent)
                    }
                },
                Key::BackSpace => {
                    self.graph_sound.reset_cross_pos();
                    Ok(Command::SetListener(0, 0))
                },
                Key::R => {
                    let repeat = self.playlist.get_repeat();
                    self.playlist.set_repeat(!repeat);
                    Ok(Command::Nothing)
                },
                _ => Ok(Command::Nothing),
            },
            InputEvent::KeyPressed(k) => match k {
                Key::Add => {
                    let v = self.volume_bar.get_real_value();
                    let next = if v < u64::MAX {
                        v + 1
                    } else {
                        v
                    };
                    self.volume_bar.set_progress(next);
                    Ok(Command::SetVolume(self.volume_bar.get_real_value()))
                },
                Key::Subtract => {
                    let v = self.volume_bar.get_real_value();
                    let next = if v > 0 {
                        v - 1
                    } else {
                        0
                    };
                    self.volume_bar.set_progress(next);
                    Ok(Command::SetVolume(self.volume_bar.get_real_value()))
                },
                _ => Ok(Command::Nothing),
            },
            InputEvent::LeftReleased(p) => Ok(self.click(p)),
            InputEvent::MouseMoved(p) => {
                if self.musics.is_inside(p) {
                    self.musics.cursor_moved(p);
                } else {
                    self.musics.mouse_leave();
                }
                if self.spectrum_button.is_inside(p) {
                    self.spectrum_button.cursor_moved(p);
                } else {
                    self.spectrum_button.mouse_leave();
                }
                if self.position_button.is_inside(p) {
                    self.position_button.cursor_moved(p);
                } else {
                    self.position_button.mouse_leave();
                }
                Ok(Command::Nothing)
            },
            InputEvent::WheelScrolled(d) => {
                let len = self.musics.get_nb_musics();
                let t: i128 = self.musics.get_add_to_view() as i128 - d as i128;
                let c: usize = if t < 0 {
                    0
                } else if t > len as i128 {
                    len
                } else {
                    t as usize
                };
                self.musics.set_to_add(c as isize);
                Ok(Command::Nothing)
            },
        }
    }

    /// Draws what changed since the last frame: the playlist, the volume bar,
    /// the timer, the tab buttons, the spectrum or the 3D pad (whichever tab
    /// is pushed), and the music bar.
    pub fn update(&mut self) -> (r: Vec<Primitive>)
        requires
            old(self)@.wf(),
        ensures
            final(self)@.wf(),
            final(self)@ == old(self)@.cleared(),
            shapes(r@) == old(self)@.drawn(),
    {
        let mut r = self.musics.draw();
        let mut part = self.volume_bar.draw();
        proof {
            lemma_shapes_append(r@, part@);
        }
        r.append(&mut part);
        let mut part = self.timer.draw();
        proof {
            lemma_shapes_append(r@, part@);
        }
        r.append(&mut part);
        let mut part = self.spectrum_button.draw();
        proof {
            lemma_shapes_append(r@, part@);
        }
        r.append(&mut part);
        let mut part = self.position_button.draw();
        proof {
            lemma_shapes_append(r@, part@);
        }
        r.append(&mut part);
        if self.spectrum_button.is_pushed() {
            let mut part = self.spectrum.draw();
            proof {
                lemma_shapes_append(r@, part@);
            }
            r.append(&mut part);
        } else {
            let mut part = self.graph_sound.draw();
            proof {
                lemma_shapes_append(r@, part@);
            }
            r.append(&mut part);
        }
        let mut part = self.music_bar.draw();
        proof {
            lemma_shapes_append(r@, part@);
        }
        r.append(&mut part);
        r
    }
}

/// When a track ends, the frame's report changes nothing; then, with the
/// playlist not empty, the next track is to be played (the same one again
/// when repeating), and once it is opened the playlist view shows that
/// track as current.
pub proof fn track_end_moves_on(m: HandlerModel, length: nat)
    requires
        m.wf(),
        m.playlist.tracks.len() > 0,
    ensures
        ({
            let after = m.ended();
            let pos = m.playlist.pos;
            let len = m.playlist.tracks.len();
            &&& m.on_frame(Playback::Stopped) == (m, FrameAction::Ended)
            &&& after.playlist.pos == (if m.playlist.repeat {
                pos
            } else if pos + 1 == len {
                0
            } else {
                pos + 1
            })
            &&& after.playlist.tracks == m.playlist.tracks
            &&& after.opened(length).musics.current == after.playlist.pos
        }),
{
}

} // verus!
