use music_player::button::GraphicButton;
use music_player::container::GraphicContainer;
use music_player::element::GraphicElement;
use music_player::geometry::{Color, Vec2};
use music_player::handler::{Command, FrameAction, GraphicHandler, InputEvent, Key, Playback};
use music_player::playlist::PlayList;
use music_player::playlist_view::PlayerError;
use music_player::progress_bar::ProgressBar;
use music_player::sound_position::GraphicSoundPosition;
use music_player::spectrum::GraphicSpectrum;

fn v(x: i64, y: i64) -> Vec2 {
    Vec2::new(x, y)
}

fn black() -> Color {
    Color::rgb(0, 0, 0)
}

#[test]
fn two_wide_tabs_widen_the_container() {
    let mut c = GraphicContainer::new_init(v(100, 60), v(0, 0), black());
    let a = GraphicElement::Spectrum(GraphicSpectrum::new_init(v(512, 200), v(0, 0), black()));
    let b = GraphicElement::SoundPosition(GraphicSoundPosition::new_init(v(300, 100), v(0, 0), black()));
    c.add_tab(&"Spectrum".to_string(), 70, a);
    c.add_tab(&"3D position".to_string(), 90, b);
    assert_eq!(c.get_size(), v(512, 225));
    assert_eq!(c.get_nb_tabs(), 2);
    assert_eq!(c.get_button(0).get_size(), v(256, 25));
    assert_eq!(c.get_button(1).get_size(), v(256, 25));
    assert_eq!(c.get_button(1).get_position(), v(256, 0));
    assert_eq!(c.get_widget(0).get_size(), v(512, 200));
    assert_eq!(c.get_widget(1).get_size(), v(300, 100));
    assert_eq!(c.get_widget(1).get_position(), v(0, 25));
    assert_eq!(c.get_current_tab(), 0);
    assert!(c.get_button(0).is_pushed());
}

#[test]
fn clicking_a_tab_switches_content() {
    let mut c = GraphicContainer::new_init(v(400, 200), v(0, 0), black());
    let bar = GraphicElement::ProgressBar(ProgressBar::new_init(v(400, 10), v(0, 0), black()));
    let pad = GraphicElement::SoundPosition(GraphicSoundPosition::new_init(v(100, 100), v(0, 0), black()));
    c.add_tab(&"one".to_string(), 20, bar);
    c.add_tab(&"two".to_string(), 20, pad);
    c.clicked(v(300, 10));
    assert_eq!(c.get_current_tab(), 1);
    assert!(c.get_button(1).is_pushed());
    assert!(!c.get_button(0).is_pushed());
    // the active tab again: nothing happens
    c.clicked(v(300, 10));
    assert_eq!(c.get_current_tab(), 1);
    c.clicked(v(50, 10));
    assert_eq!(c.get_current_tab(), 0);
}

#[test]
fn container_draws_buttons_and_current_content() {
    let mut c = GraphicContainer::new_init(v(400, 200), v(0, 0), black());
    let b = GraphicElement::Button(GraphicButton::new_init(v(50, 50), v(0, 0), black()));
    c.add_tab(&"x".to_string(), 5, b);
    assert_eq!(c.draw().len(), 4);
    assert!(c.draw().is_empty());
}

fn handler(tracks: &[&str]) -> GraphicHandler {
    let paths: Vec<String> = tracks.iter().map(|s| s.to_string()).collect();
    let flags = vec![true; paths.len()];
    let p = PlayList::from_vec(&paths, &flags);
    GraphicHandler::new(v(800, 600), p, 70, 90)
}

#[test]
fn track_end_moves_to_next_or_repeats() {
    let mut h = handler(&["one.mp3", "two.mp3", "three.mp3"]);
    assert_eq!(h.current_track(), Some("one.mp3".to_string()));
    assert!(!h.track_opened(180_000));
    assert_eq!(h.main_loop(Playback::At(1_000)), FrameAction::Refresh);
    assert_eq!(h.main_loop(Playback::Stopped), FrameAction::Ended);
    assert_eq!(h.current_track(), Some("one.mp3".to_string()));
    assert_eq!(h.track_ended(), Ok(()));
    assert_eq!(h.current_track(), Some("two.mp3".to_string()));
    h.track_opened(180_000);
    assert_eq!(h.main_loop(Playback::At(1_000)), FrameAction::Refresh);

    let mut h = handler(&["one.mp3", "two.mp3", "three.mp3"]);
    assert_eq!(h.handle_event(InputEvent::KeyReleased(Key::R)), Ok(Command::Nothing));
    assert_eq!(h.main_loop(Playback::Stopped), FrameAction::Ended);
    assert_eq!(h.track_ended(), Ok(()));
    assert_eq!(h.current_track(), Some("one.mp3".to_string()));
}

#[test]
fn frame_refreshes_only_on_a_new_position() {
    let mut h = handler(&["one.mp3"]);
    assert!(h.track_opened(120_000));
    assert_eq!(h.main_loop(Playback::At(61_000)), FrameAction::Refresh);
    assert_eq!(h.timer_text(), "01:01 / 02:00");
    assert_eq!(h.main_loop(Playback::At(61_000)), FrameAction::Idle);
    assert_eq!(h.main_loop(Playback::Unreadable), FrameAction::Idle);
}

#[test]
fn failed_tracks_are_dropped_until_none_is_left() {
    let mut h = handler(&["one.mp3", "two.mp3"]);
    assert_eq!(h.track_failed(), Ok("two.mp3".to_string()));
    assert_eq!(h.track_failed(), Err(PlayerError::NoMoreMusic));
    assert_eq!(h.current_track(), None);
    assert_eq!(h.main_loop(Playback::Stopped), FrameAction::Ended);
    assert_eq!(h.track_ended(), Err(PlayerError::NoMoreMusic));
}

#[test]
fn keys_drive_playlist_and_volume() {
    let mut h = handler(&["one.mp3", "two.mp3", "three.mp3"]);
    assert_eq!(h.handle_event(InputEvent::KeyReleased(Key::Up)), Ok(Command::PlayCurrent));
    assert_eq!(h.current_track(), Some("three.mp3".to_string()));
    assert_eq!(h.handle_event(InputEvent::KeyReleased(Key::Down)), Ok(Command::PlayCurrent));
    assert_eq!(h.current_track(), Some("one.mp3".to_string()));
    assert_eq!(h.get_volume(), 100);
    assert_eq!(h.handle_event(InputEvent::KeyPressed(Key::Add)), Ok(Command::SetVolume(100)));
    assert_eq!(h.handle_event(InputEvent::KeyPressed(Key::Subtract)), Ok(Command::SetVolume(99)));
    assert_eq!(h.handle_event(InputEvent::KeyReleased(Key::Space)), Ok(Command::TogglePause));
    assert_eq!(h.handle_event(InputEvent::KeyReleased(Key::Escape)), Ok(Command::Quit));
    assert_eq!(h.handle_event(InputEvent::Closed), Ok(Command::Quit));
    assert_eq!(h.handle_event(InputEvent::KeyReleased(Key::BackSpace)), Ok(Command::SetListener(0, 0)));
}

#[test]
fn delete_removes_until_empty() {
    let mut h = handler(&["one.mp3", "two.mp3"]);
    assert_eq!(h.handle_event(InputEvent::KeyReleased(Key::Delete)), Ok(Command::PlayCurrent));
    assert_eq!(h.current_track(), Some("two.mp3".to_string()));
    assert_eq!(h.handle_event(InputEvent::KeyReleased(Key::Delete)), Err(PlayerError::NoMoreMusic));
}

#[test]
fn clicks_go_to_the_widget_under_them() {
    let mut h = handler(&["one.mp3", "two.mp3", "three.mp3"]);
    h.track_opened(100_000);
    // volume bar at (512, 570), 120 wide: track from 514, 116 pixels
    assert_eq!(h.handle_event(InputEvent::LeftReleased(v(514 + 58, 580))), Ok(Command::SetVolume(50)));
    // music bar at (-1, 592), 802 wide: track from 1, 798 pixels
    assert_eq!(h.handle_event(InputEvent::LeftReleased(v(1 + 399, 596))), Ok(Command::Seek(50_000)));
    // the third row of the playlist
    assert_eq!(h.handle_event(InputEvent::LeftReleased(v(600, 1 + 44 + 3))), Ok(Command::PlayCurrent));
    assert_eq!(h.current_track(), Some("three.mp3".to_string()));
    // switch to the 3D tab, then click the pad halfway from its centre
    // (256, 26 + 282) to its rim (radius 512 / 2 - 2)
    assert_eq!(h.handle_event(InputEvent::LeftReleased(v(300, 10))), Ok(Command::Nothing));
    assert_eq!(h.handle_event(InputEvent::LeftReleased(v(256 + 127, 308))), Ok(Command::SetListener(-15_000, 0)));
    assert_eq!(h.get_listener(), (-15_000, 0));
}

#[test]
fn wheel_scrolls_the_playlist() {
    let names: Vec<String> = (0..40).map(|i| format!("t{}.mp3", i)).collect();
    let refs: Vec<&str> = names.iter().map(|s| s.as_str()).collect();
    let mut h = handler(&refs);
    assert_eq!(h.handle_event(InputEvent::WheelScrolled(-3)), Ok(Command::Nothing));
    assert_eq!(h.update().is_empty(), false);
    assert!(h.update().is_empty());
}

#[test]
fn repeated_paths_keep_rows_and_tracks_in_step() {
    let mut h = handler(&["a.mp3", "a.mp3", "b.mp3"]);
    // three rows for three tracks: the third row is "b.mp3", and so is the third track
    assert_eq!(h.handle_event(InputEvent::LeftReleased(v(600, 1 + 44 + 3))), Ok(Command::PlayCurrent));
    assert_eq!(h.current_track(), Some("b.mp3".to_string()));
    assert_eq!(h.handle_event(InputEvent::LeftReleased(v(600, 1 + 22 + 3))), Ok(Command::PlayCurrent));
    assert_eq!(h.current_track(), Some("a.mp3".to_string()));
}

#[test]
fn a_tiny_window_still_lays_out() {
    let paths = vec!["a.mp3".to_string()];
    let p = PlayList::from_vec(&paths, &vec![true]);
    let mut h = GraphicHandler::new(v(10, 10), p, 0, 0);
    assert!(!h.update().is_empty());
    h.invalidate();
    assert!(!h.update().is_empty());
    assert!(h.update().is_empty());
}
