use music_player::button::GraphicButton;
use music_player::geometry::{Color, Primitive, Vec2};
use music_player::playlist_view::{GraphicPlayList, PlayerError};
use music_player::progress_bar::ProgressBar;
use music_player::sound_position::GraphicSoundPosition;
use music_player::spectrum::GraphicSpectrum;
use music_player::text::push_thousandths;
use music_player::timer::{format_time, GraphicTimer};

fn v(x: i64, y: i64) -> Vec2 {
    Vec2::new(x, y)
}

fn black() -> Color {
    Color::rgb(0, 0, 0)
}

fn bar() -> ProgressBar {
    // track from x = 2 to 102: 100 pixels
    let mut b = ProgressBar::new_init(v(104, 10), v(0, 0), Color::rgb(255, 255, 255));
    b.set_maximum(1000);
    b
}

fn filled_width(prims: &[Primitive]) -> i64 {
    match &prims[1] {
        Primitive::Rect { size, .. } => size.x,
        _ => panic!("expected the filled rectangle"),
    }
}

#[test]
fn progress_scales_to_pixels() {
    let mut b = bar();
    b.set_progress(250);
    assert_eq!(b.get_real_value(), 250);
    assert_eq!(filled_width(&b.draw()), 25);
}

#[test]
fn progress_fills_at_most_the_track() {
    let mut b = bar();
    b.set_progress(5000);
    assert_eq!(b.get_real_value(), 5000);
    assert_eq!(filled_width(&b.draw()), 100);
}

#[test]
fn progress_without_width_change_does_nothing() {
    let mut b = bar();
    b.draw();
    // 5 ms of 1000 is less than one pixel of 100
    b.set_progress(5);
    assert_eq!(b.get_real_value(), 0);
    assert!(b.draw().is_empty());
}

#[test]
fn new_maximum_rescales_the_fill() {
    let mut b = bar();
    b.set_progress(500);
    b.set_maximum(2000);
    assert_eq!(filled_width(&b.draw()), 25);
    assert_eq!(b.get_real_value(), 500);
}

#[test]
fn progress_with_zero_maximum_does_nothing() {
    let mut b = ProgressBar::new_init(v(104, 10), v(0, 0), black());
    b.set_progress(10);
    assert_eq!(b.get_real_value(), 0);
    b.clicked(v(50, 5));
    assert_eq!(b.get_real_value(), 0);
}

#[test]
fn click_after_set_progress_is_within_one_step() {
    let mut b = bar();
    b.set_progress(257);
    // 257 ms is 25 pixels in; a click there stands for 250 ms, which fills
    // the same width, so the value stays
    b.clicked(v(2 + 25, 5));
    assert_eq!(b.get_real_value(), 257);
    b.set_progress(263);
    b.clicked(v(2 + 26, 5));
    assert_eq!(b.get_real_value(), 263);
    b.clicked(v(2 + 24, 5));
    assert_eq!(b.get_real_value(), 240);
}

#[test]
fn click_left_of_track_gives_zero() {
    let mut b = bar();
    b.set_progress(500);
    b.clicked(v(-40, 5));
    assert_eq!(b.get_real_value(), 0);
}

#[test]
fn resizing_progress_rescales() {
    let mut b = bar();
    b.set_progress(500);
    b.set_size(v(204, 10));
    assert_eq!(filled_width(&b.draw()), 100);
    b.set_size(v(2, 2));
    assert_eq!(b.get_size(), v(204, 10));
}

#[test]
fn draw_twice_emits_once() {
    let mut b = GraphicButton::new_init(v(100, 40), v(0, 0), black());
    assert_eq!(b.draw().len(), 2);
    assert!(b.draw().is_empty());
    b.set_pushed(true);
    assert_eq!(b.draw().len(), 2);
    let mut s = GraphicSpectrum::new_init(v(512, 100), v(0, 0), black());
    assert_eq!(s.draw().len(), 513);
    assert!(s.draw().is_empty());
}

#[test]
fn unchanged_label_changes_nothing() {
    let mut b = GraphicButton::new_init(v(100, 40), v(0, 0), black());
    b.set_label(&"Play".to_string(), 30);
    b.draw();
    b.set_label(&"Play".to_string(), 80);
    assert!(b.draw().is_empty());
    b.set_label(&"Stop".to_string(), 30);
    let prims = b.draw();
    match &prims[1] {
        Primitive::Text { text, position, .. } => {
            assert_eq!(text, "Stop");
            // (100 - 3 - 30) / 2 + 0 + 1 across, 1 + (38 - 20) / 2 - 2 down
            assert_eq!(*position, v(34, 8));
        }
        _ => panic!("expected the label"),
    }
}

#[test]
fn hover_and_leave_restore_outline() {
    let mut b = GraphicButton::new_init(v(100, 40), v(10, 20), black());
    let idle = b.draw();
    for _ in 0..3 {
        b.cursor_moved(v(50, 30));
        let hovered = b.draw();
        match &hovered[0] {
            Primitive::Rect { position, size, thickness, .. } => {
                assert_eq!(*thickness, 2);
                assert_eq!(*position, v(12, 22));
                assert_eq!(*size, v(96, 36));
            }
            _ => panic!("expected the button"),
        }
        b.mouse_leave();
        let back = b.draw();
        match (&back[0], &idle[0]) {
            (
                Primitive::Rect { position: pos_a, size: size_a, thickness: thick_a, .. },
                Primitive::Rect { position: pos_b, size: size_b, thickness: thick_b, .. },
            ) => {
                assert_eq!((pos_a, size_a, thick_a), (pos_b, size_b, thick_b));
                assert_eq!(*thick_a, 1);
            }
            _ => panic!("expected the button"),
        }
    }
}

#[test]
fn button_click_toggles_and_size_is_checked() {
    let mut b = GraphicButton::new_init(v(100, 40), v(0, 0), black());
    b.clicked(v(1, 1));
    assert!(b.is_pushed());
    b.clicked(v(1, 1));
    assert!(!b.is_pushed());
    b.set_size(v(3, 30));
    assert_eq!(b.get_size(), v(100, 40));
    assert!(b.is_inside(v(100, 40)));
    assert!(!b.is_inside(v(101, 40)));
}

#[test]
fn timer_text_is_minutes_and_seconds() {
    assert_eq!(format_time(65_000, 200_999), "01:05 / 03:20");
    assert_eq!(format_time(0, 6_000_000), "00:00 / 100:00");
    let mut t = GraphicTimer::new_init(v(167, 27), v(634, 566), black());
    assert!(t.update_display(1_000, 2_000));
    assert_eq!(t.get_text(), "00:01 / 00:02");
    t.draw();
    assert!(!t.update_display(1_500, 2_000));
    assert!(t.draw().is_empty());
}

#[test]
fn thousandths_are_signed_decimals() {
    let mut s = String::new();
    push_thousandths(&mut s, -1250);
    assert_eq!(s, "-1.250");
    let mut s = String::new();
    push_thousandths(&mut s, 30_007);
    assert_eq!(s, "30.007");
}

fn bar_heights(s: &mut GraphicSpectrum) -> Vec<i64> {
    s.invalidate();
    s.draw()
        .iter()
        .skip(1)
        .map(|p| match p {
            Primitive::Rect { size, .. } => size.y,
            _ => panic!("expected a bar"),
        })
        .collect()
}

#[test]
fn spectrum_mirrors_channels() {
    let mut s = GraphicSpectrum::new_init(v(512, 100), v(0, 0), black());
    let left: Vec<i64> = (0..256).map(|i| if i == 3 { 20_000 } else { 0 }).collect();
    let right: Vec<i64> = (0..256).map(|i| if i == 5 { 40_000 } else { 0 }).collect();
    s.update_spectrum(&left, &right);
    let h = bar_heights(&mut s);
    // 20_000 millionths * 15 = 0.3 of 100 pixels; 40_000 * 15 = 0.6
    assert_eq!(h[3], -30);
    assert_eq!(h[511 - 5], -60);
    assert_eq!(h[0], 0);
}

#[test]
fn spectrum_clamps_magnitudes() {
    let mut s = GraphicSpectrum::new_init(v(512, 100), v(0, 0), black());
    s.update_spectrum(&vec![1_000_000, -5], &vec![]);
    let h = bar_heights(&mut s);
    assert_eq!(h[0], -100);
    assert_eq!(h[1], 0);
}

#[test]
fn spectrum_keeps_width() {
    let mut s = GraphicSpectrum::new_init(v(300, 100), v(0, 0), black());
    assert_eq!(s.get_size(), v(512, 100));
    s.set_size(v(100, 50));
    assert_eq!(s.get_size(), v(512, 50));
    s.set_size(v(600, 50));
    assert_eq!(s.get_size(), v(512, 50));
}

#[test]
fn pad_click_maps_to_listener_position() {
    // centre (50, 50), radius 48
    let mut p = GraphicSoundPosition::new_init(v(100, 100), v(0, 0), black());
    p.clicked(v(74, 50));
    assert_eq!((p.get_x(), p.get_y()), (-15_000, 0));
    p.clicked(v(50, 26));
    assert_eq!((p.get_x(), p.get_y()), (0, 15_000));
    p.clicked(v(2, 2));
    assert_eq!((p.get_x(), p.get_y()), (0, 15_000));
    p.reset_cross_pos();
    assert_eq!((p.get_x(), p.get_y()), (0, 0));
}

#[test]
fn pad_labels_show_the_position() {
    let mut p = GraphicSoundPosition::new_init(v(100, 100), v(0, 0), black());
    p.clicked(v(26, 50));
    let prims = p.draw();
    match &prims[2] {
        Primitive::Text { text, .. } => assert_eq!(text, "x: 15.000"),
        _ => panic!("expected the x label"),
    }
}

fn view_with(n: usize) -> GraphicPlayList {
    let mut l = GraphicPlayList::new_init(v(287, 89), v(513, 0), black());
    let paths: Vec<String> = (0..n).map(|i| format!("/music/track{}.mp3", i)).collect();
    l.add_musics(&paths);
    l
}

#[test]
fn view_labels_are_file_names() {
    let mut l = view_with(2);
    let prims = l.draw();
    match &prims[1] {
        Primitive::Text { text, .. } => assert_eq!(text, "track0.mp3"),
        _ => panic!("expected a row"),
    }
}

#[test]
fn view_scrolls_to_keep_current_visible() {
    // (89 - 1) / 22 = 4 rows fit
    let mut l = view_with(10);
    assert_eq!(l.draw().len(), 5);
    l.set_current(5);
    assert_eq!(l.get_current(), 5);
    assert_eq!(l.get_add_to_view(), 3);
    l.set_to_add(100);
    assert_eq!(l.get_add_to_view(), 6);
    l.set_to_add(-3);
    assert_eq!(l.get_add_to_view(), 0);
}

#[test]
fn view_click_selects_row() {
    let mut l = view_with(10);
    l.clicked(v(600, 1 + 22 * 2 + 5));
    assert_eq!(l.get_current(), 2);
    l.clicked(v(600, 1 + 22 * 40));
    assert_eq!(l.get_current(), 2);
}

#[test]
fn view_removal_keeps_a_valid_current_row() {
    let mut l = view_with(3);
    l.set_current(2);
    assert_eq!(l.remove_music(2), Ok(()));
    assert_eq!(l.get_current(), 1);
    assert_eq!(l.remove_music(0), Ok(()));
    assert_eq!(l.get_current(), 0);
    assert_eq!(l.get_nb_musics(), 1);
    assert_eq!(l.remove_music(0), Err(PlayerError::NoMoreMusic));
    assert_eq!(l.get_current(), 0);
}

#[test]
fn view_duplicates_are_skipped() {
    let mut l = view_with(2);
    l.add_music("/music/track1.mp3".to_string());
    assert_eq!(l.get_nb_musics(), 2);
}

#[test]
fn pad_cross_follows_a_resize() {
    let mut p = GraphicSoundPosition::new_init(v(100, 100), v(0, 0), black());
    p.clicked(v(74, 50));
    p.set_size(v(200, 200));
    // radius 98: -15 units stand 49 pixels right of the centre (100, 100)
    let prims = p.draw();
    match &prims[5] {
        Primitive::Rect { position, .. } => assert_eq!(*position, v(149 + 3, 95)),
        _ => panic!("expected the cross"),
    }
    assert_eq!(p.get_x(), -15_000);
}

#[test]
fn spectrum_ignores_bins_past_the_last_bar() {
    let mut s = GraphicSpectrum::new_init(v(512, 100), v(0, 0), black());
    let left: Vec<i64> = vec![20_000; 600];
    s.update_spectrum(&left, &vec![]);
    let h = bar_heights(&mut s);
    assert_eq!(h.len(), 512);
    assert_eq!(h[511], -30);
    s.update_spectrum(&vec![], &vec![40_000; 700]);
    let h = bar_heights(&mut s);
    assert_eq!(h[0], -60);
}

#[test]
fn one_row_view_keeps_current_row_shown() {
    // (30 - 1) / 22 = 1 row fits
    let mut l = GraphicPlayList::new_init(v(100, 30), v(0, 0), black());
    l.add_musics(&vec!["a".to_string(), "b".to_string(), "c".to_string()]);
    l.set_current(1);
    assert_eq!(l.get_add_to_view(), 1);
    l.set_current(2);
    assert_eq!(l.get_add_to_view(), 2);
    l.set_current(0);
    assert_eq!(l.get_add_to_view(), 0);
}

#[test]
fn old_current_row_loses_hover_colour() {
    let mut l = view_with(5);
    // hover row 2, then make it current by key, then move on
    l.cursor_moved(v(600, 1 + 44 + 3));
    l.set_current(2);
    l.set_current(3);
    // the window now starts at row 1
    assert_eq!(l.get_add_to_view(), 1);
    let prims = l.draw();
    match &prims[1 + 2 - 1] {
        Primitive::Text { color, .. } => assert_eq!(*color, Color::rgb(255, 255, 255)),
        _ => panic!("expected a row"),
    }
    match &prims[1 + 3 - 1] {
        Primitive::Text { color, .. } => assert_eq!(*color, Color::rgb(255, 125, 25)),
        _ => panic!("expected a row"),
    }
}
