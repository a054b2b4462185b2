use music_player::playlist::PlayList;

fn names(v: &[&str]) -> Vec<String> {
    v.iter().map(|s| s.to_string()).collect()
}

fn three() -> PlayList {
    PlayList::from_vec(&names(&["a.mp3", "b.mp3", "c.mp3"]), &vec![true, true, true])
}

#[test]
fn from_vec_keeps_existing_files_in_order() {
    let p = PlayList::from_vec(&names(&["a", "missing", "c"]), &vec![true, false, true]);
    assert_eq!(p.to_vec(), names(&["a", "c"]));
    assert_eq!(p.get_pos(), 0);
    assert!(!p.get_repeat());
}

#[test]
fn new_playlist_is_empty() {
    let p = PlayList::new();
    assert_eq!(p.get_nb_musics(), 0);
    assert_eq!(p.get_pos(), 0);
}

#[test]
fn next_wraps_to_first() {
    let mut p = three();
    assert_eq!(p.get_next(), "b.mp3");
    assert_eq!(p.get_next(), "c.mp3");
    assert_eq!(p.get_next(), "a.mp3");
    assert_eq!(p.get_pos(), 0);
}

#[test]
fn prev_wraps_to_last() {
    let mut p = three();
    assert_eq!(p.get_prev(), "c.mp3");
    assert_eq!(p.get_pos(), 2);
    assert_eq!(p.get_prev(), "b.mp3");
}

#[test]
fn set_actual_clamps_to_last() {
    let mut p = three();
    p.set_actual(1);
    assert_eq!(p.get_current(), "b.mp3");
    p.set_actual(10);
    assert_eq!(p.get_pos(), 2);
    let mut e = PlayList::new();
    e.set_actual(3);
    assert_eq!(e.get_pos(), 0);
}

#[test]
fn add_music_skips_duplicates() {
    let mut p = three();
    p.add_music("b.mp3".to_string());
    assert_eq!(p.get_nb_musics(), 3);
    p.add_musics(names(&["d.mp3", "a.mp3", "d.mp3"]));
    assert_eq!(p.to_vec(), names(&["a.mp3", "b.mp3", "c.mp3", "d.mp3"]));
    assert_eq!(p.start(), "a.mp3");
}

#[test]
fn remove_current_keeps_the_following_track() {
    let mut p = three();
    p.set_actual(1);
    p.remove_current();
    assert_eq!(p.to_vec(), names(&["a.mp3", "c.mp3"]));
    assert_eq!(p.get_current(), "c.mp3");
}

#[test]
fn remove_last_track_moves_back() {
    let mut p = three();
    p.set_actual(2);
    p.remove_current();
    assert_eq!(p.get_pos(), 1);
    p.remove_current();
    p.remove_current();
    assert_eq!(p.get_nb_musics(), 0);
    assert_eq!(p.get_pos(), 0);
    p.remove_current();
    assert_eq!(p.get_nb_musics(), 0);
}

#[test]
fn repeat_toggles() {
    let mut p = three();
    p.set_repeat(true);
    assert!(p.get_repeat());
}

#[test]
fn from_vec_keeps_repeated_paths() {
    let p = PlayList::from_vec(&names(&["a", "b", "a"]), &vec![true, true, true]);
    assert_eq!(p.to_vec(), names(&["a", "b", "a"]));
}
