//! Widget logic, playlist model and event handling of a desktop music player.
//! Rendering and audio stay outside: widgets hand out drawing primitives,
//! and the handler turns input events and playback reports into commands.

pub mod geometry;
pub mod playlist;
pub mod button;
pub mod progress_bar;
pub mod text;
pub mod timer;
pub mod spectrum;
pub mod sound_position;
pub mod playlist_view;
pub mod element;
pub mod container;
pub mod handler;
