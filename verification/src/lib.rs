//! NTS Radio in the terminal: the player's state, its feeds and its screens.
pub mod app;
pub mod artwork;
pub mod broadcasts;
pub mod cards;
pub mod catalog;
pub mod clock;
pub mod draw;
pub mod explore;
pub mod feed;
pub mod geometry;
pub mod laws;
pub mod listening;
pub mod looks;
pub mod now_playing;
pub mod pictures;
pub mod player;
pub mod refresh;
pub mod requests;
pub mod scene;
pub mod screen;
pub mod session;
pub mod text;
pub mod updates;
pub mod visualizer;
pub mod wording;
