//! Opal Player: the library behind a terminal music player — its library
//! filter, queue and playlists, LRC lyrics, key bindings, transport state,
//! themes and the decisions of the application state machine.
pub mod text;
pub mod lyrics;
pub mod library;
pub mod error;
pub mod playlist;
pub mod input;
pub mod player;
pub mod theme;
pub mod config;
pub mod app;
pub mod mpris;
pub mod view;
