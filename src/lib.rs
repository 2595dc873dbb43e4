//! Playlist and library model of a desktop music player, with the
//! formatting and cover-image rules that go with it.

pub mod text;
pub mod model;
pub mod playlists;
pub mod laws;
pub mod library;
pub mod cover;
