//! Data models of a music player library: albums, songs, playlists and paging,
//! the list items shown by the interface, and the decisions its components make.
pub mod text;
pub mod list_items;
pub mod models;
pub mod settings_model;
pub mod components;
