//! Core logic of a terminal music player: playback bookkeeping, the decode
//! bridge, the track queue, playlists, the directory browser and the text
//! rules around them.

pub mod browser;
pub mod config;
pub mod lastfm;
pub mod logger;
pub mod matching;
pub mod metadata;
pub mod order;
pub mod paths;
pub mod player;
pub mod playlist;
pub mod queue;
pub mod source;
pub mod span;
pub mod text;
pub mod tracker;
pub mod ui;
