//! Client core of a music-daemon front end: the rules by which a command
//! connection and a notification connection are opened, kept in step and torn
//! down, and the song and album records that the daemon's replies are turned
//! into.

pub mod client;
pub mod common;
pub mod library;
pub mod sorting;
pub mod text;
pub mod utils;
pub mod window;
