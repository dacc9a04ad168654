//! Records shared by the client and its front end.

pub mod album;
pub mod date;
pub mod song;
