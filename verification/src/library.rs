//! What the library views decide.

pub mod album_content_view;
pub mod folder_row;
