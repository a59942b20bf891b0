//! Resolves broadcaster video identifiers into playable stream URLs and
//! classifies listed content items into a live / upcoming / replay timeline.

pub mod text;
pub mod proxy;
pub mod number;
pub mod error;
pub mod timeline;
pub mod api;
pub mod clock;
pub mod urls;
pub mod ident;
pub mod playlist;
pub mod m3u8_lines;
pub mod page;
pub mod smil;
pub mod player;
