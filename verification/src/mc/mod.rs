//! The things that the service speaks of: artists, releases, playlists and
//! the rest.

pub mod artist;
pub mod label;
pub mod mood;
pub mod playlist;
pub mod release;
pub mod user;
pub mod util;
