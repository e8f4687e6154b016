use crate::mc::release::{ReleaseID, TrackID};
use crate::text::{uuid_string, uuid_text};
use uuid::Uuid;
use vstd::prelude::*;

verus! {

/// The identifier of a playlist: the 128-bit value of its UUID.
#[derive(Clone, Copy, Debug, PartialEq, Eq, Structural)]
pub struct PlaylistID(pub u128);

impl PlaylistID {
    /// The identifier as the service writes it.
    pub fn to_string(&self) -> (s: String)
        ensures
            s@ == uuid_text(self.0),
    {
        uuid_string(self.0)
    }
}

/// A saved playlist.
#[derive(Clone, Debug, PartialEq)]
pub struct Playlist {
    pub archived: bool,
    pub background_file_id: Option<Uuid>,
    pub created_at: String,
    pub description: String,
    pub id: PlaylistID,
    pub is_public: bool,
    pub items: Option<Vec<PlaylistItem>>,
    pub my_library: bool,
    pub num_records: usize,
    pub tile_file_id: Option<Uuid>,
    pub title: String,
    pub updated_at: String,
    pub user_id: Option<Uuid>,
}

/// A track in a playlist.
#[derive(Clone, Debug, PartialEq)]
pub struct PlaylistItem {
    /// The playlist that the track is in.
    pub playlist_id: PlaylistID,
    /// The release that the track is from.
    pub release_id: ReleaseID,
    /// The place of the track in the playlist.
    pub sort: usize,
    /// The track.
    pub track_id: TrackID,
}

} // verus!
