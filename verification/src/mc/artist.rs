use crate::mc::release::ReleaseID;
use crate::mc::util::{CacheDetails, Link};
use uuid::Uuid;
use vstd::prelude::*;

verus! {

/// An artist in any of the forms in which the service describes one.
#[derive(Clone, Debug)]
pub enum AnyArtist {
    Artist(Box<Artist>),
    AlbumArtist(Box<AlbumArtist>),
    ReleaseArtist(Box<ReleaseArtist>),
}

/// An artist, in the fullest form that the service gives.
#[derive(Clone, Debug)]
pub struct Artist {
    pub about: Option<String>,
    pub active_years: Option<Vec<u16>>,
    pub cache_details: Option<CacheDetails>,
    pub details: ArtistDetails,
    pub featured_release_cover_file_id: Option<String>,
    pub featured_release_id: Option<String>,
    pub featured_video_url: Option<String>,
    pub id: Uuid,
    pub landscape_file_id: Option<String>,
    pub links: Option<Vec<Link>>,
    pub logo_file_id: Option<String>,
    pub name: String,
    pub portrait_file_id: Option<String>,
    pub profile_file_id: Option<Uuid>,
    pub public: bool,
    pub show_event: bool,
    pub square_file_id: Option<String>,
    pub tags: Option<Vec<String>>,
    pub uri: String,
}

/// More about an artist.
#[derive(Clone, Debug, PartialEq)]
pub struct ArtistDetails {
    pub about: Option<String>,
    pub bookings: Option<String>,
    pub management: Option<String>,
    pub management_details: Option<String>,
    pub show_events: Option<String>,
}

/// An artist as an album names one.
#[derive(Clone, Debug, PartialEq)]
pub struct AlbumArtist {
    pub artist_id: Uuid,
    pub artist_number: usize,
    pub name: String,
    pub profile_file_id: Uuid,
    pub platform: String,
    pub public: bool,
    pub release_id: ReleaseID,
    pub role: String,
    pub square_file_id: Option<String>,
    pub uri: String,
}

/// An artist as a release names one.
#[derive(Clone, Debug, PartialEq)]
pub struct ReleaseArtist {
    pub catalog_record_id: String,
    pub id: Uuid,
    pub name: String,
    pub profile_file_id: Uuid,
    pub public: bool,
    pub role: String,
    pub uri: String,
}

/// The value of a field that the service writes under either of two names:
/// the one under the first name where there is one, else the one under the
/// second.
pub fn either_spelling(first: Option<String>, second: Option<String>) -> (value: Option<String>)
    ensures
        value == if first is Some {
            first
        } else {
            second
        },
{
    match first {
        Some(v) => Some(v),
        None => second,
    }
}

} // verus!
